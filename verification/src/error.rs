//! Errors a load can end in: the text does not parse, the parse yields no
//! document at all, or a required field is missing or of the wrong shape.

use vstd::prelude::*;

verus! {

/// The shape a field of the configuration document must have.
#[derive(Clone, Copy, Debug, PartialEq, Eq, Structural)]
pub enum Shape {
    /// A scalar string.
    Str,
    /// A flat sequence of scalar strings.
    StrList,
    /// A flat sequence of numeric scalars.
    RealList,
    /// A sequence of sequences of scalar strings (one inner list per chain).
    StrListList,
    /// A sequence of numeric pairs (lower and upper limit per joint).
    PairList,
    /// A sequence of numeric triples (one 3-D vector per chain).
    TripleList,
    /// A sequence of sequences of numeric triples (per chain, per joint).
    TripleListList,
}

/// A required key was missing, or its value did not have the required shape.
#[derive(Clone, Debug, PartialEq, Eq)]
pub struct SchemaError {
    /// The key of the field that failed.
    pub field: String,
    /// The shape that field must have.
    pub expected: Shape,
}

/// Mathematical model of a `SchemaError`.
pub struct SchemaErrorV {
    pub field: Seq<char>,
    pub expected: Shape,
}

impl View for SchemaError {
    type V = SchemaErrorV;

    open spec fn view(&self) -> SchemaErrorV {
        SchemaErrorV { field: self.field@, expected: self.expected }
    }
}

/// Everything that can go wrong between raw document text and a finished
/// configuration record. An unreadable file is the caller's to report: this
/// library never touches the file system.
#[derive(Clone, Debug, PartialEq, Eq)]
pub enum LoadError {
    /// The text is not well-formed structured markup.
    Parse,
    /// The text is well-formed but holds no document at all.
    NoDocument,
    /// The first document does not match the configuration schema.
    Schema(SchemaError),
}

/// Mathematical model of a `LoadError`.
pub enum LoadErrorV {
    Parse,
    NoDocument,
    Schema(SchemaErrorV),
}

impl View for LoadError {
    type V = LoadErrorV;

    open spec fn view(&self) -> LoadErrorV {
        match self {
            LoadError::Parse => LoadErrorV::Parse,
            LoadError::NoDocument => LoadErrorV::NoDocument,
            LoadError::Schema(e) => LoadErrorV::Schema(e@),
        }
    }
}

} // verus!
