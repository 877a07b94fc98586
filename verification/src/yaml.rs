//! The document loader: hands raw text to the generic markup parser and
//! turns what comes back into the library's own document trees.
//!
//! The parser itself is outside code, trusted through the two items below;
//! everything from the document tree onward is verified.

use vstd::prelude::*;

use yaml_rust::Yaml;

use crate::config::ConfigV;
use crate::config::RobotKinematicsConfig;
use crate::doc::DocNode;
use crate::doc::Node;
use crate::error::LoadError;
use crate::error::LoadErrorV;
use crate::error::SchemaErrorV;
use crate::extract::extract_config;
use crate::schema::extract_spec;

verus! {

/// What the markup parser yields on a given text: `None` when the text is
/// not well-formed markup, otherwise the parsed document trees in order.
/// Parsing is a pure function of the text, so the result bears a name.
pub uninterp spec fn parsed_docs(text: Seq<char>) -> Option<Seq<Node>>;

/// Declares yaml_rust::Yaml, the parser's node type, so that the wrapper
/// below can take it; the library never looks inside such a value.
#[verifier::external_type_specification]
#[verifier::external_body]
pub struct ExYaml(Yaml);

/// Relies on yaml_rust::Yaml: each variant is carried over to the matching
/// document node. A floating-point scalar is already stored by the parser
/// as its source literal, which is moved over unchanged. A mapping entry
/// under a non-string key can never be addressed by the schema's string
/// lookup (the parser's own string indexing skips it the same way), so it
/// is left out; an unresolved alias and the parser's bad-value marker carry
/// no data and become null.
#[verifier::external_body]
fn node_of_yaml(y: &Yaml) -> DocNode {
    match y {
        Yaml::Real(s) => DocNode::Real(s.clone()),
        Yaml::Integer(i) => DocNode::Int(*i),
        Yaml::String(s) => DocNode::Str(s.clone()),
        Yaml::Boolean(b) => DocNode::Bool(*b),
        Yaml::Array(items) => DocNode::List(items.iter().map(node_of_yaml).collect()),
        Yaml::Hash(h) => DocNode::Mapping(
            h.iter().filter_map(|(k, v)| match k {
                Yaml::String(s) => Some((s.clone(), node_of_yaml(v))),
                _ => None,
            }).collect(),
        ),
        _ => DocNode::Null,
    }
}

/// Relies on yaml_rust::YamlLoader::load_from_str: on well-formed text it
/// returns the documents in source order (deterministically, from the text
/// alone); on malformed text it returns a scan error.
#[verifier::external_body]
fn parse_documents(text: &str) -> (r: Option<Vec<DocNode>>)
    ensures
        r is Some <==> parsed_docs(text@) is Some,
        r matches Some(docs) ==> parsed_docs(text@) == Some(
            docs@.map_values(|d: DocNode| d@),
        ),
{
    match yaml_rust::YamlLoader::load_from_str(text) {
        Ok(docs) => Some(docs.iter().map(node_of_yaml).collect()),
        Err(_) => None,
    }
}

/// Loads a configuration from document text: parses the text, takes the
/// first document (later documents are ignored), and extracts every field
/// of the schema from it.
pub fn config_from_str(text: &str) -> (r: Result<RobotKinematicsConfig, LoadError>)
    ensures
        match r {
            Ok(c) => {
                &&& parsed_docs(text@) matches Some(docs)
                &&& docs.len() > 0
                &&& extract_spec(docs[0]) == Ok::<ConfigV, SchemaErrorV>(c@)
            },
            Err(e) => match e@ {
                LoadErrorV::Parse => parsed_docs(text@) is None,
                LoadErrorV::NoDocument => parsed_docs(text@) == Some(Seq::<Node>::empty()),
                LoadErrorV::Schema(se) => {
                    &&& parsed_docs(text@) matches Some(docs)
                    &&& docs.len() > 0
                    &&& extract_spec(docs[0]) == Err::<ConfigV, SchemaErrorV>(se)
                },
            },
        },
{
    let docs = match parse_documents(text) {
        Some(docs) => docs,
        None => {
            return Err(LoadError::Parse);
        },
    };
    if docs.len() == 0 {
        proof {
            assert(docs@.map_values(|d: DocNode| d@) =~= Seq::<Node>::empty());
        }
        return Err(LoadError::NoDocument);
    }
    match extract_config(&docs[0]) {
        Ok(c) => Ok(c),
        Err(e) => Err(LoadError::Schema(e)),
    }
}

} // verus!
