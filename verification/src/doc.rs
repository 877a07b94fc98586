//! The generic document tree: the untyped parsed form of the structured
//! markup input, prior to schema-driven extraction.

use vstd::prelude::*;

verus! {

broadcast use vstd::std_specs::vec::axiom_vec_index_decreases;

/// Mathematical model of a document node.
///
/// A `Real` scalar keeps the decimal literal exactly as it stood in the
/// source text, so nothing is lost to numeric rounding at this level.
pub enum Node {
    Null,
    Bool { b: bool },
    Int { i: i64 },
    Real { lit: Seq<char> },
    Str { s: Seq<char> },
    List { items: Seq<Node> },
    Mapping { entries: Seq<(Seq<char>, Node)> },
}

/// A generic document node, as handed over by the markup parser.
///
/// One of: null, boolean, integer, floating-point scalar (kept as its
/// decimal source literal), string, sequence of nodes, or mapping from
/// string keys to nodes (in source order).
pub enum DocNode {
    Null,
    Bool(bool),
    Int(i64),
    Real(String),
    Str(String),
    List(Vec<DocNode>),
    Mapping(Vec<(String, DocNode)>),
}

pub open spec fn node_view(n: DocNode) -> Node
    decreases n,
{
    match n {
        DocNode::Null => Node::Null,
        DocNode::Bool(b) => Node::Bool { b },
        DocNode::Int(i) => Node::Int { i },
        DocNode::Real(lit) => Node::Real { lit: lit@ },
        DocNode::Str(s) => Node::Str { s: s@ },
        DocNode::List(items) => Node::List {
            items: Seq::new(
                items@.len(),
                |k: int|
                    if 0 <= k < items@.len() {
                        node_view(items@[k])
                    } else {
                        Node::Null
                    },
            ),
        },
        DocNode::Mapping(entries) => Node::Mapping {
            entries: Seq::new(
                entries@.len(),
                |k: int|
                    if 0 <= k < entries@.len() {
                        (entries@[k].0@, node_view(entries@[k].1))
                    } else {
                        (Seq::empty(), Node::Null)
                    },
            ),
        },
    }
}

impl View for DocNode {
    type V = Node;

    open spec fn view(&self) -> Node {
        node_view(*self)
    }
}

} // verus!
