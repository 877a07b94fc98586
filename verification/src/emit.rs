//! The serializer: writes a configuration record back out as a generic
//! document tree in the documented schema, so that a record can be saved
//! and reloaded without loss.

use vstd::prelude::*;

use crate::config::ConfigV;
use crate::config::JointLimit;
use crate::config::LimitV;
use crate::config::Real;
use crate::config::RobotKinematicsConfig;
use crate::config::Vec3;
use crate::config::Vec3V;
use crate::config::limits_view;
use crate::config::reals_view;
use crate::config::str_lists_view;
use crate::config::strs_view;
use crate::config::vec3_lists_view;
use crate::config::vec3s_view;
use crate::doc::DocNode;
use crate::doc::Node;
use crate::doc::node_view;

verus! {

/// A flat list of strings as a document node.
pub open spec fn strs_node(v: Seq<Seq<char>>) -> Node {
    Node::List { items: v.map_values(|s: Seq<char>| Node::Str { s }) }
}

/// A flat list of numeric literals as a document node.
pub open spec fn reals_node(v: Seq<Seq<char>>) -> Node {
    Node::List { items: v.map_values(|lit: Seq<char>| Node::Real { lit }) }
}

/// A per-chain list of string lists as a document node.
pub open spec fn str_lists_node(v: Seq<Seq<Seq<char>>>) -> Node {
    Node::List { items: v.map_values(|inner: Seq<Seq<char>>| strs_node(inner)) }
}

/// A limit pair as a two-item document node.
pub open spec fn limit_node(l: LimitV) -> Node {
    Node::List { items: seq![Node::Real { lit: l.lower }, Node::Real { lit: l.upper }] }
}

/// A list of limit pairs as a document node.
pub open spec fn limits_node(v: Seq<LimitV>) -> Node {
    Node::List { items: v.map_values(|l: LimitV| limit_node(l)) }
}

/// A 3-D vector as a three-item document node.
pub open spec fn vec3_node(w: Vec3V) -> Node {
    Node::List {
        items: seq![
            Node::Real { lit: w.x },
            Node::Real { lit: w.y },
            Node::Real { lit: w.z },
        ],
    }
}

/// A list of 3-D vectors as a document node.
pub open spec fn vec3s_node(v: Seq<Vec3V>) -> Node {
    Node::List { items: v.map_values(|w: Vec3V| vec3_node(w)) }
}

/// A per-chain list of 3-D vector lists as a document node.
pub open spec fn vec3_lists_node(v: Seq<Seq<Vec3V>>) -> Node {
    Node::List { items: v.map_values(|inner: Seq<Vec3V>| vec3s_node(inner)) }
}

/// The entry a record's root mapping holds at position `i`: the fields in
/// the order the loader reads them, each under its schema key.
pub open spec fn doc_entry(c: ConfigV, i: int) -> (Seq<char>, Node) {
    if i == 0 {
        ("urdf_file_name"@, Node::Str { s: c.urdf_file_name })
    } else if i == 1 {
        ("fixed_frame"@, Node::Str { s: c.fixed_frame })
    } else if i == 2 {
        ("collision_file_name"@, Node::Str { s: c.collision_file_name })
    } else if i == 3 {
        ("collision_nn_file"@, Node::Str { s: c.collision_nn_file })
    } else if i == 4 {
        ("path_to_src"@, Node::Str { s: c.path_to_src })
    } else if i == 5 {
        ("joint_state_define_func_file"@, Node::Str { s: c.joint_state_define_func_file })
    } else if i == 6 {
        ("joint_names"@, str_lists_node(c.joint_names))
    } else if i == 7 {
        ("joint_ordering"@, strs_node(c.joint_ordering))
    } else if i == 8 {
        ("ee_fixed_joints"@, strs_node(c.ee_fixed_joints))
    } else if i == 9 {
        ("starting_config"@, reals_node(c.starting_config))
    } else if i == 10 {
        ("axis_types"@, str_lists_node(c.axis_types))
    } else if i == 11 {
        ("velocity_limits"@, reals_node(c.velocity_limits))
    } else if i == 12 {
        ("joint_limits"@, limits_node(c.joint_limits))
    } else if i == 13 {
        ("displacements"@, vec3_lists_node(c.displacements))
    } else if i == 14 {
        ("disp_offsets"@, vec3s_node(c.disp_offsets))
    } else {
        ("joint_types"@, str_lists_node(c.joint_types))
    }
}

/// The root mapping a record serializes to: all sixteen fields.
pub open spec fn doc_entries(c: ConfigV) -> Seq<(Seq<char>, Node)> {
    Seq::new(16, |i: int| doc_entry(c, i))
}

/// The view an exec mapping entry contributes to the document model.
pub open spec fn entry_view(p: (String, DocNode)) -> (Seq<char>, Node) {
    (p.0@, node_view(p.1))
}

/// The view a whole exec entry list contributes.
pub open spec fn entries_view(s: Seq<(String, DocNode)>) -> Seq<(Seq<char>, Node)> {
    s.map_values(|p: (String, DocNode)| entry_view(p))
}

/// The document tree a record serializes to.
pub open spec fn doc_of(c: ConfigV) -> Node {
    Node::Mapping { entries: doc_entries(c) }
}

/// A flat list of strings, serialized.
#[verifier::loop_isolation(false)]
fn strs_to_node(v: &Vec<String>) -> (d: DocNode)
    ensures
        d@ == strs_node(strs_view(v@)),
{
    let mut items: Vec<DocNode> = Vec::new();
    let mut i: usize = 0;
    while i < v.len()
        invariant
            i <= v.len(),
            items@.len() == i,
            forall|j: int| 0 <= j < i ==> node_view(items@[j]) == (Node::Str { s: v@[j]@ }),
        decreases v.len() - i,
    {
        items.push(DocNode::Str(v[i].clone()));
        i += 1;
    }
    let d = DocNode::List(items);
    proof {
        assert(d@->List_items =~= strs_node(strs_view(v@))->List_items);
    }
    d
}

/// A flat list of numeric literals, serialized.
#[verifier::loop_isolation(false)]
fn reals_to_node(v: &Vec<Real>) -> (d: DocNode)
    ensures
        d@ == reals_node(reals_view(v@)),
{
    let mut items: Vec<DocNode> = Vec::new();
    let mut i: usize = 0;
    while i < v.len()
        invariant
            i <= v.len(),
            items@.len() == i,
            forall|j: int| 0 <= j < i ==> node_view(items@[j]) == (Node::Real { lit: v@[j]@ }),
        decreases v.len() - i,
    {
        items.push(DocNode::Real(v[i].lit.clone()));
        i += 1;
    }
    let d = DocNode::List(items);
    proof {
        assert(d@->List_items =~= reals_node(reals_view(v@))->List_items);
    }
    d
}

/// A per-chain list of string lists, serialized.
#[verifier::loop_isolation(false)]
fn str_lists_to_node(v: &Vec<Vec<String>>) -> (d: DocNode)
    ensures
        d@ == str_lists_node(str_lists_view(v@)),
{
    let mut items: Vec<DocNode> = Vec::new();
    let mut i: usize = 0;
    while i < v.len()
        invariant
            i <= v.len(),
            items@.len() == i,
            forall|j: int|
                0 <= j < i ==> node_view(items@[j]) == strs_node(strs_view(v@[j]@)),
        decreases v.len() - i,
    {
        items.push(strs_to_node(&v[i]));
        i += 1;
    }
    let d = DocNode::List(items);
    proof {
        assert(d@->List_items =~= str_lists_node(str_lists_view(v@))->List_items);
    }
    d
}

/// A limit pair, serialized as a two-item list.
fn limit_to_node(l: &JointLimit) -> (d: DocNode)
    ensures
        d@ == limit_node(l@),
{
    let mut items: Vec<DocNode> = Vec::new();
    items.push(DocNode::Real(l.lower.lit.clone()));
    items.push(DocNode::Real(l.upper.lit.clone()));
    let d = DocNode::List(items);
    proof {
        let s = limit_node(l@)->List_items;
        assert(s[0] == (Node::Real { lit: l@.lower }));
        assert(s[1] == (Node::Real { lit: l@.upper }));
        assert(node_view(items@[0]) == (Node::Real { lit: l@.lower }));
        assert(node_view(items@[1]) == (Node::Real { lit: l@.upper }));
        assert(d@->List_items =~= s);
    }
    d
}

/// A list of limit pairs, serialized.
#[verifier::loop_isolation(false)]
fn limits_to_node(v: &Vec<JointLimit>) -> (d: DocNode)
    ensures
        d@ == limits_node(limits_view(v@)),
{
    let mut items: Vec<DocNode> = Vec::new();
    let mut i: usize = 0;
    while i < v.len()
        invariant
            i <= v.len(),
            items@.len() == i,
            forall|j: int| 0 <= j < i ==> node_view(items@[j]) == limit_node(v@[j]@),
        decreases v.len() - i,
    {
        items.push(limit_to_node(&v[i]));
        i += 1;
    }
    let d = DocNode::List(items);
    proof {
        assert(d@->List_items =~= limits_node(limits_view(v@))->List_items);
    }
    d
}

/// A 3-D vector, serialized as a three-item list.
fn vec3_to_node(w: &Vec3) -> (d: DocNode)
    ensures
        d@ == vec3_node(w@),
{
    let mut items: Vec<DocNode> = Vec::new();
    items.push(DocNode::Real(w.x.lit.clone()));
    items.push(DocNode::Real(w.y.lit.clone()));
    items.push(DocNode::Real(w.z.lit.clone()));
    let d = DocNode::List(items);
    proof {
        let s = vec3_node(w@)->List_items;
        assert(s[0] == (Node::Real { lit: w@.x }));
        assert(s[1] == (Node::Real { lit: w@.y }));
        assert(s[2] == (Node::Real { lit: w@.z }));
        assert(node_view(items@[0]) == (Node::Real { lit: w@.x }));
        assert(node_view(items@[1]) == (Node::Real { lit: w@.y }));
        assert(node_view(items@[2]) == (Node::Real { lit: w@.z }));
        assert(d@->List_items =~= s);
    }
    d
}

/// A list of 3-D vectors, serialized.
#[verifier::loop_isolation(false)]
fn vec3s_to_node(v: &Vec<Vec3>) -> (d: DocNode)
    ensures
        d@ == vec3s_node(vec3s_view(v@)),
{
    let mut items: Vec<DocNode> = Vec::new();
    let mut i: usize = 0;
    while i < v.len()
        invariant
            i <= v.len(),
            items@.len() == i,
            forall|j: int| 0 <= j < i ==> node_view(items@[j]) == vec3_node(v@[j]@),
        decreases v.len() - i,
    {
        items.push(vec3_to_node(&v[i]));
        i += 1;
    }
    let d = DocNode::List(items);
    proof {
        assert(d@->List_items =~= vec3s_node(vec3s_view(v@))->List_items);
    }
    d
}

/// A per-chain list of 3-D vector lists, serialized.
#[verifier::loop_isolation(false)]
fn vec3_lists_to_node(v: &Vec<Vec<Vec3>>) -> (d: DocNode)
    ensures
        d@ == vec3_lists_node(vec3_lists_view(v@)),
{
    let mut items: Vec<DocNode> = Vec::new();
    let mut i: usize = 0;
    while i < v.len()
        invariant
            i <= v.len(),
            items@.len() == i,
            forall|j: int|
                0 <= j < i ==> node_view(items@[j]) == vec3s_node(vec3s_view(v@[j]@)),
        decreases v.len() - i,
    {
        items.push(vec3s_to_node(&v[i]));
        i += 1;
    }
    let d = DocNode::List(items);
    proof {
        assert(d@->List_items =~= vec3_lists_node(vec3_lists_view(v@))->List_items);
    }
    d
}

/// Serializes a record back to a document tree in the documented schema:
/// one root mapping holding all sixteen fields under their schema keys.
#[verifier::rlimit(60)]
pub fn config_to_doc(c: &RobotKinematicsConfig) -> (d: DocNode)
    ensures
        d@ == doc_of(c@),
{
    let mut entries: Vec<(String, DocNode)> = Vec::new();
    entries.push(("urdf_file_name".to_owned(), DocNode::Str(c.urdf_file_name.clone())));
    proof {
        assert(entries_view(entries@) =~= doc_entries(c@).subrange(0, 1));
    }
    entries.push(("fixed_frame".to_owned(), DocNode::Str(c.fixed_frame.clone())));
    proof {
        assert(entries_view(entries@) =~= doc_entries(c@).subrange(0, 2));
    }
    entries.push(("collision_file_name".to_owned(), DocNode::Str(c.collision_file_name.clone())));
    proof {
        assert(entries_view(entries@) =~= doc_entries(c@).subrange(0, 3));
    }
    entries.push(("collision_nn_file".to_owned(), DocNode::Str(c.collision_nn_file.clone())));
    proof {
        assert(entries_view(entries@) =~= doc_entries(c@).subrange(0, 4));
    }
    entries.push(("path_to_src".to_owned(), DocNode::Str(c.path_to_src.clone())));
    proof {
        assert(entries_view(entries@) =~= doc_entries(c@).subrange(0, 5));
    }
    entries.push(("joint_state_define_func_file".to_owned(), DocNode::Str(c.joint_state_define_func_file.clone())));
    proof {
        assert(entries_view(entries@) =~= doc_entries(c@).subrange(0, 6));
    }
    entries.push(("joint_names".to_owned(), str_lists_to_node(&c.joint_names)));
    proof {
        assert(entries_view(entries@) =~= doc_entries(c@).subrange(0, 7));
    }
    entries.push(("joint_ordering".to_owned(), strs_to_node(&c.joint_ordering)));
    proof {
        assert(entries_view(entries@) =~= doc_entries(c@).subrange(0, 8));
    }
    entries.push(("ee_fixed_joints".to_owned(), strs_to_node(&c.ee_fixed_joints)));
    proof {
        assert(entries_view(entries@) =~= doc_entries(c@).subrange(0, 9));
    }
    entries.push(("starting_config".to_owned(), reals_to_node(&c.starting_config)));
    proof {
        assert(entries_view(entries@) =~= doc_entries(c@).subrange(0, 10));
    }
    entries.push(("axis_types".to_owned(), str_lists_to_node(&c.axis_types)));
    proof {
        assert(entries_view(entries@) =~= doc_entries(c@).subrange(0, 11));
    }
    entries.push(("velocity_limits".to_owned(), reals_to_node(&c.velocity_limits)));
    proof {
        assert(entries_view(entries@) =~= doc_entries(c@).subrange(0, 12));
    }
    entries.push(("joint_limits".to_owned(), limits_to_node(&c.joint_limits)));
    proof {
        assert(entries_view(entries@) =~= doc_entries(c@).subrange(0, 13));
    }
    entries.push(("displacements".to_owned(), vec3_lists_to_node(&c.displacements)));
    proof {
        assert(entries_view(entries@) =~= doc_entries(c@).subrange(0, 14));
    }
    entries.push(("disp_offsets".to_owned(), vec3s_to_node(&c.disp_offsets)));
    proof {
        assert(entries_view(entries@) =~= doc_entries(c@).subrange(0, 15));
    }
    entries.push(("joint_types".to_owned(), str_lists_to_node(&c.joint_types)));
    proof {
        assert(entries_view(entries@) =~= doc_entries(c@).subrange(0, 16));
    }
    let d = DocNode::Mapping(entries);
    proof {
        assert(doc_entries(c@).subrange(0, 16) =~= doc_entries(c@));
        assert(d@->Mapping_entries =~= entries_view(entries@));
    }
    d
}


} // verus!
