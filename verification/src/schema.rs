//! The configuration schema, stated mathematically: which key holds which
//! shape, what each shape means on a generic document tree, and what the
//! whole extraction returns on every possible tree.

use vstd::prelude::*;

use crate::config::ConfigV;
use crate::config::LimitV;
use crate::config::Vec3V;
use crate::doc::Node;
use crate::error::SchemaErrorV;
use crate::error::Shape;

verus! {

/// First entry of `entries` whose key equals `key`, if any.
pub open spec fn lookup(entries: Seq<(Seq<char>, Node)>, key: Seq<char>) -> Option<Node>
    decreases entries.len(),
{
    if entries.len() == 0 {
        None
    } else if entries[0].0 == key {
        Some(entries[0].1)
    } else {
        lookup(entries.skip(1), key)
    }
}

/// The value under `key` in the root mapping, if the document is a mapping
/// and holds the key.
pub open spec fn get_field(doc: Node, key: Seq<char>) -> Option<Node> {
    match doc {
        Node::Mapping { entries } => lookup(entries, key),
        _ => None,
    }
}

/// The error a field failing its shape yields.
pub open spec fn schema_err(key: Seq<char>, expected: Shape) -> SchemaErrorV {
    SchemaErrorV { field: key, expected }
}

/// Every item is a scalar string.
pub open spec fn all_strs(items: Seq<Node>) -> bool {
    forall|k: int| 0 <= k < items.len() ==> items[k] is Str
}

/// The strings of a sequence of scalar strings, in order.
pub open spec fn strs_of(items: Seq<Node>) -> Seq<Seq<char>> {
    items.map_values(|n: Node| n->Str_s)
}

/// Every item is a numeric scalar. An integer scalar is not one: the
/// schema asks for floating-point literals and coerces nothing.
pub open spec fn all_reals(items: Seq<Node>) -> bool {
    forall|k: int| 0 <= k < items.len() ==> items[k] is Real
}

/// The numeric literals of a sequence of numeric scalars, in order.
pub open spec fn reals_of(items: Seq<Node>) -> Seq<Seq<char>> {
    items.map_values(|n: Node| n->Real_lit)
}

/// Every item is itself a sequence of scalar strings. Empty inner
/// sequences are permitted.
pub open spec fn all_str_lists(items: Seq<Node>) -> bool {
    forall|k: int| 0 <= k < items.len() ==> items[k] is List && all_strs(items[k]->List_items)
}

/// The per-chain string lists, outer and inner order preserved.
pub open spec fn str_lists_of(items: Seq<Node>) -> Seq<Seq<Seq<char>>> {
    items.map_values(|n: Node| strs_of(n->List_items))
}

/// A sequence of at least two items whose first two are numeric scalars.
/// Items beyond the first two are ignored.
pub open spec fn is_pair(n: Node) -> bool {
    &&& n is List
    &&& n->List_items.len() >= 2
    &&& n->List_items[0] is Real
    &&& n->List_items[1] is Real
}

/// The (lower, upper) pair read positionally from the first two items.
pub open spec fn pair_of(n: Node) -> LimitV {
    LimitV { lower: n->List_items[0]->Real_lit, upper: n->List_items[1]->Real_lit }
}

pub open spec fn all_pairs(items: Seq<Node>) -> bool {
    forall|k: int| 0 <= k < items.len() ==> is_pair(items[k])
}

pub open spec fn pairs_of(items: Seq<Node>) -> Seq<LimitV> {
    items.map_values(|n: Node| pair_of(n))
}

/// A sequence of at least three items whose first three are numeric
/// scalars. Items beyond the first three are ignored.
pub open spec fn is_triple(n: Node) -> bool {
    &&& n is List
    &&& n->List_items.len() >= 3
    &&& n->List_items[0] is Real
    &&& n->List_items[1] is Real
    &&& n->List_items[2] is Real
}

/// The 3-D vector read positionally from the first three items.
pub open spec fn triple_of(n: Node) -> Vec3V {
    Vec3V {
        x: n->List_items[0]->Real_lit,
        y: n->List_items[1]->Real_lit,
        z: n->List_items[2]->Real_lit,
    }
}

pub open spec fn all_triples(items: Seq<Node>) -> bool {
    forall|k: int| 0 <= k < items.len() ==> is_triple(items[k])
}

pub open spec fn triples_of(items: Seq<Node>) -> Seq<Vec3V> {
    items.map_values(|n: Node| triple_of(n))
}

/// Every item is itself a sequence of numeric triples.
pub open spec fn all_triple_lists(items: Seq<Node>) -> bool {
    forall|k: int| 0 <= k < items.len() ==> items[k] is List && all_triples(items[k]->List_items)
}

pub open spec fn triple_lists_of(items: Seq<Node>) -> Seq<Seq<Vec3V>> {
    items.map_values(|n: Node| triples_of(n->List_items))
}

/// Extraction of a scalar string field.
pub open spec fn str_field(doc: Node, key: Seq<char>) -> Result<Seq<char>, SchemaErrorV> {
    match get_field(doc, key) {
        Some(Node::Str { s }) => Ok(s),
        _ => Err(schema_err(key, Shape::Str)),
    }
}

/// Extraction of a flat list of strings.
pub open spec fn str_list_field(doc: Node, key: Seq<char>) -> Result<
    Seq<Seq<char>>,
    SchemaErrorV,
> {
    match get_field(doc, key) {
        Some(Node::List { items }) => if all_strs(items) {
            Ok(strs_of(items))
        } else {
            Err(schema_err(key, Shape::StrList))
        },
        _ => Err(schema_err(key, Shape::StrList)),
    }
}

/// Extraction of a flat list of numeric literals.
pub open spec fn real_list_field(doc: Node, key: Seq<char>) -> Result<
    Seq<Seq<char>>,
    SchemaErrorV,
> {
    match get_field(doc, key) {
        Some(Node::List { items }) => if all_reals(items) {
            Ok(reals_of(items))
        } else {
            Err(schema_err(key, Shape::RealList))
        },
        _ => Err(schema_err(key, Shape::RealList)),
    }
}

/// Extraction of a list of per-chain string lists.
pub open spec fn str_list_list_field(doc: Node, key: Seq<char>) -> Result<
    Seq<Seq<Seq<char>>>,
    SchemaErrorV,
> {
    match get_field(doc, key) {
        Some(Node::List { items }) => if all_str_lists(items) {
            Ok(str_lists_of(items))
        } else {
            Err(schema_err(key, Shape::StrListList))
        },
        _ => Err(schema_err(key, Shape::StrListList)),
    }
}

/// Extraction of a list of numeric pairs.
pub open spec fn pair_list_field(doc: Node, key: Seq<char>) -> Result<Seq<LimitV>, SchemaErrorV> {
    match get_field(doc, key) {
        Some(Node::List { items }) => if all_pairs(items) {
            Ok(pairs_of(items))
        } else {
            Err(schema_err(key, Shape::PairList))
        },
        _ => Err(schema_err(key, Shape::PairList)),
    }
}

/// Extraction of a list of numeric triples.
pub open spec fn triple_list_field(doc: Node, key: Seq<char>) -> Result<Seq<Vec3V>, SchemaErrorV> {
    match get_field(doc, key) {
        Some(Node::List { items }) => if all_triples(items) {
            Ok(triples_of(items))
        } else {
            Err(schema_err(key, Shape::TripleList))
        },
        _ => Err(schema_err(key, Shape::TripleList)),
    }
}

/// Extraction of a list of per-chain lists of numeric triples.
pub open spec fn triple_list_list_field(doc: Node, key: Seq<char>) -> Result<
    Seq<Seq<Vec3V>>,
    SchemaErrorV,
> {
    match get_field(doc, key) {
        Some(Node::List { items }) => if all_triple_lists(items) {
            Ok(triple_lists_of(items))
        } else {
            Err(schema_err(key, Shape::TripleListList))
        },
        _ => Err(schema_err(key, Shape::TripleListList)),
    }
}

/// Whether `key` is one of the sixteen required keys of the schema.
pub open spec fn required_key(key: Seq<char>) -> bool {
    ||| key == "urdf_file_name"@
    ||| key == "fixed_frame"@
    ||| key == "collision_file_name"@
    ||| key == "collision_nn_file"@
    ||| key == "path_to_src"@
    ||| key == "joint_state_define_func_file"@
    ||| key == "joint_names"@
    ||| key == "joint_ordering"@
    ||| key == "ee_fixed_joints"@
    ||| key == "starting_config"@
    ||| key == "axis_types"@
    ||| key == "velocity_limits"@
    ||| key == "joint_limits"@
    ||| key == "displacements"@
    ||| key == "disp_offsets"@
    ||| key == "joint_types"@
}

/// The shape the schema requires of the field under a required key.
pub open spec fn key_shape(key: Seq<char>) -> Shape {
    if key == "joint_names"@ || key == "axis_types"@ || key == "joint_types"@ {
        Shape::StrListList
    } else if key == "joint_ordering"@ || key == "ee_fixed_joints"@ {
        Shape::StrList
    } else if key == "starting_config"@ || key == "velocity_limits"@ {
        Shape::RealList
    } else if key == "joint_limits"@ {
        Shape::PairList
    } else if key == "displacements"@ {
        Shape::TripleListList
    } else if key == "disp_offsets"@ {
        Shape::TripleList
    } else {
        Shape::Str
    }
}

/// Whether the field under a required key extracts successfully.
pub open spec fn field_ok(doc: Node, key: Seq<char>) -> bool {
    match key_shape(key) {
        Shape::Str => str_field(doc, key) is Ok,
        Shape::StrList => str_list_field(doc, key) is Ok,
        Shape::RealList => real_list_field(doc, key) is Ok,
        Shape::StrListList => str_list_list_field(doc, key) is Ok,
        Shape::PairList => pair_list_field(doc, key) is Ok,
        Shape::TripleList => triple_list_field(doc, key) is Ok,
        Shape::TripleListList => triple_list_list_field(doc, key) is Ok,
    }
}

/// The whole extraction: every field in the order the loader reads them,
/// stopping at the first field that fails.
pub open spec fn extract_spec(doc: Node) -> Result<ConfigV, SchemaErrorV> {
    match str_field(doc, "urdf_file_name"@) {
        Err(e) => Err(e),
        Ok(urdf_file_name) => match str_field(doc, "fixed_frame"@) {
            Err(e) => Err(e),
            Ok(fixed_frame) => match str_field(doc, "collision_file_name"@) {
                Err(e) => Err(e),
                Ok(collision_file_name) => match str_field(doc, "collision_nn_file"@) {
                    Err(e) => Err(e),
                    Ok(collision_nn_file) => match str_field(doc, "path_to_src"@) {
                        Err(e) => Err(e),
                        Ok(path_to_src) => match str_field(
                            doc,
                            "joint_state_define_func_file"@,
                        ) {
                            Err(e) => Err(e),
                            Ok(joint_state_define_func_file) => match str_list_list_field(
                                doc,
                                "joint_names"@,
                            ) {
                                Err(e) => Err(e),
                                Ok(joint_names) => match str_list_field(doc, "joint_ordering"@) {
                                    Err(e) => Err(e),
                                    Ok(joint_ordering) => match str_list_field(
                                        doc,
                                        "ee_fixed_joints"@,
                                    ) {
                                        Err(e) => Err(e),
                                        Ok(ee_fixed_joints) => match real_list_field(
                                            doc,
                                            "starting_config"@,
                                        ) {
                                            Err(e) => Err(e),
                                            Ok(starting_config) => match str_list_list_field(
                                                doc,
                                                "axis_types"@,
                                            ) {
                                                Err(e) => Err(e),
                                                Ok(axis_types) => match real_list_field(
                                                    doc,
                                                    "velocity_limits"@,
                                                ) {
                                                    Err(e) => Err(e),
                                                    Ok(velocity_limits) => match pair_list_field(
                                                        doc,
                                                        "joint_limits"@,
                                                    ) {
                                                        Err(e) => Err(e),
                                                        Ok(joint_limits) => match triple_list_list_field(
                                                            doc,
                                                            "displacements"@,
                                                        ) {
                                                            Err(e) => Err(e),
                                                            Ok(displacements) => match triple_list_field(
                                                                doc,
                                                                "disp_offsets"@,
                                                            ) {
                                                                Err(e) => Err(e),
                                                                Ok(disp_offsets) => match str_list_list_field(
                                                                    doc,
                                                                    "joint_types"@,
                                                                ) {
                                                                    Err(e) => Err(e),
                                                                    Ok(joint_types) => Ok(
                                                                        ConfigV {
                                                                            urdf_file_name,
                                                                            fixed_frame,
                                                                            joint_names,
                                                                            joint_ordering,
                                                                            ee_fixed_joints,
                                                                            starting_config,
                                                                            collision_file_name,
                                                                            collision_nn_file,
                                                                            path_to_src,
                                                                            axis_types,
                                                                            velocity_limits,
                                                                            joint_limits,
                                                                            displacements,
                                                                            disp_offsets,
                                                                            joint_types,
                                                                            joint_state_define_func_file,
                                                                        },
                                                                    ),
                                                                },
                                                            },
                                                        },
                                                    },
                                                },
                                            },
                                        },
                                    },
                                },
                            },
                        },
                    },
                },
            },
        },
    }
}

} // verus!
