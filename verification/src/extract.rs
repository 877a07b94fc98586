//! The configuration extractor: walks the first generic document tree and
//! materializes a `RobotKinematicsConfig`, checking every field's presence,
//! type and shape. Each function returns exactly what the schema in
//! `crate::schema` says it returns, on every input.

use vstd::prelude::*;

use crate::config::ConfigV;
use crate::config::JointLimit;
use crate::config::Real;
use crate::config::RobotKinematicsConfig;
use crate::config::Vec3;
use crate::config::strs_view;
use crate::config::str_lists_view;
use crate::config::reals_view;
use crate::config::limits_view;
use crate::config::vec3s_view;
use crate::config::vec3_lists_view;
use crate::doc::DocNode;
use crate::doc::Node;
use crate::doc::node_view;
use crate::error::SchemaError;
use crate::error::SchemaErrorV;
use crate::error::Shape;
use crate::schema::all_pairs;
use crate::schema::all_reals;
use crate::schema::all_str_lists;
use crate::schema::all_strs;
use crate::schema::all_triple_lists;
use crate::schema::all_triples;
use crate::schema::extract_spec;
use crate::schema::get_field;
use crate::schema::is_pair;
use crate::schema::is_triple;
use crate::schema::lookup;
use crate::schema::pair_list_field;
use crate::schema::pair_of;
use crate::schema::pairs_of;
use crate::schema::real_list_field;
use crate::schema::reals_of;
use crate::schema::schema_err;
use crate::schema::str_field;
use crate::schema::str_list_field;
use crate::schema::str_list_list_field;
use crate::schema::str_lists_of;
use crate::schema::strs_of;
use crate::schema::triple_list_field;
use crate::schema::triple_list_list_field;
use crate::schema::triple_lists_of;
use crate::schema::triple_of;
use crate::schema::triples_of;

verus! {

/// The value under `key` in the root mapping, if the document is a mapping
/// and holds the key; the first entry wins where a key repeats.
#[verifier::loop_isolation(false)]
fn find_field<'a>(doc: &'a DocNode, key: &str) -> (r: Option<&'a DocNode>)
    ensures
        match r {
            Some(n) => get_field(doc@, key@) == Some(n@),
            None => get_field(doc@, key@) is None,
        },
{
    let entries = match doc {
        DocNode::Mapping(entries) => entries,
        _ => {
            return None;
        },
    };
    let k: String = key.to_owned();
    let ghost entries_v: Seq<(Seq<char>, Node)> = doc@->Mapping_entries;
    proof {
        assert(entries_v.skip(0) =~= entries_v);
    }
    let mut i: usize = 0;
    while i < entries.len()
        invariant
            i <= entries.len(),
            doc@ == (Node::Mapping { entries: entries_v }),
            entries_v.len() == entries@.len(),
            forall|j: int|
                0 <= j < entries@.len() ==> entries_v[j] == (
                    entries@[j].0@,
                    node_view(entries@[j].1),
                ),
            k@ == key@,
            lookup(entries_v, key@) == lookup(entries_v.skip(i as int), key@),
        decreases entries.len() - i,
    {
        if entries[i].0 == k {
            proof {
                assert(entries_v.skip(i as int)[0] == entries_v[i as int]);
            }
            return Some(&entries[i].1);
        }
        proof {
            assert(entries_v.skip(i as int)[0] == entries_v[i as int]);
            assert(entries_v.skip(i as int).skip(1) =~= entries_v.skip(i as int + 1));
        }
        i += 1;
    }
    proof {
        assert(entries_v.skip(i as int).len() == 0);
    }
    None
}

/// The strings of a node that is a flat list of scalar strings.
#[verifier::loop_isolation(false)]
fn strings_of_list(n: &DocNode) -> (r: Option<Vec<String>>)
    ensures
        match r {
            Some(v) => n@ is List && all_strs(n@->List_items) && strs_view(v@) == strs_of(
                n@->List_items,
            ),
            None => !(n@ is List && all_strs(n@->List_items)),
        },
{
    let items = match n {
        DocNode::List(items) => items,
        _ => {
            return None;
        },
    };
    let ghost items_v: Seq<Node> = n@->List_items;
    let mut out: Vec<String> = Vec::new();
    let mut i: usize = 0;
    while i < items.len()
        invariant
            i <= items.len(),
            items_v.len() == items@.len(),
            forall|j: int| 0 <= j < items@.len() ==> items_v[j] == node_view(items@[j]),
            out@.len() == i,
            forall|j: int| 0 <= j < i ==> items_v[j] is Str && out@[j]@ == items_v[j]->Str_s,
        decreases items.len() - i,
    {
        match &items[i] {
            DocNode::Str(s) => out.push(s.clone()),
            _ => {
                proof {
                    assert(!all_strs(items_v)) by {
                        assert(!(items_v[i as int] is Str));
                    }
                }
                return None;
            },
        }
        i += 1;
    }
    proof {
        assert(strs_view(out@) =~= strs_of(items_v));
    }
    Some(out)
}

/// The numeric literals of a node that is a flat list of numeric scalars.
#[verifier::loop_isolation(false)]
fn reals_of_list(n: &DocNode) -> (r: Option<Vec<Real>>)
    ensures
        match r {
            Some(v) => n@ is List && all_reals(n@->List_items) && reals_view(v@) == reals_of(
                n@->List_items,
            ),
            None => !(n@ is List && all_reals(n@->List_items)),
        },
{
    let items = match n {
        DocNode::List(items) => items,
        _ => {
            return None;
        },
    };
    let ghost items_v: Seq<Node> = n@->List_items;
    let mut out: Vec<Real> = Vec::new();
    let mut i: usize = 0;
    while i < items.len()
        invariant
            i <= items.len(),
            items_v.len() == items@.len(),
            forall|j: int| 0 <= j < items@.len() ==> items_v[j] == node_view(items@[j]),
            out@.len() == i,
            forall|j: int| 0 <= j < i ==> items_v[j] is Real && out@[j]@ == items_v[j]->Real_lit,
        decreases items.len() - i,
    {
        match &items[i] {
            DocNode::Real(lit) => out.push(Real { lit: lit.clone() }),
            _ => {
                proof {
                    assert(!all_reals(items_v)) by {
                        assert(!(items_v[i as int] is Real));
                    }
                }
                return None;
            },
        }
        i += 1;
    }
    proof {
        assert(reals_view(out@) =~= reals_of(items_v));
    }
    Some(out)
}

/// The (lower, upper) pair read positionally from a node that is a list of
/// at least two numeric scalars; items past the first two are ignored.
fn pair_of_node(n: &DocNode) -> (r: Option<JointLimit>)
    ensures
        match r {
            Some(p) => is_pair(n@) && p@ == pair_of(n@),
            None => !is_pair(n@),
        },
{
    let items = match n {
        DocNode::List(items) => items,
        _ => {
            return None;
        },
    };
    let ghost items_v: Seq<Node> = n@->List_items;
    proof {
        assert(items_v.len() == items@.len());
        if items@.len() >= 2 {
            assert(items_v[0] == node_view(items@[0]));
            assert(items_v[1] == node_view(items@[1]));
        }
    }
    if items.len() < 2 {
        return None;
    }
    let lower = match &items[0] {
        DocNode::Real(lit) => Real { lit: lit.clone() },
        _ => {
            return None;
        },
    };
    let upper = match &items[1] {
        DocNode::Real(lit) => Real { lit: lit.clone() },
        _ => {
            return None;
        },
    };
    Some(JointLimit { lower, upper })
}

/// The 3-D vector read positionally from a node that is a list of at least
/// three numeric scalars; items past the first three are ignored.
fn triple_of_node(n: &DocNode) -> (r: Option<Vec3>)
    ensures
        match r {
            Some(w) => is_triple(n@) && w@ == triple_of(n@),
            None => !is_triple(n@),
        },
{
    let items = match n {
        DocNode::List(items) => items,
        _ => {
            return None;
        },
    };
    let ghost items_v: Seq<Node> = n@->List_items;
    proof {
        assert(items_v.len() == items@.len());
        if items@.len() >= 3 {
            assert(items_v[0] == node_view(items@[0]));
            assert(items_v[1] == node_view(items@[1]));
            assert(items_v[2] == node_view(items@[2]));
        }
    }
    if items.len() < 3 {
        return None;
    }
    let x = match &items[0] {
        DocNode::Real(lit) => Real { lit: lit.clone() },
        _ => {
            return None;
        },
    };
    let y = match &items[1] {
        DocNode::Real(lit) => Real { lit: lit.clone() },
        _ => {
            return None;
        },
    };
    let z = match &items[2] {
        DocNode::Real(lit) => Real { lit: lit.clone() },
        _ => {
            return None;
        },
    };
    Some(Vec3 { x, y, z })
}

/// The 3-D vectors of a node that is a list of numeric triples.
#[verifier::loop_isolation(false)]
fn triples_of_list(n: &DocNode) -> (r: Option<Vec<Vec3>>)
    ensures
        match r {
            Some(v) => n@ is List && all_triples(n@->List_items) && vec3s_view(v@) == triples_of(
                n@->List_items,
            ),
            None => !(n@ is List && all_triples(n@->List_items)),
        },
{
    let items = match n {
        DocNode::List(items) => items,
        _ => {
            return None;
        },
    };
    let ghost items_v: Seq<Node> = n@->List_items;
    let mut out: Vec<Vec3> = Vec::new();
    let mut i: usize = 0;
    while i < items.len()
        invariant
            i <= items.len(),
            items_v.len() == items@.len(),
            forall|j: int| 0 <= j < items@.len() ==> items_v[j] == node_view(items@[j]),
            out@.len() == i,
            forall|j: int| 0 <= j < i ==> is_triple(items_v[j]) && out@[j]@ == triple_of(
                items_v[j],
            ),
        decreases items.len() - i,
    {
        match triple_of_node(&items[i]) {
            Some(w) => out.push(w),
            None => {
                proof {
                    assert(!all_triples(items_v)) by {
                        assert(!is_triple(items_v[i as int]));
                    }
                }
                return None;
            },
        }
        i += 1;
    }
    proof {
        assert(vec3s_view(out@) =~= triples_of(items_v));
    }
    Some(out)
}

/// Extraction of a scalar string field.
pub fn extract_string(doc: &DocNode, key: &str) -> (r: Result<String, SchemaError>)
    ensures
        match r {
            Ok(s) => str_field(doc@, key@) == Ok::<Seq<char>, SchemaErrorV>(s@),
            Err(e) => e@ == schema_err(key@, Shape::Str) && str_field(doc@, key@) == Err::<
                Seq<char>,
                SchemaErrorV,
            >(e@),
        },
{
    match find_field(doc, key) {
        Some(n) => match n {
            DocNode::Str(s) => Ok(s.clone()),
            _ => Err(SchemaError { field: key.to_owned(), expected: Shape::Str }),
        },
        None => Err(SchemaError { field: key.to_owned(), expected: Shape::Str }),
    }
}

/// Extraction of a flat list of strings.
pub fn extract_string_list(doc: &DocNode, key: &str) -> (r: Result<Vec<String>, SchemaError>)
    ensures
        match r {
            Ok(v) => str_list_field(doc@, key@) == Ok::<Seq<Seq<char>>, SchemaErrorV>(
                strs_view(v@),
            ),
            Err(e) => e@ == schema_err(key@, Shape::StrList) && str_list_field(doc@, key@)
                == Err::<Seq<Seq<char>>, SchemaErrorV>(e@),
        },
{
    match find_field(doc, key) {
        Some(n) => match strings_of_list(n) {
            Some(v) => Ok(v),
            None => Err(SchemaError { field: key.to_owned(), expected: Shape::StrList }),
        },
        None => Err(SchemaError { field: key.to_owned(), expected: Shape::StrList }),
    }
}

/// Extraction of a flat list of numeric literals.
pub fn extract_real_list(doc: &DocNode, key: &str) -> (r: Result<Vec<Real>, SchemaError>)
    ensures
        match r {
            Ok(v) => real_list_field(doc@, key@) == Ok::<Seq<Seq<char>>, SchemaErrorV>(
                reals_view(v@),
            ),
            Err(e) => e@ == schema_err(key@, Shape::RealList) && real_list_field(doc@, key@)
                == Err::<Seq<Seq<char>>, SchemaErrorV>(e@),
        },
{
    match find_field(doc, key) {
        Some(n) => match reals_of_list(n) {
            Some(v) => Ok(v),
            None => Err(SchemaError { field: key.to_owned(), expected: Shape::RealList }),
        },
        None => Err(SchemaError { field: key.to_owned(), expected: Shape::RealList }),
    }
}

/// Extraction of a list of per-chain string lists.
#[verifier::loop_isolation(false)]
pub fn extract_string_list_list(doc: &DocNode, key: &str) -> (r: Result<
    Vec<Vec<String>>,
    SchemaError,
>)
    ensures
        match r {
            Ok(v) => str_list_list_field(doc@, key@) == Ok::<Seq<Seq<Seq<char>>>, SchemaErrorV>(
                str_lists_view(v@),
            ),
            Err(e) => e@ == schema_err(key@, Shape::StrListList) && str_list_list_field(doc@, key@)
                == Err::<Seq<Seq<Seq<char>>>, SchemaErrorV>(e@),
        },
{
    let n = match find_field(doc, key) {
        Some(n) => n,
        None => {
            return Err(SchemaError { field: key.to_owned(), expected: Shape::StrListList });
        },
    };
    let items = match n {
        DocNode::List(items) => items,
        _ => {
            return Err(SchemaError { field: key.to_owned(), expected: Shape::StrListList });
        },
    };
    let ghost items_v: Seq<Node> = n@->List_items;
    let mut out: Vec<Vec<String>> = Vec::new();
    let mut i: usize = 0;
    while i < items.len()
        invariant
            i <= items.len(),
            items_v.len() == items@.len(),
            forall|j: int| 0 <= j < items@.len() ==> items_v[j] == node_view(items@[j]),
            out@.len() == i,
            forall|j: int|
                0 <= j < i ==> items_v[j] is List && all_strs(items_v[j]->List_items) && strs_view(
                    out@[j]@,
                ) == strs_of(items_v[j]->List_items),
        decreases items.len() - i,
    {
        match strings_of_list(&items[i]) {
            Some(v) => out.push(v),
            None => {
                proof {
                    assert(!all_str_lists(items_v)) by {
                        assert(!(items_v[i as int] is List && all_strs(
                            items_v[i as int]->List_items,
                        )));
                    }
                }
                return Err(SchemaError { field: key.to_owned(), expected: Shape::StrListList });
            },
        }
        i += 1;
    }
    proof {
        assert(all_str_lists(items_v));
        assert(str_lists_view(out@) =~= str_lists_of(items_v));
    }
    Ok(out)
}

/// Extraction of a list of numeric pairs.
#[verifier::loop_isolation(false)]
pub fn extract_pair_list(doc: &DocNode, key: &str) -> (r: Result<Vec<JointLimit>, SchemaError>)
    ensures
        match r {
            Ok(v) => pair_list_field(doc@, key@) == Ok::<Seq<crate::config::LimitV>, SchemaErrorV>(
                limits_view(v@),
            ),
            Err(e) => e@ == schema_err(key@, Shape::PairList) && pair_list_field(doc@, key@)
                == Err::<Seq<crate::config::LimitV>, SchemaErrorV>(e@),
        },
{
    let n = match find_field(doc, key) {
        Some(n) => n,
        None => {
            return Err(SchemaError { field: key.to_owned(), expected: Shape::PairList });
        },
    };
    let items = match n {
        DocNode::List(items) => items,
        _ => {
            return Err(SchemaError { field: key.to_owned(), expected: Shape::PairList });
        },
    };
    let ghost items_v: Seq<Node> = n@->List_items;
    let mut out: Vec<JointLimit> = Vec::new();
    let mut i: usize = 0;
    while i < items.len()
        invariant
            i <= items.len(),
            items_v.len() == items@.len(),
            forall|j: int| 0 <= j < items@.len() ==> items_v[j] == node_view(items@[j]),
            out@.len() == i,
            forall|j: int| 0 <= j < i ==> is_pair(items_v[j]) && out@[j]@ == pair_of(items_v[j]),
        decreases items.len() - i,
    {
        match pair_of_node(&items[i]) {
            Some(p) => out.push(p),
            None => {
                proof {
                    assert(!all_pairs(items_v)) by {
                        assert(!is_pair(items_v[i as int]));
                    }
                }
                return Err(SchemaError { field: key.to_owned(), expected: Shape::PairList });
            },
        }
        i += 1;
    }
    proof {
        assert(limits_view(out@) =~= pairs_of(items_v));
    }
    Ok(out)
}

/// Extraction of a list of numeric triples.
pub fn extract_triple_list(doc: &DocNode, key: &str) -> (r: Result<Vec<Vec3>, SchemaError>)
    ensures
        match r {
            Ok(v) => triple_list_field(doc@, key@) == Ok::<Seq<crate::config::Vec3V>, SchemaErrorV>(
                vec3s_view(v@),
            ),
            Err(e) => e@ == schema_err(key@, Shape::TripleList) && triple_list_field(doc@, key@)
                == Err::<Seq<crate::config::Vec3V>, SchemaErrorV>(e@),
        },
{
    let n = match find_field(doc, key) {
        Some(n) => n,
        None => {
            return Err(SchemaError { field: key.to_owned(), expected: Shape::TripleList });
        },
    };
    match triples_of_list(n) {
        Some(v) => Ok(v),
        None => Err(SchemaError { field: key.to_owned(), expected: Shape::TripleList }),
    }
}

/// Extraction of a list of per-chain lists of numeric triples.
#[verifier::loop_isolation(false)]
pub fn extract_triple_list_list(doc: &DocNode, key: &str) -> (r: Result<
    Vec<Vec<Vec3>>,
    SchemaError,
>)
    ensures
        match r {
            Ok(v) => triple_list_list_field(doc@, key@) == Ok::<
                Seq<Seq<crate::config::Vec3V>>,
                SchemaErrorV,
            >(vec3_lists_view(v@)),
            Err(e) => e@ == schema_err(key@, Shape::TripleListList) && triple_list_list_field(
                doc@,
                key@,
            ) == Err::<Seq<Seq<crate::config::Vec3V>>, SchemaErrorV>(e@),
        },
{
    let n = match find_field(doc, key) {
        Some(n) => n,
        None => {
            return Err(SchemaError { field: key.to_owned(), expected: Shape::TripleListList });
        },
    };
    let items = match n {
        DocNode::List(items) => items,
        _ => {
            return Err(SchemaError { field: key.to_owned(), expected: Shape::TripleListList });
        },
    };
    let ghost items_v: Seq<Node> = n@->List_items;
    let mut out: Vec<Vec<Vec3>> = Vec::new();
    let mut i: usize = 0;
    while i < items.len()
        invariant
            i <= items.len(),
            items_v.len() == items@.len(),
            forall|j: int| 0 <= j < items@.len() ==> items_v[j] == node_view(items@[j]),
            out@.len() == i,
            forall|j: int|
                0 <= j < i ==> items_v[j] is List && all_triples(items_v[j]->List_items)
                    && vec3s_view(out@[j]@) == triples_of(items_v[j]->List_items),
        decreases items.len() - i,
    {
        match triples_of_list(&items[i]) {
            Some(v) => out.push(v),
            None => {
                proof {
                    assert(!all_triple_lists(items_v)) by {
                        assert(!(items_v[i as int] is List && all_triples(
                            items_v[i as int]->List_items,
                        )));
                    }
                }
                return Err(SchemaError { field: key.to_owned(), expected: Shape::TripleListList });
            },
        }
        i += 1;
    }
    proof {
        assert(all_triple_lists(items_v));
        assert(vec3_lists_view(out@) =~= triple_lists_of(items_v));
    }
    Ok(out)
}

/// Materializes a `RobotKinematicsConfig` from the root document tree: every
/// field is looked up by its key and checked against its required shape, in
/// the order the fields are read, stopping at the first failure.
pub fn extract_config(doc: &DocNode) -> (r: Result<RobotKinematicsConfig, SchemaError>)
    ensures
        match r {
            Ok(c) => extract_spec(doc@) == Ok::<ConfigV, SchemaErrorV>(c@),
            Err(e) => extract_spec(doc@) == Err::<ConfigV, SchemaErrorV>(e@),
        },
{
    let urdf_file_name = match extract_string(doc, "urdf_file_name") {
        Ok(v) => v,
        Err(e) => {
            return Err(e);
        },
    };
    let fixed_frame = match extract_string(doc, "fixed_frame") {
        Ok(v) => v,
        Err(e) => {
            return Err(e);
        },
    };
    let collision_file_name = match extract_string(doc, "collision_file_name") {
        Ok(v) => v,
        Err(e) => {
            return Err(e);
        },
    };
    let collision_nn_file = match extract_string(doc, "collision_nn_file") {
        Ok(v) => v,
        Err(e) => {
            return Err(e);
        },
    };
    let path_to_src = match extract_string(doc, "path_to_src") {
        Ok(v) => v,
        Err(e) => {
            return Err(e);
        },
    };
    let joint_state_define_func_file = match extract_string(doc, "joint_state_define_func_file") {
        Ok(v) => v,
        Err(e) => {
            return Err(e);
        },
    };
    let joint_names = match extract_string_list_list(doc, "joint_names") {
        Ok(v) => v,
        Err(e) => {
            return Err(e);
        },
    };
    let joint_ordering = match extract_string_list(doc, "joint_ordering") {
        Ok(v) => v,
        Err(e) => {
            return Err(e);
        },
    };
    let ee_fixed_joints = match extract_string_list(doc, "ee_fixed_joints") {
        Ok(v) => v,
        Err(e) => {
            return Err(e);
        },
    };
    let starting_config = match extract_real_list(doc, "starting_config") {
        Ok(v) => v,
        Err(e) => {
            return Err(e);
        },
    };
    let axis_types = match extract_string_list_list(doc, "axis_types") {
        Ok(v) => v,
        Err(e) => {
            return Err(e);
        },
    };
    let velocity_limits = match extract_real_list(doc, "velocity_limits") {
        Ok(v) => v,
        Err(e) => {
            return Err(e);
        },
    };
    let joint_limits = match extract_pair_list(doc, "joint_limits") {
        Ok(v) => v,
        Err(e) => {
            return Err(e);
        },
    };
    let displacements = match extract_triple_list_list(doc, "displacements") {
        Ok(v) => v,
        Err(e) => {
            return Err(e);
        },
    };
    let disp_offsets = match extract_triple_list(doc, "disp_offsets") {
        Ok(v) => v,
        Err(e) => {
            return Err(e);
        },
    };
    let joint_types = match extract_string_list_list(doc, "joint_types") {
        Ok(v) => v,
        Err(e) => {
            return Err(e);
        },
    };
    Ok(
        RobotKinematicsConfig {
            urdf_file_name,
            fixed_frame,
            joint_names,
            joint_ordering,
            ee_fixed_joints,
            starting_config,
            collision_file_name,
            collision_nn_file,
            path_to_src,
            axis_types,
            velocity_limits,
            joint_limits,
            displacements,
            disp_offsets,
            joint_types,
            joint_state_define_func_file,
        },
    )
}

} // verus!
