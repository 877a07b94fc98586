//! The library's laws: general statements over the schema's mathematical
//! model, proved once for every input rather than sampled by tests.

use vstd::prelude::*;

use crate::config::ConfigV;
use crate::config::LimitV;
use crate::config::Vec3V;
use crate::doc::Node;
use crate::emit::doc_entries;
use crate::emit::doc_entry;
use crate::emit::doc_of;
use crate::emit::limit_node;
use crate::emit::limits_node;
use crate::emit::reals_node;
use crate::emit::str_lists_node;
use crate::emit::strs_node;
use crate::emit::vec3_lists_node;
use crate::emit::vec3_node;
use crate::emit::vec3s_node;
use crate::error::SchemaErrorV;
use crate::error::Shape;
use crate::schema::all_pairs;
use crate::schema::all_reals;
use crate::schema::all_str_lists;
use crate::schema::all_strs;
use crate::schema::all_triple_lists;
use crate::schema::all_triples;
use crate::schema::extract_spec;
use crate::schema::field_ok;
use crate::schema::get_field;
use crate::schema::is_pair;
use crate::schema::is_triple;
use crate::schema::key_shape;
use crate::schema::lookup;
use crate::schema::pair_list_field;
use crate::schema::pair_of;
use crate::schema::pairs_of;
use crate::schema::real_list_field;
use crate::schema::reals_of;
use crate::schema::required_key;
use crate::schema::schema_err;
use crate::schema::str_field;
use crate::schema::str_list_field;
use crate::schema::str_list_list_field;
use crate::schema::str_lists_of;
use crate::schema::strs_of;
use crate::schema::triple_list_field;
use crate::schema::triple_list_list_field;
use crate::schema::triple_lists_of;
use crate::schema::triple_of;
use crate::schema::triples_of;

verus! {

/// The sixteen schema keys are pairwise distinct.
proof fn lemma_keys_distinct()
    ensures
        "urdf_file_name"@ != "fixed_frame"@,
        "urdf_file_name"@ != "collision_file_name"@,
        "urdf_file_name"@ != "collision_nn_file"@,
        "urdf_file_name"@ != "path_to_src"@,
        "urdf_file_name"@ != "joint_state_define_func_file"@,
        "urdf_file_name"@ != "joint_names"@,
        "urdf_file_name"@ != "joint_ordering"@,
        "urdf_file_name"@ != "ee_fixed_joints"@,
        "urdf_file_name"@ != "starting_config"@,
        "urdf_file_name"@ != "axis_types"@,
        "urdf_file_name"@ != "velocity_limits"@,
        "urdf_file_name"@ != "joint_limits"@,
        "urdf_file_name"@ != "displacements"@,
        "urdf_file_name"@ != "disp_offsets"@,
        "urdf_file_name"@ != "joint_types"@,
        "fixed_frame"@ != "collision_file_name"@,
        "fixed_frame"@ != "collision_nn_file"@,
        "fixed_frame"@ != "path_to_src"@,
        "fixed_frame"@ != "joint_state_define_func_file"@,
        "fixed_frame"@ != "joint_names"@,
        "fixed_frame"@ != "joint_ordering"@,
        "fixed_frame"@ != "ee_fixed_joints"@,
        "fixed_frame"@ != "starting_config"@,
        "fixed_frame"@ != "axis_types"@,
        "fixed_frame"@ != "velocity_limits"@,
        "fixed_frame"@ != "joint_limits"@,
        "fixed_frame"@ != "displacements"@,
        "fixed_frame"@ != "disp_offsets"@,
        "fixed_frame"@ != "joint_types"@,
        "collision_file_name"@ != "collision_nn_file"@,
        "collision_file_name"@ != "path_to_src"@,
        "collision_file_name"@ != "joint_state_define_func_file"@,
        "collision_file_name"@ != "joint_names"@,
        "collision_file_name"@ != "joint_ordering"@,
        "collision_file_name"@ != "ee_fixed_joints"@,
        "collision_file_name"@ != "starting_config"@,
        "collision_file_name"@ != "axis_types"@,
        "collision_file_name"@ != "velocity_limits"@,
        "collision_file_name"@ != "joint_limits"@,
        "collision_file_name"@ != "displacements"@,
        "collision_file_name"@ != "disp_offsets"@,
        "collision_file_name"@ != "joint_types"@,
        "collision_nn_file"@ != "path_to_src"@,
        "collision_nn_file"@ != "joint_state_define_func_file"@,
        "collision_nn_file"@ != "joint_names"@,
        "collision_nn_file"@ != "joint_ordering"@,
        "collision_nn_file"@ != "ee_fixed_joints"@,
        "collision_nn_file"@ != "starting_config"@,
        "collision_nn_file"@ != "axis_types"@,
        "collision_nn_file"@ != "velocity_limits"@,
        "collision_nn_file"@ != "joint_limits"@,
        "collision_nn_file"@ != "displacements"@,
        "collision_nn_file"@ != "disp_offsets"@,
        "collision_nn_file"@ != "joint_types"@,
        "path_to_src"@ != "joint_state_define_func_file"@,
        "path_to_src"@ != "joint_names"@,
        "path_to_src"@ != "joint_ordering"@,
        "path_to_src"@ != "ee_fixed_joints"@,
        "path_to_src"@ != "starting_config"@,
        "path_to_src"@ != "axis_types"@,
        "path_to_src"@ != "velocity_limits"@,
        "path_to_src"@ != "joint_limits"@,
        "path_to_src"@ != "displacements"@,
        "path_to_src"@ != "disp_offsets"@,
        "path_to_src"@ != "joint_types"@,
        "joint_state_define_func_file"@ != "joint_names"@,
        "joint_state_define_func_file"@ != "joint_ordering"@,
        "joint_state_define_func_file"@ != "ee_fixed_joints"@,
        "joint_state_define_func_file"@ != "starting_config"@,
        "joint_state_define_func_file"@ != "axis_types"@,
        "joint_state_define_func_file"@ != "velocity_limits"@,
        "joint_state_define_func_file"@ != "joint_limits"@,
        "joint_state_define_func_file"@ != "displacements"@,
        "joint_state_define_func_file"@ != "disp_offsets"@,
        "joint_state_define_func_file"@ != "joint_types"@,
        "joint_names"@ != "joint_ordering"@,
        "joint_names"@ != "ee_fixed_joints"@,
        "joint_names"@ != "starting_config"@,
        "joint_names"@ != "axis_types"@,
        "joint_names"@ != "velocity_limits"@,
        "joint_names"@ != "joint_limits"@,
        "joint_names"@ != "displacements"@,
        "joint_names"@ != "disp_offsets"@,
        "joint_names"@ != "joint_types"@,
        "joint_ordering"@ != "ee_fixed_joints"@,
        "joint_ordering"@ != "starting_config"@,
        "joint_ordering"@ != "axis_types"@,
        "joint_ordering"@ != "velocity_limits"@,
        "joint_ordering"@ != "joint_limits"@,
        "joint_ordering"@ != "displacements"@,
        "joint_ordering"@ != "disp_offsets"@,
        "joint_ordering"@ != "joint_types"@,
        "ee_fixed_joints"@ != "starting_config"@,
        "ee_fixed_joints"@ != "axis_types"@,
        "ee_fixed_joints"@ != "velocity_limits"@,
        "ee_fixed_joints"@ != "joint_limits"@,
        "ee_fixed_joints"@ != "displacements"@,
        "ee_fixed_joints"@ != "disp_offsets"@,
        "ee_fixed_joints"@ != "joint_types"@,
        "starting_config"@ != "axis_types"@,
        "starting_config"@ != "velocity_limits"@,
        "starting_config"@ != "joint_limits"@,
        "starting_config"@ != "displacements"@,
        "starting_config"@ != "disp_offsets"@,
        "starting_config"@ != "joint_types"@,
        "axis_types"@ != "velocity_limits"@,
        "axis_types"@ != "joint_limits"@,
        "axis_types"@ != "displacements"@,
        "axis_types"@ != "disp_offsets"@,
        "axis_types"@ != "joint_types"@,
        "velocity_limits"@ != "joint_limits"@,
        "velocity_limits"@ != "displacements"@,
        "velocity_limits"@ != "disp_offsets"@,
        "velocity_limits"@ != "joint_types"@,
        "joint_limits"@ != "displacements"@,
        "joint_limits"@ != "disp_offsets"@,
        "joint_limits"@ != "joint_types"@,
        "displacements"@ != "disp_offsets"@,
        "displacements"@ != "joint_types"@,
        "disp_offsets"@ != "joint_types"@,
{
    reveal_strlit("urdf_file_name");
    reveal_strlit("fixed_frame");
    reveal_strlit("collision_file_name");
    reveal_strlit("collision_nn_file");
    reveal_strlit("path_to_src");
    reveal_strlit("joint_state_define_func_file");
    reveal_strlit("joint_names");
    reveal_strlit("joint_ordering");
    reveal_strlit("ee_fixed_joints");
    reveal_strlit("starting_config");
    reveal_strlit("axis_types");
    reveal_strlit("velocity_limits");
    reveal_strlit("joint_limits");
    reveal_strlit("displacements");
    reveal_strlit("disp_offsets");
    reveal_strlit("joint_types");
    assert("urdf_file_name"@.len() == 14);
    assert("fixed_frame"@.len() == 11);
    assert("collision_file_name"@.len() == 19);
    assert("collision_nn_file"@.len() == 17);
    assert("path_to_src"@.len() == 11);
    assert("joint_state_define_func_file"@.len() == 28);
    assert("joint_names"@.len() == 11);
    assert("joint_ordering"@.len() == 14);
    assert("ee_fixed_joints"@.len() == 15);
    assert("starting_config"@.len() == 15);
    assert("axis_types"@.len() == 10);
    assert("velocity_limits"@.len() == 15);
    assert("joint_limits"@.len() == 12);
    assert("displacements"@.len() == 13);
    assert("disp_offsets"@.len() == 12);
    assert("joint_types"@.len() == 11);
    assert("urdf_file_name"@[0] == 'u');
    assert("fixed_frame"@[0] == 'f');
    assert("collision_file_name"@[0] == 'c');
    assert("collision_nn_file"@[0] == 'c');
    assert("path_to_src"@[0] == 'p');
    assert("joint_state_define_func_file"@[0] == 'j');
    assert("joint_names"@[0] == 'j');
    assert("joint_ordering"@[0] == 'j');
    assert("ee_fixed_joints"@[0] == 'e');
    assert("starting_config"@[0] == 's');
    assert("axis_types"@[0] == 'a');
    assert("velocity_limits"@[0] == 'v');
    assert("joint_limits"@[0] == 'j');
    assert("displacements"@[0] == 'd');
    assert("disp_offsets"@[0] == 'd');
    assert("joint_types"@[0] == 'j');
    assert("joint_names"@[6] == 'n');
    assert("joint_types"@[6] == 't');
}

/// Looking a key up finds the entry at position `i` when that entry bears
/// the key and no earlier entry does.
proof fn lemma_lookup_at(entries: Seq<(Seq<char>, Node)>, key: Seq<char>, i: int)
    requires
        0 <= i < entries.len(),
        entries[i].0 == key,
        forall|j: int| 0 <= j < i ==> entries[j].0 != key,
    ensures
        lookup(entries, key) == Some(entries[i].1),
    decreases i,
{
    if i == 0 {
        assert(lookup(entries, key) == Some(entries[0].1));
    } else {
        assert(entries[0].0 != key);
        assert(forall|j: int| 0 <= j < i - 1 ==> entries.skip(1)[j] == entries[j + 1]);
        assert(entries.skip(1)[i - 1] == entries[i]);
        lemma_lookup_at(entries.skip(1), key, i - 1);
    }
}

/// A serialized string list is again a list of strings, and reads back as
/// the same strings.
proof fn lemma_strs_node_inverts(v: Seq<Seq<char>>)
    ensures
        strs_node(v) is List,
        all_strs(strs_node(v)->List_items),
        strs_of(strs_node(v)->List_items) == v,
{
    assert(strs_of(strs_node(v)->List_items) =~= v);
}

/// A serialized numeric list is again a list of numeric scalars, and reads
/// back as the same literals.
proof fn lemma_reals_node_inverts(v: Seq<Seq<char>>)
    ensures
        reals_node(v) is List,
        all_reals(reals_node(v)->List_items),
        reals_of(reals_node(v)->List_items) == v,
{
    assert(reals_of(reals_node(v)->List_items) =~= v);
}

/// A serialized list of string lists reads back as the same nested lists.
proof fn lemma_str_lists_node_inverts(v: Seq<Seq<Seq<char>>>)
    ensures
        str_lists_node(v) is List,
        all_str_lists(str_lists_node(v)->List_items),
        str_lists_of(str_lists_node(v)->List_items) == v,
{
    let items = str_lists_node(v)->List_items;
    assert forall|k: int| 0 <= k < items.len() implies items[k] is List && all_strs(
        items[k]->List_items,
    ) && strs_of(items[k]->List_items) == v[k] by {
        assert(items[k] == strs_node(v[k]));
        lemma_strs_node_inverts(v[k]);
    }
    assert(str_lists_of(items) =~= v);
}

/// A serialized limit list reads back as the same pairs.
proof fn lemma_limits_node_inverts(v: Seq<LimitV>)
    ensures
        limits_node(v) is List,
        all_pairs(limits_node(v)->List_items),
        pairs_of(limits_node(v)->List_items) == v,
{
    let items = limits_node(v)->List_items;
    assert forall|k: int| 0 <= k < items.len() implies is_pair(items[k]) && pair_of(items[k])
        == v[k] by {
        assert(items[k] == limit_node(v[k]));
        let li = limit_node(v[k])->List_items;
        assert(li[0] == (Node::Real { lit: v[k].lower }));
        assert(li[1] == (Node::Real { lit: v[k].upper }));
        assert(pair_of(items[k]) =~= v[k]);
    }
    assert(pairs_of(items) =~= v);
}

/// A serialized vector reads back as the same vector.
proof fn lemma_vec3_node_inverts(w: Vec3V)
    ensures
        is_triple(vec3_node(w)),
        triple_of(vec3_node(w)) == w,
{
    let li = vec3_node(w)->List_items;
    assert(li[0] == (Node::Real { lit: w.x }));
    assert(li[1] == (Node::Real { lit: w.y }));
    assert(li[2] == (Node::Real { lit: w.z }));
    assert(triple_of(vec3_node(w)) =~= w);
}

/// A serialized vector list reads back as the same vectors.
proof fn lemma_vec3s_node_inverts(v: Seq<Vec3V>)
    ensures
        vec3s_node(v) is List,
        all_triples(vec3s_node(v)->List_items),
        triples_of(vec3s_node(v)->List_items) == v,
{
    let items = vec3s_node(v)->List_items;
    assert forall|k: int| 0 <= k < items.len() implies is_triple(items[k]) && triple_of(items[k])
        == v[k] by {
        assert(items[k] == vec3_node(v[k]));
        lemma_vec3_node_inverts(v[k]);
    }
    assert(triples_of(items) =~= v);
}

/// A serialized list of vector lists reads back as the same nested lists.
proof fn lemma_vec3_lists_node_inverts(v: Seq<Seq<Vec3V>>)
    ensures
        vec3_lists_node(v) is List,
        all_triple_lists(vec3_lists_node(v)->List_items),
        triple_lists_of(vec3_lists_node(v)->List_items) == v,
{
    let items = vec3_lists_node(v)->List_items;
    assert forall|k: int| 0 <= k < items.len() implies items[k] is List && all_triples(
        items[k]->List_items,
    ) && triples_of(items[k]->List_items) == v[k] by {
        assert(items[k] == vec3s_node(v[k]));
        lemma_vec3s_node_inverts(v[k]);
    }
    assert(triple_lists_of(items) =~= v);
}

/// Round trip: a record serialized back to the documented schema and read
/// again yields the identical record, field for field, for every record.
#[verifier::rlimit(100)]
pub proof fn lemma_round_trip(c: ConfigV)
    ensures
        extract_spec(doc_of(c)) == Ok::<ConfigV, SchemaErrorV>(c),
{

    lemma_keys_distinct();
    let d = doc_of(c);
    let es = doc_entries(c);
    assert(es.len() == 16);
    assert(es[0] == doc_entry(c, 0));
    assert(es[1] == doc_entry(c, 1));
    assert(es[2] == doc_entry(c, 2));
    assert(es[3] == doc_entry(c, 3));
    assert(es[4] == doc_entry(c, 4));
    assert(es[5] == doc_entry(c, 5));
    assert(es[6] == doc_entry(c, 6));
    assert(es[7] == doc_entry(c, 7));
    assert(es[8] == doc_entry(c, 8));
    assert(es[9] == doc_entry(c, 9));
    assert(es[10] == doc_entry(c, 10));
    assert(es[11] == doc_entry(c, 11));
    assert(es[12] == doc_entry(c, 12));
    assert(es[13] == doc_entry(c, 13));
    assert(es[14] == doc_entry(c, 14));
    assert(es[15] == doc_entry(c, 15));
    lemma_lookup_at(es, "urdf_file_name"@, 0);
    assert(get_field(d, "urdf_file_name"@) == Some(es[0].1));
    lemma_lookup_at(es, "fixed_frame"@, 1);
    assert(get_field(d, "fixed_frame"@) == Some(es[1].1));
    lemma_lookup_at(es, "collision_file_name"@, 2);
    assert(get_field(d, "collision_file_name"@) == Some(es[2].1));
    lemma_lookup_at(es, "collision_nn_file"@, 3);
    assert(get_field(d, "collision_nn_file"@) == Some(es[3].1));
    lemma_lookup_at(es, "path_to_src"@, 4);
    assert(get_field(d, "path_to_src"@) == Some(es[4].1));
    lemma_lookup_at(es, "joint_state_define_func_file"@, 5);
    assert(get_field(d, "joint_state_define_func_file"@) == Some(es[5].1));
    lemma_lookup_at(es, "joint_names"@, 6);
    assert(get_field(d, "joint_names"@) == Some(es[6].1));
    lemma_lookup_at(es, "joint_ordering"@, 7);
    assert(get_field(d, "joint_ordering"@) == Some(es[7].1));
    lemma_lookup_at(es, "ee_fixed_joints"@, 8);
    assert(get_field(d, "ee_fixed_joints"@) == Some(es[8].1));
    lemma_lookup_at(es, "starting_config"@, 9);
    assert(get_field(d, "starting_config"@) == Some(es[9].1));
    lemma_lookup_at(es, "axis_types"@, 10);
    assert(get_field(d, "axis_types"@) == Some(es[10].1));
    lemma_lookup_at(es, "velocity_limits"@, 11);
    assert(get_field(d, "velocity_limits"@) == Some(es[11].1));
    lemma_lookup_at(es, "joint_limits"@, 12);
    assert(get_field(d, "joint_limits"@) == Some(es[12].1));
    lemma_lookup_at(es, "displacements"@, 13);
    assert(get_field(d, "displacements"@) == Some(es[13].1));
    lemma_lookup_at(es, "disp_offsets"@, 14);
    assert(get_field(d, "disp_offsets"@) == Some(es[14].1));
    lemma_lookup_at(es, "joint_types"@, 15);
    assert(get_field(d, "joint_types"@) == Some(es[15].1));
    lemma_str_lists_node_inverts(c.joint_names);
    lemma_str_lists_node_inverts(c.axis_types);
    lemma_str_lists_node_inverts(c.joint_types);
    lemma_strs_node_inverts(c.joint_ordering);
    lemma_strs_node_inverts(c.ee_fixed_joints);
    lemma_reals_node_inverts(c.starting_config);
    lemma_reals_node_inverts(c.velocity_limits);
    lemma_limits_node_inverts(c.joint_limits);
    lemma_vec3_lists_node_inverts(c.displacements);
    lemma_vec3s_node_inverts(c.disp_offsets);
    let r = extract_spec(d);
    assert(r is Ok);
    assert(r->Ok_0 =~= c);
}

/// Omitting any required key makes the whole extraction fail: no record is
/// produced from a document that lacks one of the sixteen keys.
#[verifier::rlimit(100)]
pub proof fn lemma_omitted_key_fails(doc: Node, key: Seq<char>)
    requires
        required_key(key),
        get_field(doc, key) is None,
    ensures
        extract_spec(doc) is Err,
{

    lemma_keys_distinct();
    if key == "urdf_file_name"@ {
        assert(str_field(doc, key) is Err);
        assert(extract_spec(doc) is Err);
    }
    else if key == "fixed_frame"@ {
        assert(str_field(doc, key) is Err);
        assert(extract_spec(doc) is Err);
    }
    else if key == "collision_file_name"@ {
        assert(str_field(doc, key) is Err);
        assert(extract_spec(doc) is Err);
    }
    else if key == "collision_nn_file"@ {
        assert(str_field(doc, key) is Err);
        assert(extract_spec(doc) is Err);
    }
    else if key == "path_to_src"@ {
        assert(str_field(doc, key) is Err);
        assert(extract_spec(doc) is Err);
    }
    else if key == "joint_state_define_func_file"@ {
        assert(str_field(doc, key) is Err);
        assert(extract_spec(doc) is Err);
    }
    else if key == "joint_names"@ {
        assert(str_list_list_field(doc, key) is Err);
        assert(extract_spec(doc) is Err);
    }
    else if key == "joint_ordering"@ {
        assert(str_list_field(doc, key) is Err);
        assert(extract_spec(doc) is Err);
    }
    else if key == "ee_fixed_joints"@ {
        assert(str_list_field(doc, key) is Err);
        assert(extract_spec(doc) is Err);
    }
    else if key == "starting_config"@ {
        assert(real_list_field(doc, key) is Err);
        assert(extract_spec(doc) is Err);
    }
    else if key == "axis_types"@ {
        assert(str_list_list_field(doc, key) is Err);
        assert(extract_spec(doc) is Err);
    }
    else if key == "velocity_limits"@ {
        assert(real_list_field(doc, key) is Err);
        assert(extract_spec(doc) is Err);
    }
    else if key == "joint_limits"@ {
        assert(pair_list_field(doc, key) is Err);
        assert(extract_spec(doc) is Err);
    }
    else if key == "displacements"@ {
        assert(triple_list_list_field(doc, key) is Err);
        assert(extract_spec(doc) is Err);
    }
    else if key == "disp_offsets"@ {
        assert(triple_list_field(doc, key) is Err);
        assert(extract_spec(doc) is Err);
    }
    else if key == "joint_types"@ {
        assert(str_list_list_field(doc, key) is Err);
        assert(extract_spec(doc) is Err);
    }
}

/// Omitting exactly one required key from an otherwise well-formed document
/// fails with a schema error naming that key and its required shape.
#[verifier::rlimit(100)]
pub proof fn lemma_omitted_key_named(doc: Node, key: Seq<char>)
    requires
        required_key(key),
        get_field(doc, key) is None,
        forall|k2: Seq<char>| required_key(k2) && k2 != key ==> #[trigger] field_ok(doc, k2),
    ensures
        extract_spec(doc) == Err::<ConfigV, SchemaErrorV>(schema_err(key, key_shape(key))),
{

    lemma_keys_distinct();
    if key == "urdf_file_name"@ {
        assert(key_shape(key) == Shape::Str);
        assert(str_field(doc, key) == Err::<Seq<char>, SchemaErrorV>(schema_err(key, Shape::Str)));
        assert(extract_spec(doc) == Err::<ConfigV, SchemaErrorV>(schema_err(key, key_shape(key))));
    }
    else if key == "fixed_frame"@ {
        assert(key_shape(key) == Shape::Str);
        assert(field_ok(doc, "urdf_file_name"@));
        assert(str_field(doc, "urdf_file_name"@) is Ok);
        assert(str_field(doc, key) == Err::<Seq<char>, SchemaErrorV>(schema_err(key, Shape::Str)));
        assert(extract_spec(doc) == Err::<ConfigV, SchemaErrorV>(schema_err(key, key_shape(key))));
    }
    else if key == "collision_file_name"@ {
        assert(key_shape(key) == Shape::Str);
        assert(field_ok(doc, "urdf_file_name"@));
        assert(str_field(doc, "urdf_file_name"@) is Ok);
        assert(field_ok(doc, "fixed_frame"@));
        assert(str_field(doc, "fixed_frame"@) is Ok);
        assert(str_field(doc, key) == Err::<Seq<char>, SchemaErrorV>(schema_err(key, Shape::Str)));
        assert(extract_spec(doc) == Err::<ConfigV, SchemaErrorV>(schema_err(key, key_shape(key))));
    }
    else if key == "collision_nn_file"@ {
        assert(key_shape(key) == Shape::Str);
        assert(field_ok(doc, "urdf_file_name"@));
        assert(str_field(doc, "urdf_file_name"@) is Ok);
        assert(field_ok(doc, "fixed_frame"@));
        assert(str_field(doc, "fixed_frame"@) is Ok);
        assert(field_ok(doc, "collision_file_name"@));
        assert(str_field(doc, "collision_file_name"@) is Ok);
        assert(str_field(doc, key) == Err::<Seq<char>, SchemaErrorV>(schema_err(key, Shape::Str)));
        assert(extract_spec(doc) == Err::<ConfigV, SchemaErrorV>(schema_err(key, key_shape(key))));
    }
    else if key == "path_to_src"@ {
        assert(key_shape(key) == Shape::Str);
        assert(field_ok(doc, "urdf_file_name"@));
        assert(str_field(doc, "urdf_file_name"@) is Ok);
        assert(field_ok(doc, "fixed_frame"@));
        assert(str_field(doc, "fixed_frame"@) is Ok);
        assert(field_ok(doc, "collision_file_name"@));
        assert(str_field(doc, "collision_file_name"@) is Ok);
        assert(field_ok(doc, "collision_nn_file"@));
        assert(str_field(doc, "collision_nn_file"@) is Ok);
        assert(str_field(doc, key) == Err::<Seq<char>, SchemaErrorV>(schema_err(key, Shape::Str)));
        assert(extract_spec(doc) == Err::<ConfigV, SchemaErrorV>(schema_err(key, key_shape(key))));
    }
    else if key == "joint_state_define_func_file"@ {
        assert(key_shape(key) == Shape::Str);
        assert(field_ok(doc, "urdf_file_name"@));
        assert(str_field(doc, "urdf_file_name"@) is Ok);
        assert(field_ok(doc, "fixed_frame"@));
        assert(str_field(doc, "fixed_frame"@) is Ok);
        assert(field_ok(doc, "collision_file_name"@));
        assert(str_field(doc, "collision_file_name"@) is Ok);
        assert(field_ok(doc, "collision_nn_file"@));
        assert(str_field(doc, "collision_nn_file"@) is Ok);
        assert(field_ok(doc, "path_to_src"@));
        assert(str_field(doc, "path_to_src"@) is Ok);
        assert(str_field(doc, key) == Err::<Seq<char>, SchemaErrorV>(schema_err(key, Shape::Str)));
        assert(extract_spec(doc) == Err::<ConfigV, SchemaErrorV>(schema_err(key, key_shape(key))));
    }
    else if key == "joint_names"@ {
        assert(key_shape(key) == Shape::StrListList);
        assert(field_ok(doc, "urdf_file_name"@));
        assert(str_field(doc, "urdf_file_name"@) is Ok);
        assert(field_ok(doc, "fixed_frame"@));
        assert(str_field(doc, "fixed_frame"@) is Ok);
        assert(field_ok(doc, "collision_file_name"@));
        assert(str_field(doc, "collision_file_name"@) is Ok);
        assert(field_ok(doc, "collision_nn_file"@));
        assert(str_field(doc, "collision_nn_file"@) is Ok);
        assert(field_ok(doc, "path_to_src"@));
        assert(str_field(doc, "path_to_src"@) is Ok);
        assert(field_ok(doc, "joint_state_define_func_file"@));
        assert(str_field(doc, "joint_state_define_func_file"@) is Ok);
        assert(str_list_list_field(doc, key) == Err::<Seq<Seq<Seq<char>>>, SchemaErrorV>(schema_err(key, Shape::StrListList)));
        assert(extract_spec(doc) == Err::<ConfigV, SchemaErrorV>(schema_err(key, key_shape(key))));
    }
    else if key == "joint_ordering"@ {
        assert(key_shape(key) == Shape::StrList);
        assert(field_ok(doc, "urdf_file_name"@));
        assert(str_field(doc, "urdf_file_name"@) is Ok);
        assert(field_ok(doc, "fixed_frame"@));
        assert(str_field(doc, "fixed_frame"@) is Ok);
        assert(field_ok(doc, "collision_file_name"@));
        assert(str_field(doc, "collision_file_name"@) is Ok);
        assert(field_ok(doc, "collision_nn_file"@));
        assert(str_field(doc, "collision_nn_file"@) is Ok);
        assert(field_ok(doc, "path_to_src"@));
        assert(str_field(doc, "path_to_src"@) is Ok);
        assert(field_ok(doc, "joint_state_define_func_file"@));
        assert(str_field(doc, "joint_state_define_func_file"@) is Ok);
        assert(field_ok(doc, "joint_names"@));
        assert(str_list_list_field(doc, "joint_names"@) is Ok);
        assert(str_list_field(doc, key) == Err::<Seq<Seq<char>>, SchemaErrorV>(schema_err(key, Shape::StrList)));
        assert(extract_spec(doc) == Err::<ConfigV, SchemaErrorV>(schema_err(key, key_shape(key))));
    }
    else if key == "ee_fixed_joints"@ {
        assert(key_shape(key) == Shape::StrList);
        assert(field_ok(doc, "urdf_file_name"@));
        assert(str_field(doc, "urdf_file_name"@) is Ok);
        assert(field_ok(doc, "fixed_frame"@));
        assert(str_field(doc, "fixed_frame"@) is Ok);
        assert(field_ok(doc, "collision_file_name"@));
        assert(str_field(doc, "collision_file_name"@) is Ok);
        assert(field_ok(doc, "collision_nn_file"@));
        assert(str_field(doc, "collision_nn_file"@) is Ok);
        assert(field_ok(doc, "path_to_src"@));
        assert(str_field(doc, "path_to_src"@) is Ok);
        assert(field_ok(doc, "joint_state_define_func_file"@));
        assert(str_field(doc, "joint_state_define_func_file"@) is Ok);
        assert(field_ok(doc, "joint_names"@));
        assert(str_list_list_field(doc, "joint_names"@) is Ok);
        assert(field_ok(doc, "joint_ordering"@));
        assert(str_list_field(doc, "joint_ordering"@) is Ok);
        assert(str_list_field(doc, key) == Err::<Seq<Seq<char>>, SchemaErrorV>(schema_err(key, Shape::StrList)));
        assert(extract_spec(doc) == Err::<ConfigV, SchemaErrorV>(schema_err(key, key_shape(key))));
    }
    else if key == "starting_config"@ {
        assert(key_shape(key) == Shape::RealList);
        assert(field_ok(doc, "urdf_file_name"@));
        assert(str_field(doc, "urdf_file_name"@) is Ok);
        assert(field_ok(doc, "fixed_frame"@));
        assert(str_field(doc, "fixed_frame"@) is Ok);
        assert(field_ok(doc, "collision_file_name"@));
        assert(str_field(doc, "collision_file_name"@) is Ok);
        assert(field_ok(doc, "collision_nn_file"@));
        assert(str_field(doc, "collision_nn_file"@) is Ok);
        assert(field_ok(doc, "path_to_src"@));
        assert(str_field(doc, "path_to_src"@) is Ok);
        assert(field_ok(doc, "joint_state_define_func_file"@));
        assert(str_field(doc, "joint_state_define_func_file"@) is Ok);
        assert(field_ok(doc, "joint_names"@));
        assert(str_list_list_field(doc, "joint_names"@) is Ok);
        assert(field_ok(doc, "joint_ordering"@));
        assert(str_list_field(doc, "joint_ordering"@) is Ok);
        assert(field_ok(doc, "ee_fixed_joints"@));
        assert(str_list_field(doc, "ee_fixed_joints"@) is Ok);
        assert(real_list_field(doc, key) == Err::<Seq<Seq<char>>, SchemaErrorV>(schema_err(key, Shape::RealList)));
        assert(extract_spec(doc) == Err::<ConfigV, SchemaErrorV>(schema_err(key, key_shape(key))));
    }
    else if key == "axis_types"@ {
        assert(key_shape(key) == Shape::StrListList);
        assert(field_ok(doc, "urdf_file_name"@));
        assert(str_field(doc, "urdf_file_name"@) is Ok);
        assert(field_ok(doc, "fixed_frame"@));
        assert(str_field(doc, "fixed_frame"@) is Ok);
        assert(field_ok(doc, "collision_file_name"@));
        assert(str_field(doc, "collision_file_name"@) is Ok);
        assert(field_ok(doc, "collision_nn_file"@));
        assert(str_field(doc, "collision_nn_file"@) is Ok);
        assert(field_ok(doc, "path_to_src"@));
        assert(str_field(doc, "path_to_src"@) is Ok);
        assert(field_ok(doc, "joint_state_define_func_file"@));
        assert(str_field(doc, "joint_state_define_func_file"@) is Ok);
        assert(field_ok(doc, "joint_names"@));
        assert(str_list_list_field(doc, "joint_names"@) is Ok);
        assert(field_ok(doc, "joint_ordering"@));
        assert(str_list_field(doc, "joint_ordering"@) is Ok);
        assert(field_ok(doc, "ee_fixed_joints"@));
        assert(str_list_field(doc, "ee_fixed_joints"@) is Ok);
        assert(field_ok(doc, "starting_config"@));
        assert(real_list_field(doc, "starting_config"@) is Ok);
        assert(str_list_list_field(doc, key) == Err::<Seq<Seq<Seq<char>>>, SchemaErrorV>(schema_err(key, Shape::StrListList)));
        assert(extract_spec(doc) == Err::<ConfigV, SchemaErrorV>(schema_err(key, key_shape(key))));
    }
    else if key == "velocity_limits"@ {
        assert(key_shape(key) == Shape::RealList);
        assert(field_ok(doc, "urdf_file_name"@));
        assert(str_field(doc, "urdf_file_name"@) is Ok);
        assert(field_ok(doc, "fixed_frame"@));
        assert(str_field(doc, "fixed_frame"@) is Ok);
        assert(field_ok(doc, "collision_file_name"@));
        assert(str_field(doc, "collision_file_name"@) is Ok);
        assert(field_ok(doc, "collision_nn_file"@));
        assert(str_field(doc, "collision_nn_file"@) is Ok);
        assert(field_ok(doc, "path_to_src"@));
        assert(str_field(doc, "path_to_src"@) is Ok);
        assert(field_ok(doc, "joint_state_define_func_file"@));
        assert(str_field(doc, "joint_state_define_func_file"@) is Ok);
        assert(field_ok(doc, "joint_names"@));
        assert(str_list_list_field(doc, "joint_names"@) is Ok);
        assert(field_ok(doc, "joint_ordering"@));
        assert(str_list_field(doc, "joint_ordering"@) is Ok);
        assert(field_ok(doc, "ee_fixed_joints"@));
        assert(str_list_field(doc, "ee_fixed_joints"@) is Ok);
        assert(field_ok(doc, "starting_config"@));
        assert(real_list_field(doc, "starting_config"@) is Ok);
        assert(field_ok(doc, "axis_types"@));
        assert(str_list_list_field(doc, "axis_types"@) is Ok);
        assert(real_list_field(doc, key) == Err::<Seq<Seq<char>>, SchemaErrorV>(schema_err(key, Shape::RealList)));
        assert(extract_spec(doc) == Err::<ConfigV, SchemaErrorV>(schema_err(key, key_shape(key))));
    }
    else if key == "joint_limits"@ {
        assert(key_shape(key) == Shape::PairList);
        assert(field_ok(doc, "urdf_file_name"@));
        assert(str_field(doc, "urdf_file_name"@) is Ok);
        assert(field_ok(doc, "fixed_frame"@));
        assert(str_field(doc, "fixed_frame"@) is Ok);
        assert(field_ok(doc, "collision_file_name"@));
        assert(str_field(doc, "collision_file_name"@) is Ok);
        assert(field_ok(doc, "collision_nn_file"@));
        assert(str_field(doc, "collision_nn_file"@) is Ok);
        assert(field_ok(doc, "path_to_src"@));
        assert(str_field(doc, "path_to_src"@) is Ok);
        assert(field_ok(doc, "joint_state_define_func_file"@));
        assert(str_field(doc, "joint_state_define_func_file"@) is Ok);
        assert(field_ok(doc, "joint_names"@));
        assert(str_list_list_field(doc, "joint_names"@) is Ok);
        assert(field_ok(doc, "joint_ordering"@));
        assert(str_list_field(doc, "joint_ordering"@) is Ok);
        assert(field_ok(doc, "ee_fixed_joints"@));
        assert(str_list_field(doc, "ee_fixed_joints"@) is Ok);
        assert(field_ok(doc, "starting_config"@));
        assert(real_list_field(doc, "starting_config"@) is Ok);
        assert(field_ok(doc, "axis_types"@));
        assert(str_list_list_field(doc, "axis_types"@) is Ok);
        assert(field_ok(doc, "velocity_limits"@));
        assert(real_list_field(doc, "velocity_limits"@) is Ok);
        assert(pair_list_field(doc, key) == Err::<Seq<LimitV>, SchemaErrorV>(schema_err(key, Shape::PairList)));
        assert(extract_spec(doc) == Err::<ConfigV, SchemaErrorV>(schema_err(key, key_shape(key))));
    }
    else if key == "displacements"@ {
        assert(key_shape(key) == Shape::TripleListList);
        assert(field_ok(doc, "urdf_file_name"@));
        assert(str_field(doc, "urdf_file_name"@) is Ok);
        assert(field_ok(doc, "fixed_frame"@));
        assert(str_field(doc, "fixed_frame"@) is Ok);
        assert(field_ok(doc, "collision_file_name"@));
        assert(str_field(doc, "collision_file_name"@) is Ok);
        assert(field_ok(doc, "collision_nn_file"@));
        assert(str_field(doc, "collision_nn_file"@) is Ok);
        assert(field_ok(doc, "path_to_src"@));
        assert(str_field(doc, "path_to_src"@) is Ok);
        assert(field_ok(doc, "joint_state_define_func_file"@));
        assert(str_field(doc, "joint_state_define_func_file"@) is Ok);
        assert(field_ok(doc, "joint_names"@));
        assert(str_list_list_field(doc, "joint_names"@) is Ok);
        assert(field_ok(doc, "joint_ordering"@));
        assert(str_list_field(doc, "joint_ordering"@) is Ok);
        assert(field_ok(doc, "ee_fixed_joints"@));
        assert(str_list_field(doc, "ee_fixed_joints"@) is Ok);
        assert(field_ok(doc, "starting_config"@));
        assert(real_list_field(doc, "starting_config"@) is Ok);
        assert(field_ok(doc, "axis_types"@));
        assert(str_list_list_field(doc, "axis_types"@) is Ok);
        assert(field_ok(doc, "velocity_limits"@));
        assert(real_list_field(doc, "velocity_limits"@) is Ok);
        assert(field_ok(doc, "joint_limits"@));
        assert(pair_list_field(doc, "joint_limits"@) is Ok);
        assert(triple_list_list_field(doc, key) == Err::<Seq<Seq<Vec3V>>, SchemaErrorV>(schema_err(key, Shape::TripleListList)));
        assert(extract_spec(doc) == Err::<ConfigV, SchemaErrorV>(schema_err(key, key_shape(key))));
    }
    else if key == "disp_offsets"@ {
        assert(key_shape(key) == Shape::TripleList);
        assert(field_ok(doc, "urdf_file_name"@));
        assert(str_field(doc, "urdf_file_name"@) is Ok);
        assert(field_ok(doc, "fixed_frame"@));
        assert(str_field(doc, "fixed_frame"@) is Ok);
        assert(field_ok(doc, "collision_file_name"@));
        assert(str_field(doc, "collision_file_name"@) is Ok);
        assert(field_ok(doc, "collision_nn_file"@));
        assert(str_field(doc, "collision_nn_file"@) is Ok);
        assert(field_ok(doc, "path_to_src"@));
        assert(str_field(doc, "path_to_src"@) is Ok);
        assert(field_ok(doc, "joint_state_define_func_file"@));
        assert(str_field(doc, "joint_state_define_func_file"@) is Ok);
        assert(field_ok(doc, "joint_names"@));
        assert(str_list_list_field(doc, "joint_names"@) is Ok);
        assert(field_ok(doc, "joint_ordering"@));
        assert(str_list_field(doc, "joint_ordering"@) is Ok);
        assert(field_ok(doc, "ee_fixed_joints"@));
        assert(str_list_field(doc, "ee_fixed_joints"@) is Ok);
        assert(field_ok(doc, "starting_config"@));
        assert(real_list_field(doc, "starting_config"@) is Ok);
        assert(field_ok(doc, "axis_types"@));
        assert(str_list_list_field(doc, "axis_types"@) is Ok);
        assert(field_ok(doc, "velocity_limits"@));
        assert(real_list_field(doc, "velocity_limits"@) is Ok);
        assert(field_ok(doc, "joint_limits"@));
        assert(pair_list_field(doc, "joint_limits"@) is Ok);
        assert(field_ok(doc, "displacements"@));
        assert(triple_list_list_field(doc, "displacements"@) is Ok);
        assert(triple_list_field(doc, key) == Err::<Seq<Vec3V>, SchemaErrorV>(schema_err(key, Shape::TripleList)));
        assert(extract_spec(doc) == Err::<ConfigV, SchemaErrorV>(schema_err(key, key_shape(key))));
    }
    else if key == "joint_types"@ {
        assert(key_shape(key) == Shape::StrListList);
        assert(field_ok(doc, "urdf_file_name"@));
        assert(str_field(doc, "urdf_file_name"@) is Ok);
        assert(field_ok(doc, "fixed_frame"@));
        assert(str_field(doc, "fixed_frame"@) is Ok);
        assert(field_ok(doc, "collision_file_name"@));
        assert(str_field(doc, "collision_file_name"@) is Ok);
        assert(field_ok(doc, "collision_nn_file"@));
        assert(str_field(doc, "collision_nn_file"@) is Ok);
        assert(field_ok(doc, "path_to_src"@));
        assert(str_field(doc, "path_to_src"@) is Ok);
        assert(field_ok(doc, "joint_state_define_func_file"@));
        assert(str_field(doc, "joint_state_define_func_file"@) is Ok);
        assert(field_ok(doc, "joint_names"@));
        assert(str_list_list_field(doc, "joint_names"@) is Ok);
        assert(field_ok(doc, "joint_ordering"@));
        assert(str_list_field(doc, "joint_ordering"@) is Ok);
        assert(field_ok(doc, "ee_fixed_joints"@));
        assert(str_list_field(doc, "ee_fixed_joints"@) is Ok);
        assert(field_ok(doc, "starting_config"@));
        assert(real_list_field(doc, "starting_config"@) is Ok);
        assert(field_ok(doc, "axis_types"@));
        assert(str_list_list_field(doc, "axis_types"@) is Ok);
        assert(field_ok(doc, "velocity_limits"@));
        assert(real_list_field(doc, "velocity_limits"@) is Ok);
        assert(field_ok(doc, "joint_limits"@));
        assert(pair_list_field(doc, "joint_limits"@) is Ok);
        assert(field_ok(doc, "displacements"@));
        assert(triple_list_list_field(doc, "displacements"@) is Ok);
        assert(field_ok(doc, "disp_offsets"@));
        assert(triple_list_field(doc, "disp_offsets"@) is Ok);
        assert(str_list_list_field(doc, key) == Err::<Seq<Seq<Seq<char>>>, SchemaErrorV>(schema_err(key, Shape::StrListList)));
        assert(extract_spec(doc) == Err::<ConfigV, SchemaErrorV>(schema_err(key, key_shape(key))));
    }
}

/// A string where a number belongs is rejected: if a numeric-list field
/// holds a string scalar anywhere, that field fails with a type-mismatch
/// schema error and the whole extraction fails; nothing is coerced.
pub proof fn lemma_mistyped_real_rejected(doc: Node, key: Seq<char>, i: int)
    requires
        key == "starting_config"@ || key == "velocity_limits"@,
        get_field(doc, key) matches Some(n) && n is List && 0 <= i < n->List_items.len()
            && n->List_items[i] is Str,
    ensures
        real_list_field(doc, key) == Err::<Seq<Seq<char>>, SchemaErrorV>(
            schema_err(key, Shape::RealList),
        ),
        extract_spec(doc) is Err,
{
    let items = get_field(doc, key)->Some_0->List_items;
    assert(!all_reals(items)) by {
        assert(!(items[i] is Real));
    }
    if key == "starting_config"@ {
        assert(extract_spec(doc) is Err);
    } else {
        assert(extract_spec(doc) is Err);
    }
}

/// Nested shape: a successfully parsed list-of-lists field has exactly as
/// many outer entries as the source sequence and, entry by entry, exactly
/// as many inner strings as the corresponding source sub-sequence — also
/// when there are zero chains, or chains with zero joints.
pub proof fn lemma_nested_shape(doc: Node, key: Seq<char>)
    ensures
        str_list_list_field(doc, key) matches Ok(v) ==> {
            &&& get_field(doc, key) matches Some(outer)
            &&& outer is List
            &&& v.len() == outer->List_items.len()
            &&& forall|k: int|
                0 <= k < v.len() ==> outer->List_items[k] is List && #[trigger] v[k].len()
                    == outer->List_items[k]->List_items.len()
            &&& forall|k: int, m: int|
                0 <= k < v.len() && 0 <= m < v[k].len() ==> #[trigger] v[k][m]
                    == outer->List_items[k]->List_items[m]->Str_s
        },
{
}

/// Fixed arity: every successfully parsed limit pair equals the first two
/// numeric literals of its source sequence, whether that sequence has
/// exactly two entries or more.
pub proof fn lemma_fixed_arity(doc: Node, key: Seq<char>)
    ensures
        pair_list_field(doc, key) matches Ok(v) ==> {
            &&& get_field(doc, key) matches Some(outer)
            &&& outer is List
            &&& v.len() == outer->List_items.len()
            &&& forall|k: int|
                0 <= k < v.len() ==> outer->List_items[k] is List
                    && outer->List_items[k]->List_items.len() >= 2 && #[trigger] v[k]
                    == (LimitV {
                    lower: outer->List_items[k]->List_items[0]->Real_lit,
                    upper: outer->List_items[k]->List_items[1]->Real_lit,
                })
        },
{
}

} // verus!
