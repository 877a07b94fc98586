//! The text emitter: writes a configuration record as markup text in the
//! documented schema, one `key: value` line per field with flow-style
//! sequences, numeric values as the literals the record carries.
//!
//! Strings are emitted double-quoted and unescaped: a string that itself
//! holds a quote, a backslash or a line break is its producer's to avoid.

use vstd::prelude::*;
use vstd::string::StringExecFns;

use crate::config::ConfigV;
use crate::config::JointLimit;
use crate::config::LimitV;
use crate::config::Real;
use crate::config::RobotKinematicsConfig;
use crate::config::Vec3;
use crate::config::Vec3V;
use crate::config::limits_view;
use crate::config::reals_view;
use crate::config::str_lists_view;
use crate::config::strs_view;
use crate::config::vec3_lists_view;
use crate::config::vec3s_view;

verus! {

/// A string scalar, double-quoted.
pub open spec fn quoted_text(s: Seq<char>) -> Seq<char> {
    "\""@ + s + "\""@
}

/// Parts joined by a comma and a space.
pub open spec fn joined(parts: Seq<Seq<char>>) -> Seq<char>
    decreases parts.len(),
{
    if parts.len() == 0 {
        Seq::empty()
    } else if parts.len() == 1 {
        parts[0]
    } else {
        parts[0] + ", "@ + joined(parts.drop_first())
    }
}

/// A flow-style sequence around already-rendered parts.
pub open spec fn bracketed(inner: Seq<char>) -> Seq<char> {
    "["@ + inner + "]"@
}

/// A flat list of strings, rendered.
pub open spec fn strs_text(v: Seq<Seq<char>>) -> Seq<char> {
    bracketed(joined(v.map_values(|s: Seq<char>| quoted_text(s))))
}

/// A flat list of numeric literals, rendered bare.
pub open spec fn reals_text(v: Seq<Seq<char>>) -> Seq<char> {
    bracketed(joined(v))
}

/// A per-chain list of string lists, rendered.
pub open spec fn str_lists_text(v: Seq<Seq<Seq<char>>>) -> Seq<char> {
    bracketed(joined(v.map_values(|inner: Seq<Seq<char>>| strs_text(inner))))
}

/// A limit pair, rendered as a two-entry sequence.
pub open spec fn limit_text(l: LimitV) -> Seq<char> {
    bracketed(l.lower + ", "@ + l.upper)
}

/// A list of limit pairs, rendered.
pub open spec fn limits_text(v: Seq<LimitV>) -> Seq<char> {
    bracketed(joined(v.map_values(|l: LimitV| limit_text(l))))
}

/// A 3-D vector, rendered as a three-entry sequence.
pub open spec fn vec3_text(w: Vec3V) -> Seq<char> {
    bracketed(w.x + ", "@ + w.y + ", "@ + w.z)
}

/// A list of 3-D vectors, rendered.
pub open spec fn vec3s_text(v: Seq<Vec3V>) -> Seq<char> {
    bracketed(joined(v.map_values(|w: Vec3V| vec3_text(w))))
}

/// A per-chain list of 3-D vector lists, rendered.
pub open spec fn vec3_lists_text(v: Seq<Seq<Vec3V>>) -> Seq<char> {
    bracketed(joined(v.map_values(|inner: Seq<Vec3V>| vec3s_text(inner))))
}

/// One `key: value` line.
pub open spec fn line_text(key: Seq<char>, value: Seq<char>) -> Seq<char> {
    key + ": "@ + value + "\n"@
}

/// The whole document text: all sixteen fields, one line each, in the
/// order the loader reads them.
pub open spec fn yaml_text(c: ConfigV) -> Seq<char> {
    line_text("urdf_file_name"@, quoted_text(c.urdf_file_name)) + line_text(
        "fixed_frame"@,
        quoted_text(c.fixed_frame),
    ) + line_text("collision_file_name"@, quoted_text(c.collision_file_name)) + line_text(
        "collision_nn_file"@,
        quoted_text(c.collision_nn_file),
    ) + line_text("path_to_src"@, quoted_text(c.path_to_src)) + line_text(
        "joint_state_define_func_file"@,
        quoted_text(c.joint_state_define_func_file),
    ) + line_text("joint_names"@, str_lists_text(c.joint_names)) + line_text(
        "joint_ordering"@,
        strs_text(c.joint_ordering),
    ) + line_text("ee_fixed_joints"@, strs_text(c.ee_fixed_joints)) + line_text(
        "starting_config"@,
        reals_text(c.starting_config),
    ) + line_text("axis_types"@, str_lists_text(c.axis_types)) + line_text(
        "velocity_limits"@,
        reals_text(c.velocity_limits),
    ) + line_text("joint_limits"@, limits_text(c.joint_limits)) + line_text(
        "displacements"@,
        vec3_lists_text(c.displacements),
    ) + line_text("disp_offsets"@, vec3s_text(c.disp_offsets)) + line_text(
        "joint_types"@,
        str_lists_text(c.joint_types),
    )
}

/// Joining one more part extends the join by a separator, except onto an
/// empty join.
proof fn lemma_joined_push(s: Seq<Seq<char>>, x: Seq<char>)
    ensures
        joined(s.push(x)) == if s.len() == 0 {
            x
        } else {
            joined(s) + ", "@ + x
        },
    decreases s.len(),
{
    let t = s.push(x);
    if s.len() == 0 {
        assert(t.len() == 1);
        assert(t[0] == x);
    } else {
        assert(t[0] == s[0]);
        assert(t.drop_first() =~= s.drop_first().push(x));
        lemma_joined_push(s.drop_first(), x);
        if s.len() == 1 {
            assert(joined(t) == t[0] + ", "@ + joined(t.drop_first()));
            assert(joined(t.drop_first()) == x);
            assert(joined(s) == s[0]);
        } else {
            assert(joined(t) == s[0] + ", "@ + (joined(s.drop_first()) + ", "@ + x));
            assert(s[0] + ", "@ + (joined(s.drop_first()) + ", "@ + x) =~= (s[0] + ", "@
                + joined(s.drop_first())) + ", "@ + x);
        }
    }
}

/// Renders already-rendered parts as one flow-style sequence.
#[verifier::loop_isolation(false)]
fn bracketed_join(parts: &Vec<String>) -> (r: String)
    ensures
        r@ == bracketed(joined(parts@.map_values(|p: String| p@))),
{
    let ghost pv = parts@.map_values(|p: String| p@);
    let mut out = String::new();
    out.append("[");
    proof {
        assert(out@ =~= "["@ + joined(pv.subrange(0, 0)));
    }
    let mut i: usize = 0;
    while i < parts.len()
        invariant
            i <= parts.len(),
            pv.len() == parts@.len(),
            forall|j: int| 0 <= j < parts@.len() ==> pv[j] == parts@[j]@,
            out@ == "["@ + joined(pv.subrange(0, i as int)),
        decreases parts.len() - i,
    {
        if i > 0 {
            out.append(", ");
        }
        out.append(parts[i].as_str());
        proof {
            let pre = pv.subrange(0, i as int);
            assert(pv.subrange(0, i as int + 1) =~= pre.push(pv[i as int]));
            lemma_joined_push(pre, pv[i as int]);
            if i > 0 {
                assert(out@ =~= "["@ + joined(pv.subrange(0, i as int + 1)));
            } else {
                assert(out@ =~= "["@ + joined(pv.subrange(0, i as int + 1)));
            }
        }
        i += 1;
    }
    proof {
        assert(pv.subrange(0, pv.len() as int) =~= pv);
    }
    out.append("]");
    proof {
        assert(out@ =~= bracketed(joined(pv)));
    }
    out
}

/// Renders one string scalar, double-quoted.
fn quoted_exec(s: &str) -> (r: String)
    ensures
        r@ == quoted_text(s@),
{
    let mut out = String::new();
    out.append("\"");
    out.append(s);
    out.append("\"");
    proof {
        assert(out@ =~= quoted_text(s@));
    }
    out
}

/// Renders a flat list of strings.
#[verifier::loop_isolation(false)]
fn strs_text_exec(v: &Vec<String>) -> (r: String)
    ensures
        r@ == strs_text(strs_view(v@)),
{
    let mut parts: Vec<String> = Vec::new();
    let mut i: usize = 0;
    while i < v.len()
        invariant
            i <= v.len(),
            parts@.len() == i,
            forall|j: int| 0 <= j < i ==> parts@[j]@ == quoted_text(v@[j]@),
        decreases v.len() - i,
    {
        parts.push(quoted_exec(v[i].as_str()));
        i += 1;
    }
    let r = bracketed_join(&parts);
    proof {
        assert(parts@.map_values(|p: String| p@) =~= strs_view(v@).map_values(
            |s: Seq<char>| quoted_text(s),
        ));
    }
    r
}

/// Renders a flat list of numeric literals, bare.
#[verifier::loop_isolation(false)]
fn reals_text_exec(v: &Vec<Real>) -> (r: String)
    ensures
        r@ == reals_text(reals_view(v@)),
{
    let mut parts: Vec<String> = Vec::new();
    let mut i: usize = 0;
    while i < v.len()
        invariant
            i <= v.len(),
            parts@.len() == i,
            forall|j: int| 0 <= j < i ==> parts@[j]@ == v@[j]@,
        decreases v.len() - i,
    {
        parts.push(v[i].lit.clone());
        i += 1;
    }
    let r = bracketed_join(&parts);
    proof {
        assert(parts@.map_values(|p: String| p@) =~= reals_view(v@));
    }
    r
}

/// Renders a per-chain list of string lists.
#[verifier::loop_isolation(false)]
fn str_lists_text_exec(v: &Vec<Vec<String>>) -> (r: String)
    ensures
        r@ == str_lists_text(str_lists_view(v@)),
{
    let mut parts: Vec<String> = Vec::new();
    let mut i: usize = 0;
    while i < v.len()
        invariant
            i <= v.len(),
            parts@.len() == i,
            forall|j: int| 0 <= j < i ==> parts@[j]@ == strs_text(strs_view(v@[j]@)),
        decreases v.len() - i,
    {
        parts.push(strs_text_exec(&v[i]));
        i += 1;
    }
    let r = bracketed_join(&parts);
    proof {
        assert(parts@.map_values(|p: String| p@) =~= str_lists_view(v@).map_values(
            |inner: Seq<Seq<char>>| strs_text(inner),
        ));
    }
    r
}

/// Renders one limit pair.
fn limit_text_exec(l: &JointLimit) -> (r: String)
    ensures
        r@ == limit_text(l@),
{
    let mut out = String::new();
    out.append("[");
    out.append(l.lower.lit.as_str());
    out.append(", ");
    out.append(l.upper.lit.as_str());
    out.append("]");
    proof {
        assert(out@ =~= limit_text(l@));
    }
    out
}

/// Renders a list of limit pairs.
#[verifier::loop_isolation(false)]
fn limits_text_exec(v: &Vec<JointLimit>) -> (r: String)
    ensures
        r@ == limits_text(limits_view(v@)),
{
    let mut parts: Vec<String> = Vec::new();
    let mut i: usize = 0;
    while i < v.len()
        invariant
            i <= v.len(),
            parts@.len() == i,
            forall|j: int| 0 <= j < i ==> parts@[j]@ == limit_text(v@[j]@),
        decreases v.len() - i,
    {
        parts.push(limit_text_exec(&v[i]));
        i += 1;
    }
    let r = bracketed_join(&parts);
    proof {
        assert(parts@.map_values(|p: String| p@) =~= limits_view(v@).map_values(
            |l: LimitV| limit_text(l),
        ));
    }
    r
}

/// Renders one 3-D vector.
fn vec3_text_exec(w: &Vec3) -> (r: String)
    ensures
        r@ == vec3_text(w@),
{
    let mut out = String::new();
    out.append("[");
    out.append(w.x.lit.as_str());
    out.append(", ");
    out.append(w.y.lit.as_str());
    out.append(", ");
    out.append(w.z.lit.as_str());
    out.append("]");
    proof {
        assert(out@ =~= vec3_text(w@));
    }
    out
}

/// Renders a list of 3-D vectors.
#[verifier::loop_isolation(false)]
fn vec3s_text_exec(v: &Vec<Vec3>) -> (r: String)
    ensures
        r@ == vec3s_text(vec3s_view(v@)),
{
    let mut parts: Vec<String> = Vec::new();
    let mut i: usize = 0;
    while i < v.len()
        invariant
            i <= v.len(),
            parts@.len() == i,
            forall|j: int| 0 <= j < i ==> parts@[j]@ == vec3_text(v@[j]@),
        decreases v.len() - i,
    {
        parts.push(vec3_text_exec(&v[i]));
        i += 1;
    }
    let r = bracketed_join(&parts);
    proof {
        assert(parts@.map_values(|p: String| p@) =~= vec3s_view(v@).map_values(
            |w: Vec3V| vec3_text(w),
        ));
    }
    r
}

/// Renders a per-chain list of 3-D vector lists.
#[verifier::loop_isolation(false)]
fn vec3_lists_text_exec(v: &Vec<Vec<Vec3>>) -> (r: String)
    ensures
        r@ == vec3_lists_text(vec3_lists_view(v@)),
{
    let mut parts: Vec<String> = Vec::new();
    let mut i: usize = 0;
    while i < v.len()
        invariant
            i <= v.len(),
            parts@.len() == i,
            forall|j: int| 0 <= j < i ==> parts@[j]@ == vec3s_text(vec3s_view(v@[j]@)),
        decreases v.len() - i,
    {
        parts.push(vec3s_text_exec(&v[i]));
        i += 1;
    }
    let r = bracketed_join(&parts);
    proof {
        assert(parts@.map_values(|p: String| p@) =~= vec3_lists_view(v@).map_values(
            |inner: Seq<Vec3V>| vec3s_text(inner),
        ));
    }
    r
}

/// Appends one `key: value` line.
fn append_line(out: &mut String, key: &str, value: String)
    ensures
        final(out)@ == old(out)@ + line_text(key@, value@),
{
    out.append(key);
    out.append(": ");
    out.append(value.as_str());
    out.append("\n");
    proof {
        assert(out@ =~= old(out)@ + line_text(key@, value@));
    }
}

/// Serializes a record as markup text in the documented schema. The exact
/// text is pinned down character for character: each numeric literal is
/// written back as it stands in the record.
pub fn config_to_yaml(c: &RobotKinematicsConfig) -> (r: String)
    ensures
        r@ == yaml_text(c@),
{
    let mut out = String::new();
    proof {
        assert(out@ =~= Seq::<char>::empty());
    }
    append_line(&mut out, "urdf_file_name", quoted_exec(c.urdf_file_name.as_str()));
    proof {
        assert(out@ =~= Seq::<char>::empty() + line_text(
            "urdf_file_name"@,
            quoted_text(c@.urdf_file_name),
        ));
        assert(out@ =~= line_text("urdf_file_name"@, quoted_text(c@.urdf_file_name)));
    }
    append_line(&mut out, "fixed_frame", quoted_exec(c.fixed_frame.as_str()));
    append_line(&mut out, "collision_file_name", quoted_exec(c.collision_file_name.as_str()));
    append_line(&mut out, "collision_nn_file", quoted_exec(c.collision_nn_file.as_str()));
    append_line(&mut out, "path_to_src", quoted_exec(c.path_to_src.as_str()));
    append_line(
        &mut out,
        "joint_state_define_func_file",
        quoted_exec(c.joint_state_define_func_file.as_str()),
    );
    append_line(&mut out, "joint_names", str_lists_text_exec(&c.joint_names));
    append_line(&mut out, "joint_ordering", strs_text_exec(&c.joint_ordering));
    append_line(&mut out, "ee_fixed_joints", strs_text_exec(&c.ee_fixed_joints));
    append_line(&mut out, "starting_config", reals_text_exec(&c.starting_config));
    append_line(&mut out, "axis_types", str_lists_text_exec(&c.axis_types));
    append_line(&mut out, "velocity_limits", reals_text_exec(&c.velocity_limits));
    append_line(&mut out, "joint_limits", limits_text_exec(&c.joint_limits));
    append_line(&mut out, "displacements", vec3_lists_text_exec(&c.displacements));
    append_line(&mut out, "disp_offsets", vec3s_text_exec(&c.disp_offsets));
    append_line(&mut out, "joint_types", str_lists_text_exec(&c.joint_types));
    out
}

} // verus!
