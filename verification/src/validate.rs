//! The opt-in validation pass: cross-field shape agreement that the schema
//! implies but a plain load deliberately does not enforce, so that loading
//! keeps its lenient behaviour and a caller can still check strictly.

use vstd::prelude::*;

use crate::config::ConfigV;
use crate::config::RobotKinematicsConfig;

verus! {

/// Cross-field shape agreement: the four per-chain nested fields have the
/// same chain count and the same joints per chain, the per-chain flat
/// fields have one entry per chain, and the per-joint flat fields have one
/// entry per joint of the canonical ordering.
pub open spec fn shapes_consistent(c: ConfigV) -> bool {
    &&& c.axis_types.len() == c.joint_names.len()
    &&& c.displacements.len() == c.joint_names.len()
    &&& c.joint_types.len() == c.joint_names.len()
    &&& c.ee_fixed_joints.len() == c.joint_names.len()
    &&& c.disp_offsets.len() == c.joint_names.len()
    &&& (forall|k: int|
        0 <= k < c.joint_names.len() ==> #[trigger] c.axis_types[k].len()
            == c.joint_names[k].len())
    &&& (forall|k: int|
        0 <= k < c.joint_names.len() ==> #[trigger] c.displacements[k].len()
            == c.joint_names[k].len())
    &&& (forall|k: int|
        0 <= k < c.joint_names.len() ==> #[trigger] c.joint_types[k].len()
            == c.joint_names[k].len())
    &&& c.starting_config.len() == c.joint_ordering.len()
    &&& c.velocity_limits.len() == c.joint_ordering.len()
    &&& c.joint_limits.len() == c.joint_ordering.len()
}

/// Decides cross-field shape agreement for a loaded record.
#[verifier::loop_isolation(false)]
pub fn check_shapes(c: &RobotKinematicsConfig) -> (r: bool)
    ensures
        r == shapes_consistent(c@),
{
    if c.axis_types.len() != c.joint_names.len() {
        return false;
    }
    if c.displacements.len() != c.joint_names.len() {
        return false;
    }
    if c.joint_types.len() != c.joint_names.len() {
        return false;
    }
    if c.ee_fixed_joints.len() != c.joint_names.len() {
        return false;
    }
    if c.disp_offsets.len() != c.joint_names.len() {
        return false;
    }
    if c.starting_config.len() != c.joint_ordering.len() {
        return false;
    }
    if c.velocity_limits.len() != c.joint_ordering.len() {
        return false;
    }
    if c.joint_limits.len() != c.joint_ordering.len() {
        return false;
    }
    let mut k: usize = 0;
    while k < c.joint_names.len()
        invariant
            k <= c.joint_names.len(),
            forall|j: int|
                0 <= j < k ==> #[trigger] c@.axis_types[j].len() == c@.joint_names[j].len(),
            forall|j: int|
                0 <= j < k ==> #[trigger] c@.displacements[j].len() == c@.joint_names[j].len(),
            forall|j: int|
                0 <= j < k ==> #[trigger] c@.joint_types[j].len() == c@.joint_names[j].len(),
        decreases c.joint_names.len() - k,
    {
        proof {
            assert(c@.joint_names[k as int].len() == c.joint_names@[k as int]@.len());
            assert(c@.axis_types[k as int].len() == c.axis_types@[k as int]@.len());
            assert(c@.displacements[k as int].len() == c.displacements@[k as int]@.len());
            assert(c@.joint_types[k as int].len() == c.joint_types@[k as int]@.len());
        }
        if c.axis_types[k].len() != c.joint_names[k].len() {
            return false;
        }
        if c.displacements[k].len() != c.joint_names[k].len() {
            return false;
        }
        if c.joint_types[k].len() != c.joint_names[k].len() {
            return false;
        }
        k += 1;
    }
    true
}

} // verus!
