//! The strongly-typed configuration record a successful load produces, and
//! the mathematical view of each of its parts.
//!
//! Numeric values are carried as the decimal literals that stood in the
//! document text. A literal is never reformatted or rounded here, so a
//! record can be written back out and reloaded without loss; turning a
//! literal into machine floating point is its consumer's step.

use vstd::prelude::*;

verus! {

/// A 64-bit floating-point value, kept as its decimal source literal.
#[derive(Clone, Debug, PartialEq, Eq)]
pub struct Real {
    /// The decimal literal, exactly as written in the document.
    pub lit: String,
}

impl View for Real {
    type V = Seq<char>;

    open spec fn view(&self) -> Seq<char> {
        self.lit@
    }
}

/// The motion range of one joint: a lower and an upper limit.
#[derive(Clone, Debug, PartialEq, Eq)]
pub struct JointLimit {
    pub lower: Real,
    pub upper: Real,
}

/// Mathematical model of a `JointLimit`.
#[verifier::ext_equal]
pub struct LimitV {
    pub lower: Seq<char>,
    pub upper: Seq<char>,
}

impl View for JointLimit {
    type V = LimitV;

    open spec fn view(&self) -> LimitV {
        LimitV { lower: self.lower@, upper: self.upper@ }
    }
}

/// A 3-D offset vector.
#[derive(Clone, Debug, PartialEq, Eq)]
pub struct Vec3 {
    pub x: Real,
    pub y: Real,
    pub z: Real,
}

/// Mathematical model of a `Vec3`.
#[verifier::ext_equal]
pub struct Vec3V {
    pub x: Seq<char>,
    pub y: Seq<char>,
    pub z: Seq<char>,
}

impl View for Vec3 {
    type V = Vec3V;

    open spec fn view(&self) -> Vec3V {
        Vec3V { x: self.x@, y: self.y@, z: self.z@ }
    }
}

/// View of a flat list of strings.
pub open spec fn strs_view(v: Seq<String>) -> Seq<Seq<char>> {
    v.map_values(|s: String| s@)
}

/// View of a per-chain list of per-joint string lists.
pub open spec fn str_lists_view(v: Seq<Vec<String>>) -> Seq<Seq<Seq<char>>> {
    v.map_values(|inner: Vec<String>| strs_view(inner@))
}

/// View of a flat list of numeric literals.
pub open spec fn reals_view(v: Seq<Real>) -> Seq<Seq<char>> {
    v.map_values(|r: Real| r@)
}

/// View of a list of joint limits.
pub open spec fn limits_view(v: Seq<JointLimit>) -> Seq<LimitV> {
    v.map_values(|l: JointLimit| l@)
}

/// View of a list of 3-D vectors.
pub open spec fn vec3s_view(v: Seq<Vec3>) -> Seq<Vec3V> {
    v.map_values(|w: Vec3| w@)
}

/// View of a per-chain list of per-joint 3-D vector lists.
pub open spec fn vec3_lists_view(v: Seq<Vec<Vec3>>) -> Seq<Seq<Vec3V>> {
    v.map_values(|inner: Vec<Vec3>| vec3s_view(inner@))
}

/// The fully validated robot kinematics configuration.
///
/// `joint_names`, `axis_types`, `displacements` and `joint_types` are
/// shape-parallel by intent (same chain count, same joints per chain), but
/// a plain load does not enforce that: `shapes_consistent` states the
/// cross-field invariant and `check_shapes` decides it on demand.
#[derive(Clone, Debug, PartialEq, Eq)]
pub struct RobotKinematicsConfig {
    /// Path of the robot description file.
    pub urdf_file_name: String,
    /// The reference coordinate frame all chain offsets are relative to.
    pub fixed_frame: String,
    /// Per kinematic chain, the names of its joints in order.
    pub joint_names: Vec<Vec<String>>,
    /// The canonical flat order of all joints.
    pub joint_ordering: Vec<String>,
    /// One fixed end-effector joint per chain.
    pub ee_fixed_joints: Vec<String>,
    /// The starting posture, one value per joint in `joint_ordering` order.
    pub starting_config: Vec<Real>,
    /// Path of the collision geometry file.
    pub collision_file_name: String,
    /// Path of the collision neural-network file.
    pub collision_nn_file: String,
    /// Base path for resolving the file references above.
    pub path_to_src: String,
    /// Per chain, per joint, the axis type.
    pub axis_types: Vec<Vec<String>>,
    /// One velocity limit per joint.
    pub velocity_limits: Vec<Real>,
    /// One (lower, upper) limit pair per joint.
    pub joint_limits: Vec<JointLimit>,
    /// Per chain, per joint, a 3-D displacement vector.
    pub displacements: Vec<Vec<Vec3>>,
    /// One 3-D offset vector per chain.
    pub disp_offsets: Vec<Vec3>,
    /// Per chain, per joint, the joint type.
    pub joint_types: Vec<Vec<String>>,
    /// Path of the joint-state definition function file.
    pub joint_state_define_func_file: String,
}

/// Mathematical model of a `RobotKinematicsConfig`.
#[verifier::ext_equal]
pub struct ConfigV {
    pub urdf_file_name: Seq<char>,
    pub fixed_frame: Seq<char>,
    pub joint_names: Seq<Seq<Seq<char>>>,
    pub joint_ordering: Seq<Seq<char>>,
    pub ee_fixed_joints: Seq<Seq<char>>,
    pub starting_config: Seq<Seq<char>>,
    pub collision_file_name: Seq<char>,
    pub collision_nn_file: Seq<char>,
    pub path_to_src: Seq<char>,
    pub axis_types: Seq<Seq<Seq<char>>>,
    pub velocity_limits: Seq<Seq<char>>,
    pub joint_limits: Seq<LimitV>,
    pub displacements: Seq<Seq<Vec3V>>,
    pub disp_offsets: Seq<Vec3V>,
    pub joint_types: Seq<Seq<Seq<char>>>,
    pub joint_state_define_func_file: Seq<char>,
}

impl View for RobotKinematicsConfig {
    type V = ConfigV;

    open spec fn view(&self) -> ConfigV {
        ConfigV {
            urdf_file_name: self.urdf_file_name@,
            fixed_frame: self.fixed_frame@,
            joint_names: str_lists_view(self.joint_names@),
            joint_ordering: strs_view(self.joint_ordering@),
            ee_fixed_joints: strs_view(self.ee_fixed_joints@),
            starting_config: reals_view(self.starting_config@),
            collision_file_name: self.collision_file_name@,
            collision_nn_file: self.collision_nn_file@,
            path_to_src: self.path_to_src@,
            axis_types: str_lists_view(self.axis_types@),
            velocity_limits: reals_view(self.velocity_limits@),
            joint_limits: limits_view(self.joint_limits@),
            displacements: vec3_lists_view(self.displacements@),
            disp_offsets: vec3s_view(self.disp_offsets@),
            joint_types: str_lists_view(self.joint_types@),
            joint_state_define_func_file: self.joint_state_define_func_file@,
        }
    }
}

} // verus!
