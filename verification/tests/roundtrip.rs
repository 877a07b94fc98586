use kinematics_config::config_from_str;
use kinematics_config::config_to_doc;
use kinematics_config::config_to_yaml;
use kinematics_config::extract_config;

fn two_chain_doc() -> &'static str {
    "urdf_file_name: robot.urdf\n\
     fixed_frame: world\n\
     joint_names: [[\"j1\", \"j2\"], [\"j3\"]]\n\
     joint_ordering: [\"j1\", \"j2\", \"j3\"]\n\
     ee_fixed_joints: [\"ee1\", \"ee2\"]\n\
     starting_config: [0.0, 0.5, -0.5]\n\
     collision_file_name: collision.yaml\n\
     collision_nn_file: nn.net\n\
     path_to_src: /opt/robot\n\
     axis_types: [[\"z\", \"y\"], [\"x\"]]\n\
     velocity_limits: [1.0, 2.0, 3.0]\n\
     joint_limits: [[-1.0, 1.0], [-2.0, 2.0], [-3.0, 3.0]]\n\
     displacements: [[[0.0, 0.0, 0.1], [0.0, 0.1, 0.0]], [[0.2, 0.0, 0.0]]]\n\
     disp_offsets: [[0.0, 0.0, 0.0], [1.0, 0.0, 0.0]]\n\
     joint_types: [[\"revolute\", \"revolute\"], [\"prismatic\"]]\n\
     joint_state_define_func_file: jsd.py\n"
}

#[test]
fn document_tree_round_trip_is_identity() {
    let cfg = config_from_str(two_chain_doc()).expect("document must load");
    let doc = config_to_doc(&cfg);
    let cfg2 = extract_config(&doc).expect("a serialized record must extract again");
    assert_eq!(cfg, cfg2);
}

#[test]
fn markup_text_round_trip_is_identity() {
    let cfg = config_from_str(two_chain_doc()).expect("document must load");
    let text = config_to_yaml(&cfg);
    let cfg2 = config_from_str(&text).expect("re-emitted markup must load");
    assert_eq!(cfg, cfg2);
    assert_eq!(cfg2.joint_limits[1].lower.lit, "-2.0");
    let v: f64 = cfg2.joint_limits[1].lower.lit.parse().unwrap();
    assert_eq!(v, -2.0);
}

#[test]
fn emitted_text_is_exactly_the_documented_schema() {
    let cfg = config_from_str(two_chain_doc()).expect("document must load");
    let text = config_to_yaml(&cfg);
    let expected = "urdf_file_name: \"robot.urdf\"\n\
        fixed_frame: \"world\"\n\
        collision_file_name: \"collision.yaml\"\n\
        collision_nn_file: \"nn.net\"\n\
        path_to_src: \"/opt/robot\"\n\
        joint_state_define_func_file: \"jsd.py\"\n\
        joint_names: [[\"j1\", \"j2\"], [\"j3\"]]\n\
        joint_ordering: [\"j1\", \"j2\", \"j3\"]\n\
        ee_fixed_joints: [\"ee1\", \"ee2\"]\n\
        starting_config: [0.0, 0.5, -0.5]\n\
        axis_types: [[\"z\", \"y\"], [\"x\"]]\n\
        velocity_limits: [1.0, 2.0, 3.0]\n\
        joint_limits: [[-1.0, 1.0], [-2.0, 2.0], [-3.0, 3.0]]\n\
        displacements: [[[0.0, 0.0, 0.1], [0.0, 0.1, 0.0]], [[0.2, 0.0, 0.0]]]\n\
        disp_offsets: [[0.0, 0.0, 0.0], [1.0, 0.0, 0.0]]\n\
        joint_types: [[\"revolute\", \"revolute\"], [\"prismatic\"]]\n";
    assert_eq!(text, expected);
}
