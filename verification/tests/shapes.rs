use kinematics_config::check_shapes;
use kinematics_config::config_from_str;
use kinematics_config::extract_config;
use kinematics_config::DocNode;
use kinematics_config::Shape;

fn shape_doc(joint_names: &str, axis_types: &str, joint_types: &str) -> String {
    let mut text = String::new();
    text.push_str("urdf_file_name: r.urdf\n");
    text.push_str("fixed_frame: base\n");
    text.push_str(&format!("joint_names: {}\n", joint_names));
    text.push_str("joint_ordering: []\n");
    text.push_str("ee_fixed_joints: []\n");
    text.push_str("starting_config: []\n");
    text.push_str("collision_file_name: c.yaml\n");
    text.push_str("collision_nn_file: n.net\n");
    text.push_str("path_to_src: /src\n");
    text.push_str(&format!("axis_types: {}\n", axis_types));
    text.push_str("velocity_limits: []\n");
    text.push_str("joint_limits: []\n");
    text.push_str("displacements: []\n");
    text.push_str("disp_offsets: []\n");
    text.push_str(&format!("joint_types: {}\n", joint_types));
    text.push_str("joint_state_define_func_file: j.py\n");
    text
}

#[test]
fn nested_lengths_mirror_the_source() {
    let text = shape_doc(
        "[[\"a\", \"b\"], [], [\"c\"]]",
        "[[\"x\", \"y\"], [], [\"z\"]]",
        "[[\"r\", \"r\"], [], [\"p\"]]",
    );
    let cfg = config_from_str(&text).expect("document must load");
    assert_eq!(cfg.joint_names.len(), 3);
    assert_eq!(cfg.joint_names[0].len(), 2);
    assert_eq!(cfg.joint_names[1].len(), 0);
    assert_eq!(cfg.joint_names[2].len(), 1);
    assert_eq!(cfg.joint_names[0][1], "b");
    assert_eq!(cfg.axis_types[2][0], "z");
}

#[test]
fn zero_chains_are_permitted() {
    let text = shape_doc("[]", "[]", "[]");
    let cfg = config_from_str(&text).expect("zero chains must load");
    assert_eq!(cfg.joint_names.len(), 0);
    assert_eq!(cfg.joint_ordering.len(), 0);
    assert_eq!(cfg.joint_limits.len(), 0);
}

#[test]
fn extra_limit_components_are_ignored() {
    let text = shape_doc("[[\"a\"]]", "[[\"x\"]]", "[[\"r\"]]");
    let text = text.replace("joint_limits: []", "joint_limits: [[-1.5, 2.5, 9.0, 7.0]]");
    let cfg = config_from_str(&text).expect("longer limit entries must load");
    assert_eq!(cfg.joint_limits.len(), 1);
    assert_eq!(cfg.joint_limits[0].lower.lit, "-1.5");
    assert_eq!(cfg.joint_limits[0].upper.lit, "2.5");
}

#[test]
fn extra_vector_components_are_ignored() {
    let text = shape_doc("[[\"a\"]]", "[[\"x\"]]", "[[\"r\"]]");
    let text = text.replace("disp_offsets: []", "disp_offsets: [[0.1, 0.2, 0.3, 0.4]]");
    let cfg = config_from_str(&text).expect("longer vectors must load");
    assert_eq!(cfg.disp_offsets[0].x.lit, "0.1");
    assert_eq!(cfg.disp_offsets[0].y.lit, "0.2");
    assert_eq!(cfg.disp_offsets[0].z.lit, "0.3");
}

#[test]
fn consistent_shapes_pass_the_check() {
    let text = shape_doc("[[\"a\", \"b\"]]", "[[\"x\", \"y\"]]", "[[\"r\", \"r\"]]");
    let text = text.replace("joint_ordering: []", "joint_ordering: [\"a\", \"b\"]");
    let text = text.replace("ee_fixed_joints: []", "ee_fixed_joints: [\"ee\"]");
    let text = text.replace("starting_config: []", "starting_config: [0.0, 0.0]");
    let text = text.replace("velocity_limits: []", "velocity_limits: [1.0, 1.0]");
    let text = text.replace("joint_limits: []", "joint_limits: [[-1.0, 1.0], [-1.0, 1.0]]");
    let text = text.replace(
        "displacements: []",
        "displacements: [[[0.0, 0.0, 0.0], [0.0, 0.0, 0.0]]]",
    );
    let text = text.replace("disp_offsets: []", "disp_offsets: [[0.0, 0.0, 0.0]]");
    let cfg = config_from_str(&text).expect("document must load");
    assert!(check_shapes(&cfg));
}

#[test]
fn mismatched_shapes_fail_the_check() {
    // One chain in joint_names, but the axis types list a second chain, and
    // no flat field matches the joint ordering. Loading still succeeds; only
    // the opt-in check reports the disagreement.
    let text = shape_doc("[[\"a\"]]", "[[\"x\"], [\"y\"]]", "[[\"r\"]]");
    let cfg = config_from_str(&text).expect("inconsistent shapes must still load");
    assert!(!check_shapes(&cfg));
}

#[test]
fn first_entry_wins_for_a_repeated_key() {
    let scalar = |s: &str| DocNode::Str(s.to_string());
    let empty = || DocNode::List(Vec::new());
    let entries = vec![
        ("urdf_file_name".to_string(), scalar("first.urdf")),
        ("urdf_file_name".to_string(), scalar("second.urdf")),
        ("fixed_frame".to_string(), scalar("base")),
        ("joint_names".to_string(), empty()),
        ("joint_ordering".to_string(), empty()),
        ("ee_fixed_joints".to_string(), empty()),
        ("starting_config".to_string(), empty()),
        ("collision_file_name".to_string(), scalar("c.yaml")),
        ("collision_nn_file".to_string(), scalar("n.net")),
        ("path_to_src".to_string(), scalar("/src")),
        ("axis_types".to_string(), empty()),
        ("velocity_limits".to_string(), empty()),
        ("joint_limits".to_string(), empty()),
        ("displacements".to_string(), empty()),
        ("disp_offsets".to_string(), empty()),
        ("joint_types".to_string(), empty()),
        ("joint_state_define_func_file".to_string(), scalar("j.py")),
    ];
    let cfg = extract_config(&DocNode::Mapping(entries)).expect("tree must extract");
    assert_eq!(cfg.urdf_file_name, "first.urdf");
}

#[test]
fn extraction_reports_the_first_failing_field() {
    // Both joint_names and joint_limits are malformed; the loader reads
    // joint_names first, so that is the field the error names.
    let text = shape_doc("[\"flat\"]", "[]", "[]");
    let text = text.replace("joint_limits: []", "joint_limits: [[-1.0]]");
    match config_from_str(&text) {
        Err(kinematics_config::LoadError::Schema(e)) => {
            assert_eq!(e.field, "joint_names");
            assert_eq!(e.expected, Shape::StrListList);
        },
        other => panic!("expected a schema error on joint_names, got {:?}", other),
    }
}
