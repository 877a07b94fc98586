use kinematics_config::config_from_str;
use kinematics_config::LoadError;
use kinematics_config::Shape;

fn doc_lines() -> Vec<(&'static str, &'static str)> {
    vec![
        ("urdf_file_name", "urdf_file_name: ur5.urdf"),
        ("fixed_frame", "fixed_frame: base_link"),
        ("joint_names", "joint_names: [[\"j1\"]]"),
        ("joint_ordering", "joint_ordering: [\"j1\"]"),
        ("ee_fixed_joints", "ee_fixed_joints: [\"ee\"]"),
        ("starting_config", "starting_config: [0.0]"),
        ("collision_file_name", "collision_file_name: collision.yaml"),
        ("collision_nn_file", "collision_nn_file: nn.net"),
        ("path_to_src", "path_to_src: /home/robot/src"),
        ("axis_types", "axis_types: [[\"z\"]]"),
        ("velocity_limits", "velocity_limits: [1.5]"),
        ("joint_limits", "joint_limits: [[-1.0, 1.0]]"),
        ("displacements", "displacements: [[[0.0, 0.0, 0.1]]]"),
        ("disp_offsets", "disp_offsets: [[0.0, 0.0, 0.0]]"),
        ("joint_types", "joint_types: [[\"revolute\"]]"),
        ("joint_state_define_func_file", "joint_state_define_func_file: jsd.py"),
    ]
}

fn minimal_doc() -> String {
    let mut text = String::new();
    for (_, line) in doc_lines() {
        text.push_str(line);
        text.push('\n');
    }
    text
}

fn doc_without(key: &str) -> String {
    let mut text = String::new();
    for (k, line) in doc_lines() {
        if k != key {
            text.push_str(line);
            text.push('\n');
        }
    }
    text
}

#[test]
fn minimal_valid_document_loads() {
    let cfg = config_from_str(&minimal_doc()).expect("minimal document must load");
    assert_eq!(cfg.urdf_file_name, "ur5.urdf");
    assert_eq!(cfg.fixed_frame, "base_link");
    assert_eq!(cfg.joint_names, vec![vec!["j1".to_string()]]);
    assert_eq!(cfg.joint_ordering, vec!["j1".to_string()]);
    assert_eq!(cfg.ee_fixed_joints, vec!["ee".to_string()]);
    assert_eq!(cfg.starting_config.len(), 1);
    assert_eq!(cfg.starting_config[0].lit, "0.0");
    assert_eq!(cfg.collision_file_name, "collision.yaml");
    assert_eq!(cfg.collision_nn_file, "nn.net");
    assert_eq!(cfg.path_to_src, "/home/robot/src");
    assert_eq!(cfg.axis_types, vec![vec!["z".to_string()]]);
    assert_eq!(cfg.velocity_limits[0].lit, "1.5");
    assert_eq!(cfg.joint_types, vec![vec!["revolute".to_string()]]);
    assert_eq!(cfg.joint_state_define_func_file, "jsd.py");
    assert_eq!(cfg.joint_limits.len(), 1);
    assert_eq!(cfg.joint_limits[0].lower.lit, "-1.0");
    assert_eq!(cfg.joint_limits[0].upper.lit, "1.0");
    let lower: f64 = cfg.joint_limits[0].lower.lit.parse().unwrap();
    let upper: f64 = cfg.joint_limits[0].upper.lit.parse().unwrap();
    assert_eq!(lower, -1.0);
    assert_eq!(upper, 1.0);
    assert_eq!(cfg.displacements.len(), 1);
    assert_eq!(cfg.displacements[0].len(), 1);
    assert_eq!(cfg.displacements[0][0].z.lit, "0.1");
    assert_eq!(cfg.disp_offsets.len(), 1);
    assert_eq!(cfg.disp_offsets[0].x.lit, "0.0");
}

#[test]
fn one_component_limit_fails() {
    let mut text = doc_without("joint_limits");
    text.push_str("joint_limits: [[-1.0]]\n");
    match config_from_str(&text) {
        Err(LoadError::Schema(e)) => {
            assert_eq!(e.field, "joint_limits");
            assert_eq!(e.expected, Shape::PairList);
        },
        other => panic!("expected a schema error on joint_limits, got {:?}", other),
    }
}

#[test]
fn absent_urdf_file_name_fails() {
    match config_from_str(&doc_without("urdf_file_name")) {
        Err(LoadError::Schema(e)) => {
            assert_eq!(e.field, "urdf_file_name");
            assert_eq!(e.expected, Shape::Str);
        },
        other => panic!("expected a schema error on urdf_file_name, got {:?}", other),
    }
}

#[test]
fn second_document_is_ignored() {
    let mut text = minimal_doc();
    text.push_str("---\n");
    text.push_str("urdf_file_name: other.urdf\n");
    let cfg = config_from_str(&text).expect("two-document text must load from the first");
    assert_eq!(cfg.urdf_file_name, "ur5.urdf");
}

#[test]
fn omitting_any_required_key_names_that_key() {
    for (key, _) in doc_lines() {
        match config_from_str(&doc_without(key)) {
            Err(LoadError::Schema(e)) => assert_eq!(e.field, key),
            other => panic!("omitting {} should fail with a schema error, got {:?}", key, other),
        }
    }
}

#[test]
fn string_in_starting_config_is_rejected() {
    let mut text = doc_without("starting_config");
    text.push_str("starting_config: [\"hello\"]\n");
    match config_from_str(&text) {
        Err(LoadError::Schema(e)) => {
            assert_eq!(e.field, "starting_config");
            assert_eq!(e.expected, Shape::RealList);
        },
        other => panic!("expected a schema error on starting_config, got {:?}", other),
    }
}

#[test]
fn string_in_velocity_limits_is_rejected() {
    let mut text = doc_without("velocity_limits");
    text.push_str("velocity_limits: [fast]\n");
    match config_from_str(&text) {
        Err(LoadError::Schema(e)) => {
            assert_eq!(e.field, "velocity_limits");
            assert_eq!(e.expected, Shape::RealList);
        },
        other => panic!("expected a schema error on velocity_limits, got {:?}", other),
    }
}

#[test]
fn integer_is_not_coerced_to_real() {
    let mut text = doc_without("starting_config");
    text.push_str("starting_config: [0]\n");
    match config_from_str(&text) {
        Err(LoadError::Schema(e)) => assert_eq!(e.field, "starting_config"),
        other => panic!("an integer scalar must not pass as a float, got {:?}", other),
    }
}

#[test]
fn list_in_place_of_string_scalar_fails() {
    let mut text = doc_without("fixed_frame");
    text.push_str("fixed_frame: [base_link]\n");
    match config_from_str(&text) {
        Err(LoadError::Schema(e)) => {
            assert_eq!(e.field, "fixed_frame");
            assert_eq!(e.expected, Shape::Str);
        },
        other => panic!("expected a schema error on fixed_frame, got {:?}", other),
    }
}

#[test]
fn two_component_displacement_fails() {
    let mut text = doc_without("displacements");
    text.push_str("displacements: [[[0.0, 0.0]]]\n");
    match config_from_str(&text) {
        Err(LoadError::Schema(e)) => {
            assert_eq!(e.field, "displacements");
            assert_eq!(e.expected, Shape::TripleListList);
        },
        other => panic!("expected a schema error on displacements, got {:?}", other),
    }
}

#[test]
fn short_disp_offset_fails() {
    let mut text = doc_without("disp_offsets");
    text.push_str("disp_offsets: [[0.0]]\n");
    match config_from_str(&text) {
        Err(LoadError::Schema(e)) => {
            assert_eq!(e.field, "disp_offsets");
            assert_eq!(e.expected, Shape::TripleList);
        },
        other => panic!("expected a schema error on disp_offsets, got {:?}", other),
    }
}

#[test]
fn malformed_markup_is_a_parse_error() {
    match config_from_str("joint_names: [unclosed") {
        Err(LoadError::Parse) => {},
        other => panic!("expected a parse error, got {:?}", other),
    }
}

#[test]
fn empty_text_holds_no_document() {
    match config_from_str("") {
        Err(LoadError::NoDocument) => {},
        other => panic!("expected the no-document error, got {:?}", other),
    }
}
