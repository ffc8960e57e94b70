use ur_controller::interpretation::interpret_message;
use ur_controller::messages::{Header, JointState, Payload, Pose, Time, UrControlGoal};
use ur_controller::script::{generate_script, generation, script_context};
use ur_controller::templates::template_names;

fn joints(position: Vec<f64>) -> JointState<f64> {
    JointState {
        header: Header { stamp: Time { sec: 0, nanosec: 0 }, frame_id: "".to_string() },
        name: vec![],
        position,
        velocity: vec![],
        effort: vec![],
    }
}

fn goal(command: &str, use_joint_positions: bool) -> UrControlGoal<f64, f32, f32> {
    UrControlGoal {
        command: command.to_string(),
        acceleration: 0.5,
        velocity: 2.0,
        use_execution_time: true,
        execution_time: 0.1,
        use_blend_radius: false,
        blend_radius: 0.0,
        use_joint_positions,
        joint_positions: joints(vec![0.0, 1.0, 2.0, 3.0, 4.0, 5.0]),
        use_preferred_joint_config: false,
        preferred_joint_config: joints(vec![]),
        use_payload: false,
        payload: Payload {
            mass: 0.0,
            cog_x: 0.0,
            cog_y: 0.0,
            cog_z: 0.0,
            ixx: 0.0,
            iyy: 0.0,
            izz: 0.0,
            ixy: 0.0,
            ixz: 0.0,
            iyz: 0.0,
        },
        goal_feature_id: "box".to_string(),
        tcp_id: "gripper".to_string(),
    }
}

fn pose() -> Pose<f64> {
    Pose { x: 1.0, y: 2.0, z: 3.0, rx: 0.0, ry: 0.5, rz: 0.0 }
}

fn store() -> tera::Tera {
    let mut store = tera::Tera::default();
    store
        .add_raw_templates(vec![
            (
                "move_j.script",
                "movej({{ joint_positions }}, a={{ acceleration }}, v={{ velocity }}, \
                 t={{ execution_time }})",
            ),
            ("move_l.script", "set_tcp({{ tcp_in_faceplate }}) movel({{ target_in_base }})"),
            ("stop.script", "stopj(2)"),
        ])
        .unwrap();
    store
}

#[test]
fn joint_move_is_rendered_without_lookups() {
    let g = generate_script(&goal("move_j", true), None, None, &store());
    assert_eq!(
        g.script,
        Ok("movej([0,1,2,3,4,5], a=0.5, v=2, t=0.10000000149011612)".to_string())
    );
    assert_eq!(g.context_error, None);
}

#[test]
fn linear_move_is_rendered_over_its_frames() {
    let g = generate_script(&goal("move_l", false), Some(pose()), Some(pose()), &store());
    assert_eq!(
        g.script,
        Ok("set_tcp(p[1,2,3,0,0.5,0]) movel(p[1,2,3,0,0.5,0])".to_string())
    );
}

#[test]
fn missing_frame_leaves_the_template_without_variables() {
    let g = generate_script(&goal("move_l", false), None, None, &store());
    assert!(g.script.is_err());
    assert_eq!(
        g.context_error,
        Some(
            "Creating a Context from a Value/Serialize requires it being a JSON object".to_string()
        )
    );
}

#[test]
fn template_without_variables_renders_in_spite_of_a_missing_frame() {
    let g = generate_script(&goal("stop", false), Some(pose()), None, &store());
    assert_eq!(g.script, Ok("stopj(2)".to_string()));
    assert!(g.context_error.is_some());
}

#[test]
fn unknown_command_has_no_script() {
    let g = generate_script(&goal("dance", false), Some(pose()), Some(pose()), &store());
    assert_eq!(g.script, Err("Template 'dance.script' not found".to_string()));
    assert_eq!(g.context_error, None);
}

#[test]
fn text_of_a_variable_is_not_escaped() {
    let mut store = tera::Tera::default();
    store.add_raw_template("<&>.script", "{{ command }}").unwrap();
    let g = generate_script(&goal("<&>", false), Some(pose()), Some(pose()), &store);
    assert_eq!(g.script, Ok("<&>".to_string()));
}

#[test]
fn context_holds_the_variables() {
    let (context, error) = script_context(interpret_message(&goal("move_j", true), None, None));
    assert_eq!(error, None);
    assert_eq!(context.get("command").unwrap().as_str(), Some("move_j"));
    assert_eq!(context.get("use_payload").unwrap().as_bool(), Some(false));
    assert_eq!(context.get("velocity").unwrap().as_f64(), Some(2.0));
    assert_eq!(context.into_json().as_object().unwrap().len(), 15);
}

#[test]
fn no_meaning_gives_the_empty_context() {
    let (context, error) = script_context(interpret_message(&goal("move_l", true), None, None));
    assert!(error.is_some());
    assert_eq!(context, tera::Context::new());
}

#[test]
fn rendering_decides_the_script() {
    let g = generation(Some("no object".to_string()), Ok("stopj(2)".to_string()));
    assert_eq!(g.context_error, Some("no object".to_string()));
    assert_eq!(g.script, Ok("stopj(2)".to_string()));
    let g = generation(None, Err(tera::Error::msg("broken")));
    assert_eq!(g.context_error, None);
    assert_eq!(g.script, Err("broken".to_string()));
}

#[test]
fn each_template_is_named_once() {
    let mut names = template_names(&store());
    names.sort();
    assert_eq!(names, vec!["move_j.script", "move_l.script", "stop.script"]);
    assert!(template_names(&tera::Tera::default()).is_empty());
}
