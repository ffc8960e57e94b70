use ur_controller::interpretation::{
    interpret_message, lookup_request, lookup_tf, moves_by_joints, variables, IDENTITY_POSE,
};
use ur_controller::messages::{
    Header, JointState, LookupRequest, LookupResponse, Payload, Pose, Time, UrControlGoal,
};
use ur_controller::text::pose_to_string;

fn joints(position: Vec<f64>) -> JointState<f64> {
    JointState {
        header: Header { stamp: Time { sec: 0, nanosec: 0 }, frame_id: "".to_string() },
        name: vec![],
        position,
        velocity: vec![],
        effort: vec![],
    }
}

fn goal(command: &str, use_joint_positions: bool) -> UrControlGoal<f64, f32, f64> {
    UrControlGoal {
        command: command.to_string(),
        acceleration: 0.3,
        velocity: 0.25,
        use_execution_time: true,
        execution_time: 1.5,
        use_blend_radius: false,
        blend_radius: 0.125,
        use_joint_positions,
        joint_positions: joints(vec![0.0, 1.0, 2.0, 3.0, 4.0, 5.0]),
        use_preferred_joint_config: true,
        preferred_joint_config: joints(vec![1.0]),
        use_payload: true,
        payload: Payload {
            mass: 2.0,
            cog_x: 0.0,
            cog_y: 0.0,
            cog_z: 0.5,
            ixx: 0.0,
            iyy: 0.0,
            izz: 0.0,
            ixy: 0.0,
            ixz: 0.0,
            iyz: 0.0,
        },
        goal_feature_id: "box".to_string(),
        tcp_id: "gripper".to_string(),
    }
}

fn pose(x: f64) -> Pose<f64> {
    Pose { x, y: 2.0, z: 3.0, rx: 0.0, ry: 0.5, rz: 0.0 }
}

#[test]
fn joint_move_needs_both_the_command_and_the_flag() {
    assert!(moves_by_joints(&goal("move_j", true)));
    assert!(!moves_by_joints(&goal("move_j", false)));
    assert!(!moves_by_joints(&goal("move_l", true)));
    assert!(!moves_by_joints(&goal("move_l", false)));
}

#[test]
fn request_names_both_frames() {
    assert_eq!(
        lookup_request("base_link", "box"),
        LookupRequest {
            parent_frame_id: "base_link".to_string(),
            child_frame_id: "box".to_string(),
        }
    );
}

#[test]
fn transform_counts_only_on_success() {
    let found = LookupResponse { success: true, transform: pose(1.0) };
    let missed = LookupResponse { success: false, transform: pose(1.0) };
    assert_eq!(lookup_tf(found), Some(pose(1.0)));
    assert_eq!(lookup_tf(missed), None);
}

#[test]
fn identity_literal_is_the_pose_of_zeros() {
    let zeros = Pose { x: 0.0, y: 0.0, z: 0.0, rx: 0.0, ry: 0.0, rz: 0.0 };
    assert_eq!(pose_to_string(&zeros), IDENTITY_POSE);
    assert_eq!(IDENTITY_POSE, "p[0,0,0,0,0,0]");
}

#[test]
fn joint_move_gets_the_identity_for_both_frames() {
    let i = interpret_message(&goal("move_j", true), None, None).unwrap();
    assert_eq!(i.target_in_base, "p[0,0,0,0,0,0]");
    assert_eq!(i.tcp_in_faceplate, "p[0,0,0,0,0,0]");
    let same = interpret_message(&goal("move_j", true), Some(pose(1.0)), Some(pose(4.0)));
    assert_eq!(same, Some(i));
}

#[test]
fn joint_moves_that_differ_in_their_frames_mean_the_same() {
    let mut elsewhere = goal("move_j", true);
    elsewhere.goal_feature_id = "shelf".to_string();
    elsewhere.tcp_id = "".to_string();
    let meaning = interpret_message(&elsewhere, Some(pose(1.0)), None);
    assert!(meaning.is_some());
    assert_eq!(meaning, interpret_message(&goal("move_j", true), None, Some(pose(4.0))));
}

#[test]
fn meaning_takes_the_goal_over() {
    let i = interpret_message(&goal("move_l", true), Some(pose(1.0)), Some(pose(4.0))).unwrap();
    assert_eq!(i.command, "move_l");
    assert_eq!(i.acceleration, 0.3);
    assert_eq!(i.velocity, 0.25);
    assert!(i.use_execution_time);
    assert_eq!(i.execution_time, 1.5);
    assert!(!i.use_blend_radius);
    assert_eq!(i.blend_radius, 0.125);
    assert!(i.use_joint_positions);
    assert_eq!(i.joint_positions, "[0,1,2,3,4,5]");
    assert!(i.use_preferred_joint_config);
    assert_eq!(i.preferred_joint_config, "");
    assert!(i.use_payload);
    assert_eq!(i.payload, "2,[0,0,0.5],[0,0,0,0,0,0]");
    assert_eq!(i.target_in_base, "p[1,2,3,0,0.5,0]");
    assert_eq!(i.tcp_in_faceplate, "p[4,2,3,0,0.5,0]");
}

#[test]
fn other_goals_need_both_frames() {
    let g = goal("move_j", false);
    assert!(interpret_message(&g, Some(pose(1.0)), Some(pose(2.0))).is_some());
    assert_eq!(interpret_message(&g, None, Some(pose(2.0))), None);
    assert_eq!(interpret_message(&g, Some(pose(1.0)), None), None);
    assert_eq!(interpret_message(&g, None, None), None);
}

#[test]
fn variables_are_the_fields_under_their_names() {
    let i = interpret_message(&goal("move_j", true), None, None).unwrap();
    let fields = variables(&i);
    let names: Vec<&str> = fields.iter().map(|f| f.0.as_str()).collect();
    assert_eq!(
        names,
        vec![
            "command",
            "acceleration",
            "velocity",
            "use_execution_time",
            "execution_time",
            "use_blend_radius",
            "blend_radius",
            "use_joint_positions",
            "joint_positions",
            "use_preferred_joint_config",
            "preferred_joint_config",
            "use_payload",
            "payload",
            "target_in_base",
            "tcp_in_faceplate",
        ]
    );
    assert_eq!(fields[0].1.as_str(), Some("move_j"));
    assert_eq!(fields[1].1.as_f64(), Some(0.3));
    assert_eq!(fields[2].1.as_f64(), Some(0.25));
    assert_eq!(fields[3].1.as_bool(), Some(true));
    assert_eq!(fields[4].1.as_f64(), Some(1.5));
    assert_eq!(fields[5].1.as_bool(), Some(false));
    assert_eq!(fields[6].1.as_f64(), Some(0.125));
    assert_eq!(fields[7].1.as_bool(), Some(true));
    assert_eq!(fields[8].1.as_str(), Some("[0,1,2,3,4,5]"));
    assert_eq!(fields[9].1.as_bool(), Some(true));
    assert_eq!(fields[10].1.as_str(), Some(""));
    assert_eq!(fields[11].1.as_bool(), Some(true));
    assert_eq!(fields[12].1.as_str(), Some("2,[0,0,0.5],[0,0,0,0,0,0]"));
    assert_eq!(fields[13].1.as_str(), Some("p[0,0,0,0,0,0]"));
    assert_eq!(fields[14].1.as_str(), Some("p[0,0,0,0,0,0]"));
}

#[test]
fn a_number_without_json_form_becomes_null() {
    let mut g = goal("move_j", true);
    g.acceleration = f64::NAN;
    let fields = variables(&interpret_message(&g, None, None).unwrap());
    assert!(fields[1].1.is_null());
}
