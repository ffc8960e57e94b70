use ur_controller::messages::{Header, JointState, Payload, Pose, Time};
use ur_controller::text::{
    join_with_commas, joint_pose_to_string, list_numbers, payload_to_string, pose_to_string,
};

fn joints(position: Vec<f64>) -> JointState<f64> {
    JointState {
        header: Header { stamp: Time { sec: 7, nanosec: 9 }, frame_id: "world".to_string() },
        name: vec!["shoulder".to_string()],
        position,
        velocity: vec![],
        effort: vec![],
    }
}

fn payload(mass: f64) -> Payload<f64> {
    Payload {
        mass,
        cog_x: 0.1,
        cog_y: -0.2,
        cog_z: 0.0,
        ixx: 1.0,
        iyy: 2.0,
        izz: 3.0,
        ixy: 4.5,
        ixz: 5.25,
        iyz: -6.125,
    }
}

#[test]
fn nothing_joins_to_nothing() {
    assert_eq!(join_with_commas(&vec![]), "");
}

#[test]
fn one_item_has_no_comma() {
    assert_eq!(join_with_commas(&vec!["a".to_string()]), "a");
}

#[test]
fn items_are_joined_with_commas() {
    let items = vec!["a".to_string(), "".to_string(), "b".to_string()];
    assert_eq!(join_with_commas(&items), "a,,b");
}

#[test]
fn numbers_are_listed_in_order() {
    assert_eq!(list_numbers(&vec![1.0, 0.5, -2.0]), "1,0.5,-2");
    assert_eq!(list_numbers(&vec![3u8, 2, 1]), "3,2,1");
}

#[test]
fn six_joints_stand_in_brackets() {
    let j = joints(vec![0.0, -1.5708, 1.5, -0.25, 3.0, 6.28]);
    assert_eq!(joint_pose_to_string(&j), "[0,-1.5708,1.5,-0.25,3,6.28]");
}

#[test]
fn any_other_number_of_joints_gives_nothing() {
    assert_eq!(joint_pose_to_string(&joints(vec![])), "");
    assert_eq!(joint_pose_to_string(&joints(vec![1.0; 5])), "");
    assert_eq!(joint_pose_to_string(&joints(vec![1.0; 7])), "");
}

#[test]
fn payload_has_mass_centre_and_inertia() {
    assert_eq!(payload_to_string(&payload(1.5)), "1.5,[0.1,-0.2,0],[1,2,3,4.5,5.25,-6.125]");
}

#[test]
fn single_precision_payload_shows_its_own_digits() {
    let p = Payload {
        mass: 0.1f32,
        cog_x: 0.2f32,
        cog_y: 0.0f32,
        cog_z: 0.0f32,
        ixx: 0.0f32,
        iyy: 0.0f32,
        izz: 0.0f32,
        ixy: 0.0f32,
        ixz: 0.0f32,
        iyz: 0.0f32,
    };
    assert_eq!(payload_to_string(&p), "0.1,[0.2,0,0],[0,0,0,0,0,0]");
}

#[test]
fn pose_is_a_literal() {
    let p = Pose { x: 0.1, y: -0.2, z: 0.3, rx: 0.0, ry: 1.5, rz: -3.0 };
    assert_eq!(pose_to_string(&p), "p[0.1,-0.2,0.3,0,1.5,-3]");
}

fn parsed(list: &str) -> Vec<f64> {
    list.split(',').map(|item| item.parse().unwrap()).collect()
}

#[test]
fn pose_literal_parses_back() {
    let p = Pose { x: 0.1, y: -1.0e-9, z: 1.0e21, rx: f64::NAN, ry: 1.0 / 3.0, rz: -0.0 };
    let text = pose_to_string(&p);
    let items = parsed(text.strip_prefix("p[").unwrap().strip_suffix("]").unwrap());
    assert_eq!(items.len(), 6);
    assert_eq!(items[..3], [0.1, -1.0e-9, 1.0e21]);
    assert_eq!(items[4], 1.0 / 3.0);
}

#[test]
fn joint_text_parses_back() {
    let position = vec![0.1, -1.5708, 1.0 / 3.0, 2.5e-7, 1.0e16, f64::MAX];
    let text = joint_pose_to_string(&joints(position.clone()));
    assert_eq!(parsed(text.strip_prefix("[").unwrap().strip_suffix("]").unwrap()), position);
}

#[test]
fn payload_text_parses_back() {
    let text = payload_to_string(&payload(1.0 / 3.0)).replace('[', "").replace(']', "");
    assert_eq!(
        parsed(&text),
        vec![1.0 / 3.0, 0.1, -0.2, 0.0, 1.0, 2.0, 3.0, 4.5, 5.25, -6.125]
    );
}

#[test]
fn different_poses_have_different_literals() {
    let p = Pose { x: 1.0, y: 12.0, z: 0.0, rx: 0.0, ry: 0.0, rz: 0.0 };
    let q = Pose { x: 11.0, y: 2.0, z: 0.0, rx: 0.0, ry: 0.0, rz: 0.0 };
    assert_ne!(pose_to_string(&p), pose_to_string(&q));
}

#[test]
fn different_payloads_have_different_texts() {
    assert_ne!(payload_to_string(&payload(1.0)), payload_to_string(&payload(2.0)));
}

#[test]
fn different_joints_have_different_texts() {
    let p = joints(vec![1.0, 12.0, 0.0, 0.0, 0.0, 0.0]);
    let q = joints(vec![11.0, 2.0, 0.0, 0.0, 0.0, 0.0]);
    assert_ne!(joint_pose_to_string(&p), joint_pose_to_string(&q));
}
