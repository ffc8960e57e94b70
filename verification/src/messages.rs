//! The messages that the node exchanges with its clients, with the simulator, with the driver
//! and with the transform service.

use vstd::prelude::*;

verus! {

/// The name of the node.
pub const NODE_ID: &'static str = "ur_controller";

/// The frame in which targets are expressed.
pub const BASEFRAME_ID: &'static str = "base_link";

/// The frame in which tool centre points are expressed.
pub const FACEPLATE_ID: &'static str = "tool0";

/// A point in time.
#[derive(Clone, Copy, Debug, PartialEq)]
pub struct Time {
    pub sec: i32,
    pub nanosec: u32,
}

/// When and in which frame a message was taken.
#[derive(Clone, Debug, PartialEq)]
pub struct Header {
    pub stamp: Time,
    pub frame_id: String,
}

/// The state of a set of joints.
#[derive(Clone, Debug, PartialEq)]
pub struct JointState<D> {
    pub header: Header,
    pub name: Vec<String>,
    pub position: Vec<D>,
    pub velocity: Vec<D>,
    pub effort: Vec<D>,
}

/// What the robot carries: its mass, centre of gravity and inertia.
#[derive(Clone, Debug, PartialEq)]
pub struct Payload<P> {
    pub mass: P,
    pub cog_x: P,
    pub cog_y: P,
    pub cog_z: P,
    pub ixx: P,
    pub iyy: P,
    pub izz: P,
    pub ixy: P,
    pub ixz: P,
    pub iyz: P,
}

/// A translation with a rotation vector, whose direction is the axis of the rotation and whose
/// length is its angle.
#[derive(Clone, Copy, Debug, PartialEq)]
pub struct Pose<D> {
    pub x: D,
    pub y: D,
    pub z: D,
    pub rx: D,
    pub ry: D,
    pub rz: D,
}

/// A goal of the node's own action server.
#[derive(Clone, Debug, PartialEq)]
pub struct UrControlGoal<D, S, P> {
    pub command: String,
    pub acceleration: D,
    pub velocity: D,
    pub use_execution_time: bool,
    pub execution_time: S,
    pub use_blend_radius: bool,
    pub blend_radius: S,
    pub use_joint_positions: bool,
    pub joint_positions: JointState<D>,
    pub use_preferred_joint_config: bool,
    pub preferred_joint_config: JointState<D>,
    pub use_payload: bool,
    pub payload: Payload<P>,
    pub goal_feature_id: String,
    pub tcp_id: String,
}

/// A goal of the simulator's action server.
#[derive(Clone, Debug, PartialEq)]
pub struct SimpleRobotControlGoal<D> {
    pub base_frame_id: String,
    pub face_plate_id: String,
    pub tcp_id: String,
    pub goal_feature_id: String,
    pub acceleration: D,
    pub velocity: D,
    pub use_joint_positions: bool,
    pub joint_positions: JointState<D>,
}

/// A question to the transform service: where is the child frame, seen from the parent frame?
#[derive(Clone, Debug, PartialEq)]
pub struct LookupRequest {
    pub parent_frame_id: String,
    pub child_frame_id: String,
}

/// The answer of the transform service. The transform means something only on success.
#[derive(Clone, Copy, Debug, PartialEq)]
pub struct LookupResponse<D> {
    pub success: bool,
    pub transform: Pose<D>,
}

/// The two frames of a lookup.
pub struct LookupRequestView {
    pub parent_frame_id: Seq<char>,
    pub child_frame_id: Seq<char>,
}

impl View for LookupRequest {
    type V = LookupRequestView;

    open spec fn view(&self) -> LookupRequestView {
        LookupRequestView {
            parent_frame_id: self.parent_frame_id@,
            child_frame_id: self.child_frame_id@,
        }
    }
}

/// A goal for the simulator, with its names as sequences of characters.
pub struct SimpleRobotControlGoalView<D> {
    pub base_frame_id: Seq<char>,
    pub face_plate_id: Seq<char>,
    pub tcp_id: Seq<char>,
    pub goal_feature_id: Seq<char>,
    pub acceleration: D,
    pub velocity: D,
    pub use_joint_positions: bool,
    pub joint_positions: JointState<D>,
}

impl<D> View for SimpleRobotControlGoal<D> {
    type V = SimpleRobotControlGoalView<D>;

    open spec fn view(&self) -> SimpleRobotControlGoalView<D> {
        SimpleRobotControlGoalView {
            base_frame_id: self.base_frame_id@,
            face_plate_id: self.face_plate_id@,
            tcp_id: self.tcp_id@,
            goal_feature_id: self.goal_feature_id@,
            acceleration: self.acceleration,
            velocity: self.velocity,
            use_joint_positions: self.use_joint_positions,
            joint_positions: self.joint_positions,
        }
    }
}

} // verus!
