use ur_controller::action::{request_failure, GoalStatus, Reply, RequestOutcome, ResultOutcome};
use ur_controller::messages::{
    Header, JointState, Payload, SimpleRobotControlGoal, Time, UrControlGoal,
};
use ur_controller::simulation::{
    end_simulation, execute_simple_simulation, is_expected, reply_to, simple_controller_server,
    start, urc_goal_to_srs_goal, SimulationEffect, SimulationEvent, SimulationState,
};

type Event = SimulationEvent<f64, f32, f64, &'static str>;
type Requested = RequestOutcome<&'static str>;
type Ended = ResultOutcome<(), &'static str>;

fn joints(position: Vec<f64>) -> JointState<f64> {
    JointState {
        header: Header { stamp: Time { sec: 3, nanosec: 4 }, frame_id: "world".to_string() },
        name: vec!["elbow".to_string()],
        position,
        velocity: vec![0.5],
        effort: vec![0.25],
    }
}

fn goal() -> UrControlGoal<f64, f32, f64> {
    UrControlGoal {
        command: "move_j".to_string(),
        acceleration: 0.3,
        velocity: 0.25,
        use_execution_time: true,
        execution_time: 1.5,
        use_blend_radius: false,
        blend_radius: 0.125,
        use_joint_positions: true,
        joint_positions: joints(vec![1.0, 2.0]),
        use_preferred_joint_config: true,
        preferred_joint_config: joints(vec![]),
        use_payload: true,
        payload: Payload {
            mass: 2.0,
            cog_x: 0.0,
            cog_y: 0.0,
            cog_z: 0.5,
            ixx: 0.0,
            iyy: 0.0,
            izz: 0.0,
            ixy: 0.0,
            ixz: 0.0,
            iyz: 0.0,
        },
        goal_feature_id: "box".to_string(),
        tcp_id: "gripper".to_string(),
    }
}

fn simulated(prefix: &str) -> SimpleRobotControlGoal<f64> {
    SimpleRobotControlGoal {
        base_frame_id: format!("{}base_link", prefix),
        face_plate_id: format!("{}tool0", prefix),
        tcp_id: "gripper".to_string(),
        goal_feature_id: "box".to_string(),
        acceleration: 0.3,
        velocity: 0.25,
        use_joint_positions: true,
        joint_positions: joints(vec![1.0, 2.0]),
    }
}

fn feedback(text: &str) -> SimulationEffect<f64> {
    SimulationEffect::Feedback(text.to_string())
}

fn run(events: Vec<Event>) -> (SimulationState, Vec<SimulationEffect<f64>>) {
    let (mut state, mut effects) = start();
    for event in events {
        assert!(is_expected(state, &event));
        let (next, more) = simple_controller_server(state, event, "");
        state = next;
        effects.extend(more);
    }
    (state, effects)
}

#[test]
fn frames_of_the_robot_get_the_prefix() {
    assert_eq!(urc_goal_to_srs_goal(goal(), "left_"), simulated("left_"));
    assert_eq!(urc_goal_to_srs_goal(goal(), "left_").base_frame_id, "left_base_link");
}

#[test]
fn without_a_prefix_the_frames_keep_their_names() {
    assert_eq!(urc_goal_to_srs_goal(goal(), "").base_frame_id, "base_link");
    assert_eq!(urc_goal_to_srs_goal(goal(), "").face_plate_id, "tool0");
}

#[test]
fn execution_begins_with_feedback_and_a_request() {
    assert_eq!(
        execute_simple_simulation(goal(), "r_"),
        vec![
            feedback("Sending request to Simple Robot Simulator."),
            SimulationEffect::Send(simulated("r_")),
        ]
    );
}

#[test]
fn requests_fail_in_two_ways() {
    assert_eq!(request_failure(RequestOutcome::NotSent("no client")), Some("no client"));
    assert_eq!(request_failure(RequestOutcome::NotAccepted("rejected")), Some("rejected"));
    assert_eq!(request_failure(Requested::Accepted), None);
}

#[test]
fn aborted_simulation_still_ends_well() {
    let outcome = Ended::Finished { status: GoalStatus::Aborted, message: () };
    assert_eq!(end_simulation(outcome), ("Goal succesfully aborted.".to_string(), Ok(())));
}

#[test]
fn every_other_status_ends_well() {
    for status in [
        GoalStatus::Unknown,
        GoalStatus::Accepted,
        GoalStatus::Executing,
        GoalStatus::Canceling,
        GoalStatus::Succeeded,
        GoalStatus::Canceled,
    ] {
        assert_eq!(
            end_simulation(Ended::Finished { status, message: () }),
            ("Executing the Simple Robot Simulator action succeeded.".to_string(), Ok(()))
        );
    }
}

#[test]
fn lost_simulation_fails() {
    assert_eq!(
        end_simulation(ResultOutcome::Lost("gone")),
        ("Simple Robot Simulator action failed. Aborting.".to_string(), Err("gone"))
    );
}

#[test]
fn simulation_replies_follow_the_end() {
    let done: Result<(), &str> = Ok(());
    assert_eq!(reply_to(done), Reply::Succeed { success: true });
    assert_eq!(reply_to(Err("gone")), Reply::Abort { success: false });
}

#[test]
fn simulated_goal_runs_its_course() {
    let (state, effects) = run(vec![
        SimulationEvent::Request(Some(goal())),
        SimulationEvent::Sent(RequestOutcome::Accepted),
        SimulationEvent::Ended(ResultOutcome::Finished {
            status: GoalStatus::Succeeded,
            message: (),
        }),
    ]);
    assert_eq!(state, SimulationState::Idle);
    assert_eq!(
        effects,
        vec![
            SimulationEffect::NextRequest,
            SimulationEffect::Accept,
            feedback("Sending request to Simple Robot Simulator."),
            SimulationEffect::Send(simulated("")),
            SimulationEffect::AwaitResult,
            feedback("Executing the Simple Robot Simulator action succeeded."),
            SimulationEffect::Reply(Reply::Succeed { success: true }),
            SimulationEffect::NextRequest,
        ]
    );
}

#[test]
fn simulation_that_cannot_be_asked_is_aborted() {
    for outcome in [RequestOutcome::NotSent("no client"), RequestOutcome::NotAccepted("rejected")] {
        let (state, effects) =
            run(vec![SimulationEvent::Request(Some(goal())), SimulationEvent::Sent(outcome)]);
        assert_eq!(state, SimulationState::Idle);
        assert_eq!(
            effects[4..],
            [
                SimulationEffect::Reply(Reply::Abort { success: false }),
                SimulationEffect::NextRequest,
            ]
        );
    }
}

#[test]
fn lost_result_aborts_the_goal() {
    let (state, effects) = run(vec![
        SimulationEvent::Request(Some(goal())),
        SimulationEvent::Sent(RequestOutcome::Accepted),
        SimulationEvent::Ended(ResultOutcome::Lost("gone")),
    ]);
    assert_eq!(state, SimulationState::Idle);
    assert_eq!(
        effects[5..],
        [
            feedback("Simple Robot Simulator action failed. Aborting."),
            SimulationEffect::Reply(Reply::Abort { success: false }),
            SimulationEffect::NextRequest,
        ]
    );
}

#[test]
fn empty_request_asks_again() {
    let (state, effects) = run(vec![SimulationEvent::Request(None)]);
    assert_eq!(state, SimulationState::Idle);
    assert_eq!(effects, vec![SimulationEffect::NextRequest, SimulationEffect::NextRequest]);
}

#[test]
fn simulation_expects_one_sort_of_event_at_a_time() {
    let request: Event = SimulationEvent::Request(None);
    let sent: Event = SimulationEvent::Sent(RequestOutcome::Accepted);
    let ended: Event = SimulationEvent::Ended(ResultOutcome::Lost("gone"));
    let states =
        [SimulationState::Idle, SimulationState::AwaitAcceptance, SimulationState::AwaitResult];
    let events = [&request, &sent, &ended];
    for i in 0..3 {
        for k in 0..3 {
            assert_eq!(is_expected(states[i], events[k]), i == k);
        }
    }
}

#[test]
fn each_simulated_goal_is_answered_once() {
    let events = vec![
        SimulationEvent::Request(Some(goal())),
        SimulationEvent::Sent(RequestOutcome::NotSent("no client")),
        SimulationEvent::Request(None),
        SimulationEvent::Request(Some(goal())),
        SimulationEvent::Sent(RequestOutcome::Accepted),
        SimulationEvent::Ended(ResultOutcome::Lost("gone")),
        SimulationEvent::Request(Some(goal())),
    ];
    for n in 0..=events.len() {
        let (state, effects) = run(events[..n].to_vec());
        let accepted = effects.iter().filter(|e| **e == SimulationEffect::Accept).count();
        let answered = effects.iter().filter(|e| matches!(e, SimulationEffect::Reply(_))).count();
        let asked = effects.iter().filter(|e| **e == SimulationEffect::NextRequest).count();
        let received =
            events[..n].iter().filter(|e| matches!(e, SimulationEvent::Request(_))).count();
        let busy = if state == SimulationState::Idle { 0 } else { 1 };
        assert_eq!(accepted, answered + busy);
        assert_eq!(asked, received + 1 - busy);
    }
}
