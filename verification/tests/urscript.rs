use ur_controller::action::{GoalStatus, Reply, RequestOutcome, ResultOutcome};
use ur_controller::messages::{
    Header, JointState, LookupRequest, LookupResponse, Payload, Pose, Time, UrControlGoal,
};
use ur_controller::script::Generation;
use ur_controller::urscript::{
    end_script, execute_urscript, is_expected, reply_to, start, urscript_controller_server,
    UrScriptEffect, UrScriptEvent, UrScriptState,
};

type State = UrScriptState<f64, f32, f64>;
type Event = UrScriptEvent<f64, f32, f64, &'static str>;
type Ended = ResultOutcome<bool, &'static str>;

fn joints(position: Vec<f64>) -> JointState<f64> {
    JointState {
        header: Header { stamp: Time { sec: 0, nanosec: 0 }, frame_id: "".to_string() },
        name: vec![],
        position,
        velocity: vec![],
        effort: vec![],
    }
}

fn goal(command: &str) -> UrControlGoal<f64, f32, f64> {
    UrControlGoal {
        command: command.to_string(),
        acceleration: 0.3,
        velocity: 0.25,
        use_execution_time: false,
        execution_time: 0.0,
        use_blend_radius: false,
        blend_radius: 0.0,
        use_joint_positions: true,
        joint_positions: joints(vec![0.0, 1.0, 2.0, 3.0, 4.0, 5.0]),
        use_preferred_joint_config: false,
        preferred_joint_config: joints(vec![]),
        use_payload: false,
        payload: Payload {
            mass: 0.0,
            cog_x: 0.0,
            cog_y: 0.0,
            cog_z: 0.0,
            ixx: 0.0,
            iyy: 0.0,
            izz: 0.0,
            ixy: 0.0,
            ixz: 0.0,
            iyz: 0.0,
        },
        goal_feature_id: "box".to_string(),
        tcp_id: "gripper".to_string(),
    }
}

fn found(x: f64) -> Event {
    UrScriptEvent::LookedUp(LookupResponse { success: true, transform: pose(x) })
}

fn missed() -> Event {
    UrScriptEvent::LookedUp(LookupResponse { success: false, transform: pose(9.0) })
}

fn pose(x: f64) -> Pose<f64> {
    Pose { x, y: 0.0, z: 0.0, rx: 0.0, ry: 0.0, rz: 0.0 }
}

fn requested(command: &str) -> Event {
    UrScriptEvent::Request(Some(goal(command)))
}

fn sent(outcome: RequestOutcome<&'static str>) -> Event {
    UrScriptEvent::Sent(outcome)
}

fn finished(status: GoalStatus, ok: bool) -> Event {
    UrScriptEvent::Ended(ResultOutcome::Finished { status, message: ok })
}

fn look_up(parent: &str, child: &str) -> UrScriptEffect {
    UrScriptEffect::LookUp(LookupRequest {
        parent_frame_id: parent.to_string(),
        child_frame_id: child.to_string(),
    })
}

fn feedback(text: &str) -> UrScriptEffect {
    UrScriptEffect::Feedback(text.to_string())
}

fn send(script: &str) -> UrScriptEffect {
    UrScriptEffect::Send { script: script.to_string() }
}

fn succeed(success: bool) -> UrScriptEffect {
    UrScriptEffect::Reply(Reply::Succeed { success })
}

fn abort() -> UrScriptEffect {
    UrScriptEffect::Reply(Reply::Abort { success: false })
}

fn store() -> tera::Tera {
    let mut store = tera::Tera::default();
    store
        .add_raw_templates(vec![
            ("move_j.script", "movej({{ joint_positions }})"),
            ("move_l.script", "movel({{ target_in_base }}, {{ tcp_in_faceplate }})"),
            ("stop.script", "stopj(2)"),
        ])
        .unwrap();
    store
}

fn run(events: Vec<Event>) -> (State, Vec<UrScriptEffect>) {
    let templates = store();
    let (mut state, mut effects) = start();
    for event in events {
        assert!(is_expected(&state, &event));
        let (next, more) = urscript_controller_server(state, event, &templates);
        state = next;
        effects.extend(more);
    }
    (state, effects)
}

#[test]
fn scripted_joint_move_runs_its_course() {
    let (state, effects) = run(vec![
        requested("move_j"),
        sent(RequestOutcome::Accepted),
        finished(GoalStatus::Succeeded, true),
    ]);
    assert_eq!(state, UrScriptState::Idle);
    assert_eq!(
        effects,
        vec![
            UrScriptEffect::NextRequest,
            UrScriptEffect::Accept,
            feedback("Sending request to UR Script Driver."),
            send("movej([0,1,2,3,4,5])"),
            UrScriptEffect::AwaitResult,
            feedback("Executing the UR Script succeeded."),
            succeed(true),
            UrScriptEffect::NextRequest,
        ]
    );
}

#[test]
fn linear_move_looks_both_frames_up() {
    let (state, effects) = run(vec![requested("move_l"), found(1.0), found(2.0)]);
    assert_eq!(state, UrScriptState::AwaitAcceptance);
    assert_eq!(
        effects,
        vec![
            UrScriptEffect::NextRequest,
            UrScriptEffect::Accept,
            look_up("base_link", "box"),
            look_up("tool0", "gripper"),
            feedback("Sending request to UR Script Driver."),
            send("movel(p[1,0,0,0,0,0], p[2,0,0,0,0,0])"),
        ]
    );
}

#[test]
fn server_keeps_the_goal_while_it_looks_up() {
    let (state, _) = run(vec![requested("move_l")]);
    assert_eq!(state, UrScriptState::AwaitTarget { goal: goal("move_l") });
    let (state, _) = run(vec![requested("move_l"), found(1.0)]);
    assert_eq!(state, UrScriptState::AwaitTcp { goal: goal("move_l"), target: pose(1.0) });
}

#[test]
fn missing_target_ends_the_lookups() {
    let (state, effects) = run(vec![requested("move_l"), missed()]);
    assert_eq!(state, UrScriptState::Idle);
    assert_eq!(effects.len(), 7);
    assert_eq!(effects[2], look_up("base_link", "box"));
    assert_eq!(
        effects[3],
        UrScriptEffect::ReportNoContext {
            reason: "Creating a Context from a Value/Serialize requires it being a JSON object"
                .to_string()
        }
    );
    assert!(matches!(
        &effects[4],
        UrScriptEffect::ReportNoScript { command, .. } if command == "move_l"
    ));
    assert_eq!(effects[5..], [succeed(false), UrScriptEffect::NextRequest]);
}

#[test]
fn missing_tcp_is_rendered_over_nothing() {
    let (state, effects) = run(vec![requested("stop"), found(1.0), missed()]);
    assert_eq!(state, UrScriptState::AwaitAcceptance);
    assert!(matches!(effects[4], UrScriptEffect::ReportNoContext { .. }));
    assert_eq!(
        effects[5..],
        [feedback("Sending request to UR Script Driver."), send("stopj(2)")]
    );
}

#[test]
fn unknown_command_is_answered_without_success() {
    let (state, effects) = run(vec![requested("dance"), found(1.0), found(2.0)]);
    assert_eq!(state, UrScriptState::Idle);
    assert_eq!(
        effects[4..],
        [
            UrScriptEffect::ReportNoScript {
                command: "dance".to_string(),
                reason: "Template 'dance.script' not found".to_string(),
            },
            succeed(false),
            UrScriptEffect::NextRequest,
        ]
    );
}

#[test]
fn script_that_is_not_taken_is_aborted() {
    for outcome in [RequestOutcome::NotSent("no client"), RequestOutcome::NotAccepted("rejected")] {
        let (state, effects) = run(vec![requested("move_j"), sent(outcome)]);
        assert_eq!(state, UrScriptState::Idle);
        assert_eq!(effects[4..], [abort(), UrScriptEffect::NextRequest]);
    }
}

#[test]
fn lost_script_is_aborted() {
    let (state, effects) = run(vec![
        requested("move_j"),
        sent(RequestOutcome::Accepted),
        UrScriptEvent::Ended(ResultOutcome::Lost("gone")),
    ]);
    assert_eq!(state, UrScriptState::Idle);
    assert_eq!(
        effects[5..],
        [
            feedback("UR Script Driver Action failed. Aborting."),
            abort(),
            UrScriptEffect::NextRequest,
        ]
    );
}

#[test]
fn aborted_script_has_not_succeeded() {
    let (_, effects) = run(vec![
        requested("move_j"),
        sent(RequestOutcome::Accepted),
        finished(GoalStatus::Aborted, true),
    ]);
    assert_eq!(
        effects[5..],
        [feedback("Goal succesfully aborted."), succeed(false), UrScriptEffect::NextRequest]
    );
}

#[test]
fn finished_script_succeeds_as_the_driver_says() {
    for status in [
        GoalStatus::Unknown,
        GoalStatus::Accepted,
        GoalStatus::Executing,
        GoalStatus::Canceling,
        GoalStatus::Succeeded,
        GoalStatus::Canceled,
    ] {
        for ok in [true, false] {
            assert_eq!(
                end_script(Ended::Finished { status, message: ok }),
                ("Executing the UR Script succeeded.".to_string(), Ok(ok))
            );
        }
    }
}

#[test]
fn script_replies_follow_the_end() {
    for success in [true, false] {
        let end: Result<bool, &str> = Ok(success);
        assert_eq!(reply_to(end), Reply::Succeed { success });
    }
    assert_eq!(reply_to(Err("gone")), Reply::Abort { success: false });
}

#[test]
fn lost_script_fails_with_its_error() {
    assert_eq!(
        end_script(ResultOutcome::Lost("gone")),
        ("UR Script Driver Action failed. Aborting.".to_string(), Err("gone"))
    );
}

#[test]
fn generated_script_is_dispatched_after_what_came_before() {
    let mut effects = vec![UrScriptEffect::Accept];
    let generation = Generation { context_error: None, script: Ok("stopj(2)".to_string()) };
    assert!(execute_urscript("stop".to_string(), generation, &mut effects));
    assert_eq!(
        effects,
        vec![
            UrScriptEffect::Accept,
            feedback("Sending request to UR Script Driver."),
            send("stopj(2)"),
        ]
    );
}

#[test]
fn failed_generation_is_reported_and_left_unanswered() {
    let mut effects = vec![];
    let generation = Generation {
        context_error: Some("no object".to_string()),
        script: Err("broken".to_string()),
    };
    assert!(!execute_urscript("stop".to_string(), generation, &mut effects));
    assert_eq!(
        effects,
        vec![
            UrScriptEffect::ReportNoContext { reason: "no object".to_string() },
            UrScriptEffect::ReportNoScript {
                command: "stop".to_string(),
                reason: "broken".to_string(),
            },
        ]
    );
}

#[test]
fn empty_script_request_asks_again() {
    let (state, effects) = run(vec![UrScriptEvent::Request(None)]);
    assert_eq!(state, UrScriptState::Idle);
    assert_eq!(effects, vec![UrScriptEffect::NextRequest, UrScriptEffect::NextRequest]);
}

#[test]
fn script_server_expects_one_sort_of_event_at_a_time() {
    let states: Vec<State> = vec![
        UrScriptState::Idle,
        UrScriptState::AwaitTarget { goal: goal("move_l") },
        UrScriptState::AwaitTcp { goal: goal("move_l"), target: pose(1.0) },
        UrScriptState::AwaitAcceptance,
        UrScriptState::AwaitResult,
    ];
    let events: Vec<Event> = vec![
        UrScriptEvent::Request(None),
        found(1.0),
        sent(RequestOutcome::Accepted),
        UrScriptEvent::Ended(ResultOutcome::Lost("gone")),
    ];
    let expected = [0, 1, 1, 2, 3];
    for i in 0..states.len() {
        for k in 0..events.len() {
            assert_eq!(is_expected(&states[i], &events[k]), expected[i] == k);
        }
    }
}

#[test]
fn each_scripted_goal_is_answered_once_and_in_time() {
    let events = vec![
        requested("move_l"),
        missed(),
        UrScriptEvent::Request(None),
        requested("dance"),
        found(1.0),
        found(2.0),
        requested("move_l"),
        found(1.0),
        found(2.0),
        sent(RequestOutcome::Accepted),
        finished(GoalStatus::Succeeded, true),
        requested("move_j"),
        sent(RequestOutcome::NotAccepted("rejected")),
        requested("move_j"),
    ];
    for n in 0..=events.len() {
        let (state, effects) = run(events[..n].to_vec());
        let accepted = effects.iter().filter(|e| **e == UrScriptEffect::Accept).count();
        let answered = effects.iter().filter(|e| matches!(e, UrScriptEffect::Reply(_))).count();
        let asked = effects.iter().filter(|e| **e == UrScriptEffect::NextRequest).count();
        let received =
            events[..n].iter().filter(|e| matches!(e, UrScriptEvent::Request(_))).count();
        let busy = if state == UrScriptState::Idle { 0 } else { 1 };
        assert_eq!(accepted, answered + busy);
        assert_eq!(asked, received + 1 - busy);
    }
}
