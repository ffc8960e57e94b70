//! The server that has the simulator carry out its goals.

use crate::action::{
    count, failure_of, lemma_count_of_concatenation, request_failure, GoalStatus, Reply, RequestOutcome,
    ResultOutcome, GOAL_ABORTED,
};
use crate::messages::{
    SimpleRobotControlGoal, SimpleRobotControlGoalView, UrControlGoal, BASEFRAME_ID, FACEPLATE_ID,
};
use vstd::prelude::*;
use vstd::string::StringExecFns;

verus! {

/// The feedback before the simulator is asked.
pub const SENDING_TO_SIMULATOR: &'static str = "Sending request to Simple Robot Simulator.";

/// The feedback after the simulator is done.
pub const SIMULATION_SUCCEEDED: &'static str =
    "Executing the Simple Robot Simulator action succeeded.";

/// The feedback after the result of the simulator was lost.
pub const SIMULATION_FAILED: &'static str = "Simple Robot Simulator action failed. Aborting.";

/// What the server waits for.
#[derive(Clone, Copy, Debug, PartialEq, Eq, Structural)]
pub enum SimulationState {
    /// For the next goal.
    Idle,
    /// For the simulator to accept the goal.
    AwaitAcceptance,
    /// For the simulator to finish.
    AwaitResult,
}

/// What can happen to the server.
#[derive(Clone, Debug, PartialEq)]
pub enum SimulationEvent<D, S, P, E> {
    /// The stream of requests gave a goal, or nothing.
    Request(Option<UrControlGoal<D, S, P>>),
    /// The goal was handed to the simulator.
    Sent(RequestOutcome<E>),
    /// The simulator is done with the goal.
    Ended(ResultOutcome<(), E>),
}

/// What the server has the node do.
#[derive(Clone, Debug, PartialEq)]
pub enum SimulationEffect<D> {
    /// Wait for the next request.
    NextRequest,
    /// Accept the request.
    Accept,
    /// Tell the client how its goal is doing.
    Feedback(String),
    /// Hand a goal to the simulator.
    Send(SimpleRobotControlGoal<D>),
    /// Wait for the simulator to finish.
    AwaitResult,
    /// Answer the goal.
    Reply(Reply),
}

/// What the server has the node do, with texts as sequences of characters.
pub enum SimulationEffectView<D> {
    NextRequest,
    Accept,
    Feedback(Seq<char>),
    Send(SimpleRobotControlGoalView<D>),
    AwaitResult,
    Reply(Reply),
}

impl<D> View for SimulationEffect<D> {
    type V = SimulationEffectView<D>;

    open spec fn view(&self) -> SimulationEffectView<D> {
        match *self {
            SimulationEffect::NextRequest => SimulationEffectView::NextRequest,
            SimulationEffect::Accept => SimulationEffectView::Accept,
            SimulationEffect::Feedback(text) => SimulationEffectView::Feedback(text@),
            SimulationEffect::Send(goal) => SimulationEffectView::Send(goal@),
            SimulationEffect::AwaitResult => SimulationEffectView::AwaitResult,
            SimulationEffect::Reply(reply) => SimulationEffectView::Reply(reply),
        }
    }
}

/// The effects, with texts as sequences of characters.
pub open spec fn effect_views<D>(effects: Seq<SimulationEffect<D>>) -> Seq<
    SimulationEffectView<D>,
> {
    effects.map_values(|effect: SimulationEffect<D>| effect@)
}

/// The goal for the simulator: the client's goal, with the frames of the robot under the prefix.
pub open spec fn simulated<D, S, P>(
    goal: UrControlGoal<D, S, P>,
    prefix: Seq<char>,
) -> SimpleRobotControlGoalView<D> {
    SimpleRobotControlGoalView {
        base_frame_id: prefix + BASEFRAME_ID@,
        face_plate_id: prefix + FACEPLATE_ID@,
        tcp_id: goal.tcp_id@,
        goal_feature_id: goal.goal_feature_id@,
        acceleration: goal.acceleration,
        velocity: goal.velocity,
        use_joint_positions: goal.use_joint_positions,
        joint_positions: goal.joint_positions,
    }
}

/// How a goal ended that the simulator accepted, with the feedback on it. That the simulator
/// aborted it is no failure.
pub open spec fn simulation_end<E>(outcome: ResultOutcome<(), E>) -> (Seq<char>, Result<(), E>) {
    match outcome {
        ResultOutcome::Finished { status: GoalStatus::Aborted, .. } => (GOAL_ABORTED@, Ok(())),
        ResultOutcome::Finished { .. } => (SIMULATION_SUCCEEDED@, Ok(())),
        ResultOutcome::Lost(e) => (SIMULATION_FAILED@, Err(e)),
    }
}

/// The answer to a goal that ended so.
pub open spec fn answer<E>(end: Result<(), E>) -> Reply {
    match end {
        Ok(()) => Reply::Succeed { success: true },
        Err(_) => Reply::Abort { success: false },
    }
}

/// The server waits for an event of this sort.
pub open spec fn expects<D, S, P, E>(
    state: SimulationState,
    event: SimulationEvent<D, S, P, E>,
) -> bool {
    match state {
        SimulationState::Idle => event is Request,
        SimulationState::AwaitAcceptance => event is Sent,
        SimulationState::AwaitResult => event is Ended,
    }
}

/// The next state and the effects of an event that the server waits for. In any other event the
/// server stays as it is.
pub open spec fn step<D, S, P, E>(
    prefix: Seq<char>,
    state: SimulationState,
    event: SimulationEvent<D, S, P, E>,
) -> (SimulationState, Seq<SimulationEffectView<D>>) {
    match (state, event) {
        (SimulationState::Idle, SimulationEvent::Request(Some(goal))) => (
            SimulationState::AwaitAcceptance,
            seq![
                SimulationEffectView::Accept,
                SimulationEffectView::Feedback(SENDING_TO_SIMULATOR@),
                SimulationEffectView::Send(simulated(goal, prefix)),
            ],
        ),
        (SimulationState::Idle, SimulationEvent::Request(None)) => (
            SimulationState::Idle,
            seq![SimulationEffectView::NextRequest],
        ),
        (SimulationState::AwaitAcceptance, SimulationEvent::Sent(outcome)) => match failure_of(
            outcome,
        ) {
            None => (SimulationState::AwaitResult, seq![SimulationEffectView::AwaitResult]),
            Some(failure) => (
                SimulationState::Idle,
                seq![
                    SimulationEffectView::Reply(answer(Err(failure))),
                    SimulationEffectView::NextRequest,
                ],
            ),
        },
        (SimulationState::AwaitResult, SimulationEvent::Ended(outcome)) => (
            SimulationState::Idle,
            seq![
                SimulationEffectView::Feedback(simulation_end(outcome).0),
                SimulationEffectView::Reply(answer(simulation_end(outcome).1)),
                SimulationEffectView::NextRequest,
            ],
        ),
        _ => (state, seq![]),
    }
}

/// The goal for the simulator: the client's goal, with the frames of the robot under the prefix.
pub fn urc_goal_to_srs_goal<D, S, P>(urc_goal: UrControlGoal<D, S, P>, prefix: &str) -> (srs_goal:
    SimpleRobotControlGoal<D>)
    ensures
        srs_goal@ == simulated(urc_goal, prefix@),
{
    SimpleRobotControlGoal {
        base_frame_id: prefix.to_string().concat(BASEFRAME_ID),
        face_plate_id: prefix.to_string().concat(FACEPLATE_ID),
        tcp_id: urc_goal.tcp_id,
        goal_feature_id: urc_goal.goal_feature_id,
        acceleration: urc_goal.acceleration,
        velocity: urc_goal.velocity,
        use_joint_positions: urc_goal.use_joint_positions,
        joint_positions: urc_goal.joint_positions,
    }
}

/// How a goal ended that the simulator accepted, with the feedback on it.
pub fn end_simulation<E>(outcome: ResultOutcome<(), E>) -> (end: (String, Result<(), E>))
    ensures
        (end.0@, end.1) == simulation_end(outcome),
{
    match outcome {
        ResultOutcome::Finished { status, .. } => match status {
            GoalStatus::Aborted => (GOAL_ABORTED.to_string(), Ok(())),
            _ => (SIMULATION_SUCCEEDED.to_string(), Ok(())),
        },
        ResultOutcome::Lost(e) => (SIMULATION_FAILED.to_string(), Err(e)),
    }
}

/// The answer to a goal that ended so.
pub fn reply_to<E>(end: Result<(), E>) -> (reply: Reply)
    ensures
        reply == answer(end),
{
    match end {
        Ok(()) => Reply::Succeed { success: true },
        Err(_) => Reply::Abort { success: false },
    }
}

/// The effects that begin to carry out a goal: the client hears of it, and the simulator is asked.
pub fn execute_simple_simulation<D, S, P>(goal: UrControlGoal<D, S, P>, prefix: &str) -> (effects:
    Vec<SimulationEffect<D>>)
    ensures
        effect_views(effects@) == seq![
            SimulationEffectView::Feedback(SENDING_TO_SIMULATOR@),
            SimulationEffectView::Send(simulated(goal, prefix@)),
        ],
{
    let effects: Vec<SimulationEffect<D>> = vec![
        SimulationEffect::Feedback(SENDING_TO_SIMULATOR.to_string()),
        SimulationEffect::Send(urc_goal_to_srs_goal(goal, prefix)),
    ];
    effects
}

/// Whether the server waits for an event of this sort.
pub fn is_expected<D, S, P, E>(
    state: SimulationState,
    event: &SimulationEvent<D, S, P, E>,
) -> (yes: bool)
    ensures
        yes == expects(state, *event),
{
    match (state, event) {
        (SimulationState::Idle, SimulationEvent::Request(_)) => true,
        (SimulationState::AwaitAcceptance, SimulationEvent::Sent(_)) => true,
        (SimulationState::AwaitResult, SimulationEvent::Ended(_)) => true,
        _ => false,
    }
}

/// The server before its first request.
pub fn start<D>() -> (first: (SimulationState, Vec<SimulationEffect<D>>))
    ensures
        first.0 == SimulationState::Idle,
        effect_views(first.1@) == seq![SimulationEffectView::<D>::NextRequest],
{
    let effects: Vec<SimulationEffect<D>> = vec![SimulationEffect::NextRequest];
    (SimulationState::Idle, effects)
}

/// One step of the server.
pub fn simple_controller_server<D, S, P, E>(
    state: SimulationState,
    event: SimulationEvent<D, S, P, E>,
    prefix: &str,
) -> (next: (SimulationState, Vec<SimulationEffect<D>>))
    requires
        expects(state, event),
    ensures
        next.0 == step(prefix@, state, event).0,
        effect_views(next.1@) == step(prefix@, state, event).1,
{
    match event {
        SimulationEvent::Request(Some(goal)) => {
            let mut begun = execute_simple_simulation(goal, prefix);
            let mut effects: Vec<SimulationEffect<D>> = vec![SimulationEffect::Accept];
            let ghost accepted = effects@;
            let ghost begun_effects = begun@;
            effects.append(&mut begun);
            assert(effect_views(effects@) =~= effect_views(accepted) + effect_views(begun_effects));
            (SimulationState::AwaitAcceptance, effects)
        },
        SimulationEvent::Request(None) => {
            let effects: Vec<SimulationEffect<D>> = vec![SimulationEffect::NextRequest];
            (SimulationState::Idle, effects)
        },
        SimulationEvent::Sent(outcome) => match request_failure(outcome) {
            None => {
                let effects: Vec<SimulationEffect<D>> = vec![SimulationEffect::AwaitResult];
                (SimulationState::AwaitResult, effects)
            },
            Some(failure) => {
                let effects: Vec<SimulationEffect<D>> = vec![
                    SimulationEffect::Reply(reply_to(Err(failure))),
                    SimulationEffect::NextRequest,
                ];
                (SimulationState::Idle, effects)
            },
        },
        SimulationEvent::Ended(outcome) => {
            let (feedback, end) = end_simulation(outcome);
            let effects: Vec<SimulationEffect<D>> = vec![
                SimulationEffect::Feedback(feedback),
                SimulationEffect::Reply(reply_to(end)),
                SimulationEffect::NextRequest,
            ];
            (SimulationState::Idle, effects)
        },
    }
}

/// The server after these events, and all its effects so far.
pub open spec fn run<D, S, P, E>(
    prefix: Seq<char>,
    events: Seq<SimulationEvent<D, S, P, E>>,
) -> (SimulationState, Seq<SimulationEffectView<D>>)
    decreases events.len(),
{
    if events.len() == 0 {
        (SimulationState::Idle, seq![SimulationEffectView::NextRequest])
    } else {
        let (state, effects) = run(prefix, events.drop_last());
        let (next, more) = step(prefix, state, events.last());
        (next, effects + more)
    }
}

/// Each event comes when the server waits for it.
pub open spec fn in_turn<D, S, P, E>(
    prefix: Seq<char>,
    events: Seq<SimulationEvent<D, S, P, E>>,
) -> bool {
    forall|i: int|
        0 <= i < events.len() ==> expects(run(prefix, events.take(i)).0, #[trigger] events[i])
}

/// How many goals were accepted.
pub open spec fn accepted<D>(effects: Seq<SimulationEffectView<D>>) -> nat {
    count(effects, |e: SimulationEffectView<D>| e is Accept)
}

/// How many goals were answered.
pub open spec fn answered<D>(effects: Seq<SimulationEffectView<D>>) -> nat {
    count(effects, |e: SimulationEffectView<D>| e is Reply)
}

/// How often the server asked for a request.
pub open spec fn asked<D>(effects: Seq<SimulationEffectView<D>>) -> nat {
    count(effects, |e: SimulationEffectView<D>| e is NextRequest)
}

/// How often the stream of requests gave a goal or nothing.
pub open spec fn received<D, S, P, E>(events: Seq<SimulationEvent<D, S, P, E>>) -> nat {
    count(events, |e: SimulationEvent<D, S, P, E>| e is Request)
}

/// What comes in turn came in turn before its last event, which the server then waits for.
proof fn lemma_in_turn_before<D, S, P, E>(
    prefix: Seq<char>,
    events: Seq<SimulationEvent<D, S, P, E>>,
)
    requires
        in_turn(prefix, events),
        events.len() > 0,
    ensures
        in_turn(prefix, events.drop_last()),
        expects(run(prefix, events.drop_last()).0, events.last()),
{
    let before = events.drop_last();
    assert forall|i: int| 0 <= i < before.len() implies expects(
        run(prefix, before.take(i)).0,
        #[trigger] before[i],
    ) by {
        assert(before.take(i) =~= events.take(i));
        assert(before[i] == events[i]);
    }
    assert(events.take(events.len() - 1) =~= before);
    assert(expects(run(prefix, events.take(events.len() - 1)).0, events[events.len() - 1]));
}

/// The effects of one step: a goal is accepted when it is requested, and answered when the server
/// becomes idle, which then asks for the next request.
proof fn lemma_effects_of_a_step<D, S, P, E>(
    prefix: Seq<char>,
    state: SimulationState,
    event: SimulationEvent<D, S, P, E>,
)
    requires
        expects(state, event),
    ensures
        ({
            let (next, effects) = step(prefix, state, event);
            &&& accepted(effects) == if state is Idle && next !is Idle {
                1nat
            } else {
                0nat
            }
            &&& answered(effects) == if state !is Idle && next is Idle {
                1nat
            } else {
                0nat
            }
            &&& asked(effects) == if next is Idle {
                1nat
            } else {
                0nat
            }
        }),
{
    reveal_with_fuel(count, 4);
}

/// Each goal is answered exactly once before the next is accepted: at any time as many goals
/// were answered as were accepted, but for the one that the server works on.
pub proof fn law_each_goal_is_answered_once<D, S, P, E>(
    prefix: Seq<char>,
    events: Seq<SimulationEvent<D, S, P, E>>,
)
    requires
        in_turn(prefix, events),
    ensures
        ({
            let (state, effects) = run(prefix, events);
            accepted(effects) == answered(effects) + if state is Idle {
                0nat
            } else {
                1nat
            }
        }),
    decreases events.len(),
{
    reveal_with_fuel(count, 2);
    if events.len() > 0 {
        lemma_in_turn_before(prefix, events);
        law_each_goal_is_answered_once(prefix, events.drop_last());
        let (state, effects) = run(prefix, events.drop_last());
        let more = step(prefix, state, events.last()).1;
        lemma_effects_of_a_step(prefix, state, events.last());
        lemma_count_of_concatenation(effects, more, |e: SimulationEffectView<D>| e is Accept);
        lemma_count_of_concatenation(effects, more, |e: SimulationEffectView<D>| e is Reply);
    }
}

/// The server asks for a request only when it has none to work on, and then at once: it has asked
/// once for each request that it was given, and once more while it is idle.
pub proof fn law_asks_only_when_idle<D, S, P, E>(
    prefix: Seq<char>,
    events: Seq<SimulationEvent<D, S, P, E>>,
)
    requires
        in_turn(prefix, events),
    ensures
        ({
            let (state, effects) = run(prefix, events);
            asked(effects) == received(events) + if state is Idle {
                1nat
            } else {
                0nat
            }
        }),
    decreases events.len(),
{
    reveal_with_fuel(count, 2);
    if events.len() > 0 {
        lemma_in_turn_before(prefix, events);
        law_asks_only_when_idle(prefix, events.drop_last());
        let (state, effects) = run(prefix, events.drop_last());
        let more = step(prefix, state, events.last()).1;
        lemma_effects_of_a_step(prefix, state, events.last());
        lemma_count_of_concatenation(effects, more, |e: SimulationEffectView<D>| e is NextRequest);
    }
}

/// How many events the server can take, at most, before it is idle.
pub open spec fn events_to_go(state: SimulationState) -> nat {
    match state {
        SimulationState::Idle => 0,
        SimulationState::AwaitAcceptance => 2,
        SimulationState::AwaitResult => 1,
    }
}

/// The server does not stay with a goal: after any events it is idle again within the number of
/// further events that its state allows, which is two at most.
pub proof fn law_goal_is_answered_in_time<D, S, P, E>(
    prefix: Seq<char>,
    events: Seq<SimulationEvent<D, S, P, E>>,
    n: int,
)
    requires
        in_turn(prefix, events),
        0 <= n,
        n + events_to_go(run(prefix, events.take(n)).0) <= events.len(),
    ensures
        exists|m: int|
            n <= m <= n + events_to_go(run(prefix, events.take(n)).0) && #[trigger] run(
                prefix,
                events.take(m),
            ).0 is Idle,
        events_to_go(run(prefix, events.take(n)).0) <= 2,
    decreases events_to_go(run(prefix, events.take(n)).0),
{
    let state = run(prefix, events.take(n)).0;
    if state is Idle {
        assert(run(prefix, events.take(n)).0 is Idle);
    } else {
        assert(expects(state, events[n]));
        assert(events.take(n + 1).drop_last() =~= events.take(n));
        assert(events.take(n + 1).last() == events[n]);
        let next = run(prefix, events.take(n + 1)).0;
        assert(next == step(prefix, state, events[n]).0);
        law_goal_is_answered_in_time(prefix, events, n + 1);
    }
}

/// The simulator could not be asked, or its result was lost.
pub open spec fn is_failure<D, S, P, E>(event: SimulationEvent<D, S, P, E>) -> bool {
    match event {
        SimulationEvent::Request(_) => false,
        SimulationEvent::Sent(outcome) => outcome !is Accepted,
        SimulationEvent::Ended(outcome) => outcome is Lost,
    }
}

/// A goal is aborted exactly where the simulator could not be asked or its result was lost. In
/// every other case it succeeds when the simulator is done, also where the simulator aborted it.
pub proof fn law_aborts_exactly_on_failure<D, S, P, E>(
    prefix: Seq<char>,
    state: SimulationState,
    event: SimulationEvent<D, S, P, E>,
    reply: Reply,
)
    requires
        expects(state, event),
    ensures
        step(prefix, state, event).1.contains(SimulationEffectView::Reply(reply)) <==> {
            ||| is_failure(event) && reply == Reply::Abort { success: false }
            ||| event is Ended && !is_failure(event) && reply == Reply::Succeed { success: true }
        },
{
    let effects = step(prefix, state, event).1;
    match event {
        SimulationEvent::Request(_) => {
            assert(forall|i: int| 0 <= i < effects.len() ==> effects[i] !is Reply);
        },
        SimulationEvent::Sent(outcome) => {
            if failure_of(outcome) is Some {
                assert(effects[0] == SimulationEffectView::<D>::Reply(
                    Reply::Abort { success: false },
                ));
            }
        },
        SimulationEvent::Ended(outcome) => {
            assert(effects[1] == SimulationEffectView::<D>::Reply(
                answer(simulation_end(outcome).1),
            ));
        },
    }
}

/// How a goal ended that was handed to the simulator with the outcome `sent`, and, if the simulator
/// accepted it, came to the outcome `ended`.
pub open spec fn executed<E>(sent: RequestOutcome<E>, ended: ResultOutcome<(), E>) -> Result<(), E> {
    match failure_of(sent) {
        Some(e) => Err(e),
        None => simulation_end(ended).1,
    }
}

/// A goal fails with the error of the first step that failed: of sending it, of its acceptance or
/// of its result.
pub proof fn law_fails_with_the_first_error<E>(
    sent: RequestOutcome<E>,
    ended: ResultOutcome<(), E>,
    e: E,
)
    ensures
        executed(sent, ended) == Err::<(), E>(e) <==> {
            ||| sent == RequestOutcome::NotSent(e)
            ||| sent == RequestOutcome::NotAccepted(e)
            ||| sent is Accepted && ended == ResultOutcome::<(), E>::Lost(e)
        },
{
}

/// A goal that was handed to the simulator is answered as it ended. Where handing it over failed,
/// that is the end: no result is waited for, and nothing is sent again.
pub proof fn law_answers_as_it_ended<D, S, P, E>(
    prefix: Seq<char>,
    sent: RequestOutcome<E>,
    ended: ResultOutcome<(), E>,
)
    ensures
        ({
            let reply = SimulationEffectView::<D>::Reply(answer(executed(sent, ended)));
            let on_sent = SimulationEvent::<D, S, P, E>::Sent(sent);
            let on_ended = SimulationEvent::<D, S, P, E>::Ended(ended);
            let (next, effects) = step(prefix, SimulationState::AwaitAcceptance, on_sent);
            if sent is Accepted {
                &&& next is AwaitResult
                &&& effects == seq![SimulationEffectView::<D>::AwaitResult]
                &&& step(prefix, next, on_ended).0 is Idle
                &&& step(prefix, next, on_ended).1 == seq![
                    SimulationEffectView::<D>::Feedback(simulation_end(ended).0),
                    reply,
                    SimulationEffectView::<D>::NextRequest,
                ]
            } else {
                &&& next is Idle
                &&& effects == seq![reply, SimulationEffectView::<D>::NextRequest]
            }
        }),
{
}

/// Without a prefix the robot's frames keep their own names.
pub proof fn law_no_prefix_keeps_the_frames<D, S, P>(goal: UrControlGoal<D, S, P>)
    ensures
        simulated(goal, Seq::empty()).base_frame_id == BASEFRAME_ID@,
        simulated(goal, Seq::empty()).face_plate_id == FACEPLATE_ID@,
{
    assert(Seq::<char>::empty() + BASEFRAME_ID@ =~= BASEFRAME_ID@);
    assert(Seq::<char>::empty() + FACEPLATE_ID@ =~= FACEPLATE_ID@);
}

/// The simulator gets each value of the client's goal under its own name, whatever the goal says,
/// and the frames of the robot with the prefix before their own names.
pub proof fn law_simulator_gets_each_value_under_its_name<D, S, P>(
    goal: UrControlGoal<D, S, P>,
    prefix: Seq<char>,
    srs_goal: SimpleRobotControlGoal<D>,
)
    requires
        srs_goal@ == simulated(goal, prefix),
    ensures
        srs_goal.base_frame_id@ == prefix + "base_link"@,
        srs_goal.face_plate_id@ == prefix + "tool0"@,
        srs_goal.tcp_id@ == goal.tcp_id@,
        srs_goal.goal_feature_id@ == goal.goal_feature_id@,
        srs_goal.acceleration == goal.acceleration,
        srs_goal.velocity == goal.velocity,
        srs_goal.use_joint_positions == goal.use_joint_positions,
        srs_goal.joint_positions == goal.joint_positions,
{
}

/// Two goals give the simulator goals that differ in a value exactly where the client's goals differ
/// in that value, and in no other. The frames of the robot do not depend on the goal.
pub proof fn law_simulated_goals_differ_where_the_goals_do<D, S, P>(
    a: UrControlGoal<D, S, P>,
    b: UrControlGoal<D, S, P>,
    prefix: Seq<char>,
    of_a: SimpleRobotControlGoal<D>,
    of_b: SimpleRobotControlGoal<D>,
)
    requires
        of_a@ == simulated(a, prefix),
        of_b@ == simulated(b, prefix),
    ensures
        of_a.base_frame_id@ == of_b.base_frame_id@,
        of_a.face_plate_id@ == of_b.face_plate_id@,
        of_a.tcp_id@ == of_b.tcp_id@ <==> a.tcp_id@ == b.tcp_id@,
        of_a.goal_feature_id@ == of_b.goal_feature_id@ <==> a.goal_feature_id@
            == b.goal_feature_id@,
        of_a.acceleration == of_b.acceleration <==> a.acceleration == b.acceleration,
        of_a.velocity == of_b.velocity <==> a.velocity == b.velocity,
        of_a.use_joint_positions == of_b.use_joint_positions <==> a.use_joint_positions
            == b.use_joint_positions,
        of_a.joint_positions == of_b.joint_positions <==> a.joint_positions == b.joint_positions,
{
}

/// The effect tells the client this text.
pub open spec fn says<D>(effect: SimulationEffect<D>, text: Seq<char>) -> bool {
    effect matches SimulationEffect::Feedback(said) && said@ == text
}

/// The server waits for a request while it is idle, for the outcome of handing a goal over once it
/// has handed one over, and for the end of that goal once it was accepted; for nothing else.
pub proof fn law_waits_for_one_thing<D, S, P, E>(
    state: SimulationState,
    event: SimulationEvent<D, S, P, E>,
)
    ensures
        expects(state, event) <==> {
            ||| state is Idle && event is Request
            ||| state is AwaitAcceptance && event is Sent
            ||| state is AwaitResult && event is Ended
        },
{
}

/// A goal that is requested is accepted, the client hears of it, and then the goal is handed to the
/// simulator, with each value under its own name. Where nothing is requested, the next request is
/// asked for.
pub proof fn law_requested_goal_is_forwarded<D, S, P, E>(
    prefix: Seq<char>,
    request: Option<UrControlGoal<D, S, P>>,
    next: SimulationState,
    effects: Seq<SimulationEffect<D>>,
)
    requires
        ({
            let event = SimulationEvent::<D, S, P, E>::Request(request);
            &&& next == step(prefix, SimulationState::Idle, event).0
            &&& effect_views(effects) == step(prefix, SimulationState::Idle, event).1
        }),
    ensures
        request matches Some(goal) ==> {
            &&& next is AwaitAcceptance
            &&& effects.len() == 3
            &&& effects[0] is Accept
            &&& says(effects[1], "Sending request to Simple Robot Simulator."@)
            &&& effects[2] matches SimulationEffect::Send(srs_goal) && {
                &&& srs_goal.base_frame_id@ == prefix + "base_link"@
                &&& srs_goal.face_plate_id@ == prefix + "tool0"@
                &&& srs_goal.tcp_id@ == goal.tcp_id@
                &&& srs_goal.goal_feature_id@ == goal.goal_feature_id@
                &&& srs_goal.acceleration == goal.acceleration
                &&& srs_goal.velocity == goal.velocity
                &&& srs_goal.use_joint_positions == goal.use_joint_positions
                &&& srs_goal.joint_positions == goal.joint_positions
            }
        },
        request is None ==> next is Idle && effects.len() == 1 && effects[0] is NextRequest,
{
    lemma_effects_behind_their_views(effects);
}

/// Each effect lies behind its view.
proof fn lemma_effects_behind_their_views<D>(effects: Seq<SimulationEffect<D>>)
    ensures
        effect_views(effects).len() == effects.len(),
        forall|i: int|
            0 <= i < effects.len() ==> (#[trigger] effects[i])@ == effect_views(effects)[i],
{
}

/// A goal that could not be sent or was not accepted is aborted, and the next is asked for. For one
/// that was accepted the result is waited for.
pub proof fn law_handed_over_or_aborted<D, S, P, E>(
    prefix: Seq<char>,
    outcome: RequestOutcome<E>,
    next: SimulationState,
    effects: Seq<SimulationEffect<D>>,
)
    requires
        ({
            let event = SimulationEvent::<D, S, P, E>::Sent(outcome);
            &&& next == step(prefix, SimulationState::AwaitAcceptance, event).0
            &&& effect_views(effects) == step(prefix, SimulationState::AwaitAcceptance, event).1
        }),
    ensures
        outcome is Accepted ==> next is AwaitResult && effects.len() == 1
            && effects[0] is AwaitResult,
        outcome is NotSent || outcome is NotAccepted ==> {
            &&& next is Idle
            &&& effects.len() == 2
            &&& effects[0] == SimulationEffect::<D>::Reply(Reply::Abort { success: false })
            &&& effects[1] is NextRequest
        },
{
    lemma_effects_behind_their_views(effects);
}

/// Once the simulator is done the client hears how, its goal is answered, and the next is asked for.
/// The goal has succeeded, whatever status the simulator left it in; it is aborted where the result
/// was lost.
pub proof fn law_end_is_told_and_answered<D, S, P, E>(
    prefix: Seq<char>,
    outcome: ResultOutcome<(), E>,
    next: SimulationState,
    effects: Seq<SimulationEffect<D>>,
)
    requires
        ({
            let event = SimulationEvent::<D, S, P, E>::Ended(outcome);
            &&& next == step(prefix, SimulationState::AwaitResult, event).0
            &&& effect_views(effects) == step(prefix, SimulationState::AwaitResult, event).1
        }),
    ensures
        next is Idle,
        effects.len() == 3,
        outcome matches ResultOutcome::Finished { status, .. } ==> {
            &&& status is Aborted ==> says(effects[0], "Goal succesfully aborted."@)
            &&& status !is Aborted ==> says(
                effects[0],
                "Executing the Simple Robot Simulator action succeeded."@,
            )
            &&& effects[1] == SimulationEffect::<D>::Reply(Reply::Succeed { success: true })
        },
        outcome is Lost ==> {
            &&& says(effects[0], "Simple Robot Simulator action failed. Aborting."@)
            &&& effects[1] == SimulationEffect::<D>::Reply(Reply::Abort { success: false })
        },
        effects[2] is NextRequest,
{
    lemma_effects_behind_their_views(effects);
}

} // verus!
