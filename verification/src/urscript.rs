//! The server that has the driver of the robot carry out its goals.

use crate::action::{
    count, failure_of, lemma_count_of_concatenation, request_failure, GoalStatus, Reply, RequestOutcome,
    ResultOutcome, GOAL_ABORTED,
};
use crate::interpretation::{
    is_joint_move, looked_up, lookup_request, lookup_tf, moves_by_joints, target_lookup,
    tcp_lookup,
};
use crate::messages::{
    LookupRequest, LookupRequestView, LookupResponse, Pose, UrControlGoal, BASEFRAME_ID,
    FACEPLATE_ID,
};
use crate::script::{
    generate_script, generates, holds_goal, holds_pose, is_rendered_over,
    law_script_is_the_template_over_the_goal, renders_to_an_end, script_is, template_name,
    Generation, GenerationView,
};
use crate::templates::{may_render, templates_of, text_value};
use core::fmt::Display;
use vstd::prelude::*;

verus! {

/// The feedback before the driver is asked.
pub const SENDING_TO_DRIVER: &'static str = "Sending request to UR Script Driver.";

/// The feedback after the driver is done.
pub const SCRIPT_SUCCEEDED: &'static str = "Executing the UR Script succeeded.";

/// The feedback after the result of the driver was lost.
pub const SCRIPT_FAILED: &'static str = "UR Script Driver Action failed. Aborting.";

/// What the server waits for.
#[derive(Clone, Debug, PartialEq)]
pub enum UrScriptState<D, S, P> {
    /// For the next goal.
    Idle,
    /// For the target of the goal, seen from the base.
    AwaitTarget { goal: UrControlGoal<D, S, P> },
    /// For the tool centre point of the goal, seen from the face plate.
    AwaitTcp { goal: UrControlGoal<D, S, P>, target: Pose<D> },
    /// For the driver to accept the script.
    AwaitAcceptance,
    /// For the driver to finish.
    AwaitResult,
}

/// What can happen to the server.
#[derive(Clone, Debug, PartialEq)]
pub enum UrScriptEvent<D, S, P, E> {
    /// The stream of requests gave a goal, or nothing.
    Request(Option<UrControlGoal<D, S, P>>),
    /// The transform service answered.
    LookedUp(LookupResponse<D>),
    /// The script was handed to the driver.
    Sent(RequestOutcome<E>),
    /// The driver is done with the script, and says whether it went well.
    Ended(ResultOutcome<bool, E>),
}

/// What the server has the node do.
#[derive(Clone, Debug, PartialEq)]
pub enum UrScriptEffect {
    /// Wait for the next request.
    NextRequest,
    /// Accept the request.
    Accept,
    /// Ask the transform service.
    LookUp(LookupRequest),
    /// Report that the meaning of the goal gave no context, and why.
    ReportNoContext { reason: String },
    /// Report that the template of the command did not render, and why.
    ReportNoScript { command: String, reason: String },
    /// Tell the client how its goal is doing.
    Feedback(String),
    /// Hand a script to the driver.
    Send { script: String },
    /// Wait for the driver to finish.
    AwaitResult,
    /// Answer the goal.
    Reply(Reply),
}

/// What the server has the node do, with texts as sequences of characters.
pub enum UrScriptEffectView {
    NextRequest,
    Accept,
    LookUp(LookupRequestView),
    ReportNoContext { reason: Seq<char> },
    ReportNoScript { command: Seq<char>, reason: Seq<char> },
    Feedback(Seq<char>),
    Send { script: Seq<char> },
    AwaitResult,
    Reply(Reply),
}

impl View for UrScriptEffect {
    type V = UrScriptEffectView;

    open spec fn view(&self) -> UrScriptEffectView {
        match *self {
            UrScriptEffect::NextRequest => UrScriptEffectView::NextRequest,
            UrScriptEffect::Accept => UrScriptEffectView::Accept,
            UrScriptEffect::LookUp(request) => UrScriptEffectView::LookUp(request@),
            UrScriptEffect::ReportNoContext { reason } => UrScriptEffectView::ReportNoContext {
                reason: reason@,
            },
            UrScriptEffect::ReportNoScript { command, reason } =>
                UrScriptEffectView::ReportNoScript { command: command@, reason: reason@ },
            UrScriptEffect::Feedback(text) => UrScriptEffectView::Feedback(text@),
            UrScriptEffect::Send { script } => UrScriptEffectView::Send { script: script@ },
            UrScriptEffect::AwaitResult => UrScriptEffectView::AwaitResult,
            UrScriptEffect::Reply(reply) => UrScriptEffectView::Reply(reply),
        }
    }
}

/// The effects, with texts as sequences of characters.
pub open spec fn effect_views(effects: Seq<UrScriptEffect>) -> Seq<UrScriptEffectView> {
    effects.map_values(|effect: UrScriptEffect| effect@)
}

/// How a goal ended whose script the driver accepted, with the feedback on it. That the driver
/// aborted it is no failure, but no success either.
pub open spec fn script_end<E>(outcome: ResultOutcome<bool, E>) -> (Seq<char>, Result<bool, E>) {
    match outcome {
        ResultOutcome::Finished { status: GoalStatus::Aborted, .. } => (GOAL_ABORTED@, Ok(false)),
        ResultOutcome::Finished { message, .. } => (SCRIPT_SUCCEEDED@, Ok(message)),
        ResultOutcome::Lost(e) => (SCRIPT_FAILED@, Err(e)),
    }
}

/// The answer to a goal that ended so.
pub open spec fn answer<E>(end: Result<bool, E>) -> Reply {
    match end {
        Ok(success) => Reply::Succeed { success },
        Err(_) => Reply::Abort { success: false },
    }
}

/// What is reported of generating a script for the command.
pub open spec fn reports(command: Seq<char>, g: GenerationView) -> Seq<UrScriptEffectView> {
    let on_context = match g.context_error {
        Some(reason) => seq![UrScriptEffectView::ReportNoContext { reason }],
        None => seq![],
    };
    let on_script = match g.script {
        Ok(_) => seq![],
        Err(reason) => seq![UrScriptEffectView::ReportNoScript { command, reason }],
    };
    on_context + on_script
}

/// What is done with the script, where there is one: it is handed to the driver.
pub open spec fn dispatch(g: GenerationView) -> Seq<UrScriptEffectView> {
    match g.script {
        Ok(script) => seq![
            UrScriptEffectView::Feedback(SENDING_TO_DRIVER@),
            UrScriptEffectView::Send { script },
        ],
        Err(_) => seq![],
    }
}

/// What is done with the goal once generating its script has ended so: a goal without a script
/// has not succeeded, and is answered at once.
pub open spec fn conclusion(g: GenerationView) -> Seq<UrScriptEffectView> {
    match g.script {
        Ok(_) => seq![],
        Err(_) => seq![
            UrScriptEffectView::Reply(Reply::Succeed { success: false }),
            UrScriptEffectView::NextRequest,
        ],
    }
}

/// What follows on generating a script for the command: what went wrong is reported, the script is
/// handed to the driver, and a goal without one is answered.
pub open spec fn aftermath(command: Seq<char>, g: GenerationView) -> Seq<UrScriptEffectView> {
    reports(command, g) + dispatch(g) + conclusion(g)
}

/// What the server waits for once generating a script has ended so.
pub open spec fn after_generation<D, S, P>(g: GenerationView) -> UrScriptState<D, S, P> {
    match g.script {
        Ok(_) => UrScriptState::AwaitAcceptance,
        Err(_) => UrScriptState::Idle,
    }
}

/// The server waits for an event of this sort.
pub open spec fn expects<D, S, P, E>(
    state: UrScriptState<D, S, P>,
    event: UrScriptEvent<D, S, P, E>,
) -> bool {
    match state {
        UrScriptState::Idle => event is Request,
        UrScriptState::AwaitTarget { .. } => event is LookedUp,
        UrScriptState::AwaitTcp { .. } => event is LookedUp,
        UrScriptState::AwaitAcceptance => event is Sent,
        UrScriptState::AwaitResult => event is Ended,
    }
}

/// The goal whose script is generated on the event, if one is, with what the lookups of its target
/// and of its tool centre point gave. A joint move has its script generated at once; any other
/// goal when a lookup fails or both are done.
pub open spec fn generated_on<D, S, P, E>(
    state: UrScriptState<D, S, P>,
    event: UrScriptEvent<D, S, P, E>,
) -> Option<(UrControlGoal<D, S, P>, Option<Pose<D>>, Option<Pose<D>>)> {
    match (state, event) {
        (UrScriptState::Idle, UrScriptEvent::Request(Some(goal))) => if is_joint_move(goal) {
            Some((goal, None, None))
        } else {
            None
        },
        (UrScriptState::AwaitTarget { goal }, UrScriptEvent::LookedUp(response)) => match looked_up(
            response,
        ) {
            Some(_) => None,
            None => Some((goal, None, None)),
        },
        (UrScriptState::AwaitTcp { goal, target }, UrScriptEvent::LookedUp(response)) => Some(
            (goal, Some(target), looked_up(response)),
        ),
        _ => None,
    }
}

/// The next state and the effects of an event that the server waits for, where generating a
/// script, if the event has one generated, ends in `g`. In any other event the server stays as it
/// is.
pub open spec fn step<D, S, P, E>(
    state: UrScriptState<D, S, P>,
    event: UrScriptEvent<D, S, P, E>,
    g: GenerationView,
) -> (UrScriptState<D, S, P>, Seq<UrScriptEffectView>) {
    match (state, event) {
        (UrScriptState::Idle, UrScriptEvent::Request(Some(goal))) => if is_joint_move(goal) {
            (
                after_generation(g),
                seq![UrScriptEffectView::Accept] + aftermath(goal.command@, g),
            )
        } else {
            (
                UrScriptState::AwaitTarget { goal },
                seq![UrScriptEffectView::Accept, UrScriptEffectView::LookUp(target_lookup(goal))],
            )
        },
        (UrScriptState::Idle, UrScriptEvent::Request(None)) => (
            UrScriptState::Idle,
            seq![UrScriptEffectView::NextRequest],
        ),
        (UrScriptState::AwaitTarget { goal }, UrScriptEvent::LookedUp(response)) => match looked_up(
            response,
        ) {
            Some(target) => (
                UrScriptState::AwaitTcp { goal, target },
                seq![UrScriptEffectView::LookUp(tcp_lookup(goal))],
            ),
            None => (after_generation(g), aftermath(goal.command@, g)),
        },
        (UrScriptState::AwaitTcp { goal, .. }, UrScriptEvent::LookedUp(_)) => (
            after_generation(g),
            aftermath(goal.command@, g),
        ),
        (UrScriptState::AwaitAcceptance, UrScriptEvent::Sent(outcome)) => match failure_of(
            outcome,
        ) {
            None => (UrScriptState::AwaitResult, seq![UrScriptEffectView::AwaitResult]),
            Some(failure) => (
                UrScriptState::Idle,
                seq![
                    UrScriptEffectView::Reply(answer(Err(failure))),
                    UrScriptEffectView::NextRequest,
                ],
            ),
        },
        (UrScriptState::AwaitResult, UrScriptEvent::Ended(outcome)) => (
            UrScriptState::Idle,
            seq![
                UrScriptEffectView::Feedback(script_end(outcome).0),
                UrScriptEffectView::Reply(answer(script_end(outcome).1)),
                UrScriptEffectView::NextRequest,
            ],
        ),
        _ => (state, seq![]),
    }
}

/// Generating a script on the event may end in `g`, if the event has one generated.
pub open spec fn may_end_in<D, S, P, E>(
    state: UrScriptState<D, S, P>,
    event: UrScriptEvent<D, S, P, E>,
    templates: Map<Seq<char>, Seq<char>>,
    g: GenerationView,
) -> bool where D: Display + Into<tera::Value>, S: Into<tera::Value>, P: Display {
    generated_on(state, event) matches Some((goal, target, tcp)) ==> generates(
        goal,
        target,
        tcp,
        templates,
        g,
    )
}

/// How a goal ended whose script the driver accepted, with the feedback on it.
pub fn end_script<E>(outcome: ResultOutcome<bool, E>) -> (end: (String, Result<bool, E>))
    ensures
        (end.0@, end.1) == script_end(outcome),
{
    match outcome {
        ResultOutcome::Finished { status, message } => match status {
            GoalStatus::Aborted => (GOAL_ABORTED.to_string(), Ok(false)),
            _ => (SCRIPT_SUCCEEDED.to_string(), Ok(message)),
        },
        ResultOutcome::Lost(e) => (SCRIPT_FAILED.to_string(), Err(e)),
    }
}

/// The answer to a goal that ended so.
pub fn reply_to<E>(end: Result<bool, E>) -> (reply: Reply)
    ensures
        reply == answer(end),
{
    match end {
        Ok(success) => Reply::Succeed { success },
        Err(_) => Reply::Abort { success: false },
    }
}

/// Appends to the effects what carries out a goal once generating its script has ended so: what
/// went wrong is reported, and the script is handed to the driver, if there is one. Whether it was
/// is returned; answering the goal is left to the caller.
pub fn execute_urscript(
    command: String,
    generation: Generation,
    effects: &mut Vec<UrScriptEffect>,
) -> (sent: bool)
    ensures
        sent == (generation@.script is Ok),
        effect_views(final(effects)@) == effect_views(old(effects)@) + reports(
            command@,
            generation@,
        ) + dispatch(generation@),
{
    let ghost before = effects@;
    let ghost g = generation@;
    if let Some(reason) = generation.context_error {
        effects.push(UrScriptEffect::ReportNoContext { reason });
    }
    let sent = match generation.script {
        Ok(script) => {
            effects.push(UrScriptEffect::Feedback(SENDING_TO_DRIVER.to_string()));
            effects.push(UrScriptEffect::Send { script });
            true
        },
        Err(reason) => {
            effects.push(UrScriptEffect::ReportNoScript { command, reason });
            false
        },
    };
    assert(effect_views(effects@) =~= effect_views(before) + reports(command@, g) + dispatch(g));
    sent
}

/// Carries out a goal once generating its script has ended so, and answers it where there is no
/// script. What the server then waits for is returned.
fn proceed<D, S, P>(
    command: String,
    generation: Generation,
    effects: &mut Vec<UrScriptEffect>,
) -> (next: UrScriptState<D, S, P>)
    ensures
        next == after_generation::<D, S, P>(generation@),
        effect_views(final(effects)@) == effect_views(old(effects)@) + aftermath(
            command@,
            generation@,
        ),
{
    let ghost before = effects@;
    let ghost g = generation@;
    let sent = execute_urscript(command, generation, effects);
    let ghost carried_out = effects@;
    let next = if sent {
        UrScriptState::AwaitAcceptance
    } else {
        effects.push(UrScriptEffect::Reply(Reply::Succeed { success: false }));
        effects.push(UrScriptEffect::NextRequest);
        UrScriptState::Idle
    };
    assert(effect_views(effects@) =~= effect_views(carried_out) + conclusion(g));
    assert(effect_views(effects@) =~= effect_views(before) + aftermath(command@, g));
    next
}

/// Whether the server waits for an event of this sort.
pub fn is_expected<D, S, P, E>(
    state: &UrScriptState<D, S, P>,
    event: &UrScriptEvent<D, S, P, E>,
) -> (yes: bool)
    ensures
        yes == expects(*state, *event),
{
    match (state, event) {
        (UrScriptState::Idle, UrScriptEvent::Request(_)) => true,
        (UrScriptState::AwaitTarget { .. }, UrScriptEvent::LookedUp(_)) => true,
        (UrScriptState::AwaitTcp { .. }, UrScriptEvent::LookedUp(_)) => true,
        (UrScriptState::AwaitAcceptance, UrScriptEvent::Sent(_)) => true,
        (UrScriptState::AwaitResult, UrScriptEvent::Ended(_)) => true,
        _ => false,
    }
}

/// The server before its first request.
pub fn start<D, S, P>() -> (first: (UrScriptState<D, S, P>, Vec<UrScriptEffect>))
    ensures
        first.0 == UrScriptState::<D, S, P>::Idle,
        effect_views(first.1@) == seq![UrScriptEffectView::NextRequest],
{
    let effects: Vec<UrScriptEffect> = vec![UrScriptEffect::NextRequest];
    (UrScriptState::Idle, effects)
}

/// One step of the server.
pub fn urscript_controller_server<D, S, P, E>(
    state: UrScriptState<D, S, P>,
    event: UrScriptEvent<D, S, P, E>,
    templates: &tera::Tera,
) -> (next: (UrScriptState<D, S, P>, Vec<UrScriptEffect>)) where
    D: Copy + Display + Into<tera::Value>,
    S: Copy + Into<tera::Value>,
    P: Display,

    requires
        expects(state, event),
        generated_on(state, event) matches Some((goal, target, tcp)) ==> renders_to_an_end(
            goal,
            target,
            tcp,
            templates_of(*templates),
        ),
    ensures
        exists|g: GenerationView|
            {
                &&& #[trigger] may_end_in(state, event, templates_of(*templates), g)
                &&& next.0 == step(state, event, g).0
                &&& effect_views(next.1@) == step(state, event, g).1
            },
{
    let ghost no_generation = GenerationView { context_error: None, script: Ok(Seq::empty()) };
    let mut effects: Vec<UrScriptEffect> = Vec::new();
    match event {
        UrScriptEvent::Request(Some(goal)) => {
            effects.push(UrScriptEffect::Accept);
            if moves_by_joints(&goal) {
                let generation = generate_script(&goal, None, None, templates);
                let ghost g = generation@;
                let next = proceed(goal.command, generation, &mut effects);
                assert(may_end_in(state, event, templates_of(*templates), g));
                (next, effects)
            } else {
                let request = lookup_request(BASEFRAME_ID, goal.goal_feature_id.as_str());
                effects.push(UrScriptEffect::LookUp(request));
                assert(may_end_in(state, event, templates_of(*templates), no_generation));
                (UrScriptState::AwaitTarget { goal }, effects)
            }
        },
        UrScriptEvent::Request(None) => {
            effects.push(UrScriptEffect::NextRequest);
            assert(may_end_in(state, event, templates_of(*templates), no_generation));
            (UrScriptState::Idle, effects)
        },
        UrScriptEvent::LookedUp(response) => {
            let transform = lookup_tf(response);
            match state {
                UrScriptState::AwaitTarget { goal } => match transform {
                    Some(target) => {
                        let request = lookup_request(FACEPLATE_ID, goal.tcp_id.as_str());
                        effects.push(UrScriptEffect::LookUp(request));
                        assert(may_end_in(state, event, templates_of(*templates), no_generation));
                        (UrScriptState::AwaitTcp { goal, target }, effects)
                    },
                    None => {
                        let generation = generate_script(&goal, None, None, templates);
                        let ghost g = generation@;
                        let next = proceed(goal.command, generation, &mut effects);
                        assert(may_end_in(state, event, templates_of(*templates), g));
                        (next, effects)
                    },
                },
                UrScriptState::AwaitTcp { goal, target } => {
                    let generation = generate_script(&goal, Some(target), transform, templates);
                    let ghost g = generation@;
                    let next = proceed(goal.command, generation, &mut effects);
                    assert(may_end_in(state, event, templates_of(*templates), g));
                    (next, effects)
                },
                other => (other, effects),
            }
        },
        UrScriptEvent::Sent(outcome) => {
            assert(may_end_in(state, event, templates_of(*templates), no_generation));
            match request_failure(outcome) {
                None => {
                    effects.push(UrScriptEffect::AwaitResult);
                    (UrScriptState::AwaitResult, effects)
                },
                Some(failure) => {
                    effects.push(UrScriptEffect::Reply(reply_to(Err(failure))));
                    effects.push(UrScriptEffect::NextRequest);
                    (UrScriptState::Idle, effects)
                },
            }
        },
        UrScriptEvent::Ended(outcome) => {
            assert(may_end_in(state, event, templates_of(*templates), no_generation));
            let (feedback, end) = end_script(outcome);
            effects.push(UrScriptEffect::Feedback(feedback));
            effects.push(UrScriptEffect::Reply(reply_to(end)));
            effects.push(UrScriptEffect::NextRequest);
            (UrScriptState::Idle, effects)
        },
    }
}

/// An event with what generating a script ends in, if the event has one generated.
pub type Input<D, S, P, E> = (UrScriptEvent<D, S, P, E>, GenerationView);

/// The server after these inputs, and all its effects so far.
pub open spec fn run<D, S, P, E>(inputs: Seq<Input<D, S, P, E>>) -> (
    UrScriptState<D, S, P>,
    Seq<UrScriptEffectView>,
)
    decreases inputs.len(),
{
    if inputs.len() == 0 {
        (UrScriptState::Idle, seq![UrScriptEffectView::NextRequest])
    } else {
        let (state, effects) = run(inputs.drop_last());
        let (next, more) = step(state, inputs.last().0, inputs.last().1);
        (next, effects + more)
    }
}

/// Each event comes when the server waits for it.
pub open spec fn in_turn<D, S, P, E>(inputs: Seq<Input<D, S, P, E>>) -> bool {
    forall|i: int|
        0 <= i < inputs.len() ==> expects(run(inputs.take(i)).0, (#[trigger] inputs[i]).0)
}

/// How many goals were accepted.
pub open spec fn accepted(effects: Seq<UrScriptEffectView>) -> nat {
    count(effects, |e: UrScriptEffectView| e is Accept)
}

/// How many goals were answered.
pub open spec fn answered(effects: Seq<UrScriptEffectView>) -> nat {
    count(effects, |e: UrScriptEffectView| e is Reply)
}

/// How often the server asked for a request.
pub open spec fn asked(effects: Seq<UrScriptEffectView>) -> nat {
    count(effects, |e: UrScriptEffectView| e is NextRequest)
}

/// How often the stream of requests gave a goal or nothing.
pub open spec fn received<D, S, P, E>(inputs: Seq<Input<D, S, P, E>>) -> nat {
    count(inputs, |input: Input<D, S, P, E>| input.0 is Request)
}

/// What comes in turn came in turn before its last event, which the server then waits for.
proof fn lemma_in_turn_before<D, S, P, E>(inputs: Seq<Input<D, S, P, E>>)
    requires
        in_turn(inputs),
        inputs.len() > 0,
    ensures
        in_turn(inputs.drop_last()),
        expects(run(inputs.drop_last()).0, inputs.last().0),
{
    let before = inputs.drop_last();
    assert forall|i: int| 0 <= i < before.len() implies expects(
        run(before.take(i)).0,
        (#[trigger] before[i]).0,
    ) by {
        assert(before.take(i) =~= inputs.take(i));
        assert(before[i] == inputs[i]);
    }
    assert(inputs.take(inputs.len() - 1) =~= before);
    assert(expects(run(inputs.take(inputs.len() - 1)).0, inputs[inputs.len() - 1].0));
}

/// The effects of one step: a goal is accepted when it is requested, and answered when the server
/// becomes idle, which then asks for the next request.
proof fn lemma_effects_of_a_step<D, S, P, E>(
    state: UrScriptState<D, S, P>,
    event: UrScriptEvent<D, S, P, E>,
    g: GenerationView,
)
    requires
        expects(state, event),
    ensures
        ({
            let (next, effects) = step(state, event, g);
            let given = event matches UrScriptEvent::Request(Some(_));
            &&& accepted(effects) == if given {
                1nat
            } else {
                0nat
            }
            &&& answered(effects) == if next is Idle && (state !is Idle || given) {
                1nat
            } else {
                0nat
            }
            &&& asked(effects) == if next is Idle {
                1nat
            } else {
                0nat
            }
        }),
{
    reveal_with_fuel(count, 4);
    let is_accept = |e: UrScriptEffectView| e is Accept;
    let is_reply = |e: UrScriptEffectView| e is Reply;
    let is_next = |e: UrScriptEffectView| e is NextRequest;
    if let Some((goal, _, _)) = generated_on(state, event) {
        let accept = seq![UrScriptEffectView::Accept];
        let after = aftermath(goal.command@, g);
        lemma_effects_of_the_aftermath(goal.command@, g);
        lemma_count_of_concatenation(accept, after, is_accept);
        lemma_count_of_concatenation(accept, after, is_reply);
        lemma_count_of_concatenation(accept, after, is_next);
    }
}

/// What follows on generating a script accepts nothing; without a script the goal is answered once
/// and the next is asked for once.
proof fn lemma_effects_of_the_aftermath(command: Seq<char>, g: GenerationView)
    ensures
        accepted(aftermath(command, g)) == 0,
        answered(aftermath(command, g)) == if g.script is Err {
            1nat
        } else {
            0nat
        },
        asked(aftermath(command, g)) == if g.script is Err {
            1nat
        } else {
            0nat
        },
{
    reveal_with_fuel(count, 3);
    let is_accept = |e: UrScriptEffectView| e is Accept;
    let is_reply = |e: UrScriptEffectView| e is Reply;
    let is_next = |e: UrScriptEffectView| e is NextRequest;
    let told = reports(command, g);
    let done = dispatch(g);
    lemma_reports_neither_accept_nor_answer(command, g);
    lemma_count_of_concatenation(told + done, conclusion(g), is_accept);
    lemma_count_of_concatenation(told + done, conclusion(g), is_reply);
    lemma_count_of_concatenation(told + done, conclusion(g), is_next);
    lemma_count_of_concatenation(told, done, is_accept);
    lemma_count_of_concatenation(told, done, is_reply);
    lemma_count_of_concatenation(told, done, is_next);
}

/// A report accepts nothing, answers nothing and asks for nothing.
proof fn lemma_reports_neither_accept_nor_answer(command: Seq<char>, g: GenerationView)
    ensures
        accepted(reports(command, g)) == 0,
        answered(reports(command, g)) == 0,
        asked(reports(command, g)) == 0,
{
    reveal_with_fuel(count, 3);
    let on_context = match g.context_error {
        Some(reason) => seq![UrScriptEffectView::ReportNoContext { reason }],
        None => seq![],
    };
    let on_script = match g.script {
        Ok(_) => seq![],
        Err(reason) => seq![UrScriptEffectView::ReportNoScript { command, reason }],
    };
    lemma_count_of_concatenation(on_context, on_script, |e: UrScriptEffectView| e is Accept);
    lemma_count_of_concatenation(on_context, on_script, |e: UrScriptEffectView| e is Reply);
    lemma_count_of_concatenation(on_context, on_script, |e: UrScriptEffectView| e is NextRequest);
}

/// Each goal is answered exactly once before the next is accepted: at any time as many goals
/// were answered as were accepted, but for the one that the server works on.
pub proof fn law_each_goal_is_answered_once<D, S, P, E>(inputs: Seq<Input<D, S, P, E>>)
    requires
        in_turn(inputs),
    ensures
        ({
            let (state, effects) = run(inputs);
            accepted(effects) == answered(effects) + if state is Idle {
                0nat
            } else {
                1nat
            }
        }),
    decreases inputs.len(),
{
    reveal_with_fuel(count, 2);
    if inputs.len() > 0 {
        lemma_in_turn_before(inputs);
        law_each_goal_is_answered_once(inputs.drop_last());
        let (state, effects) = run(inputs.drop_last());
        let more = step(state, inputs.last().0, inputs.last().1).1;
        lemma_effects_of_a_step(state, inputs.last().0, inputs.last().1);
        lemma_count_of_concatenation(effects, more, |e: UrScriptEffectView| e is Accept);
        lemma_count_of_concatenation(effects, more, |e: UrScriptEffectView| e is Reply);
    }
}

/// The server asks for a request only when it has none to work on, and then at once: it has asked
/// once for each request that it was given, and once more while it is idle.
pub proof fn law_asks_only_when_idle<D, S, P, E>(inputs: Seq<Input<D, S, P, E>>)
    requires
        in_turn(inputs),
    ensures
        ({
            let (state, effects) = run(inputs);
            asked(effects) == received(inputs) + if state is Idle {
                1nat
            } else {
                0nat
            }
        }),
    decreases inputs.len(),
{
    reveal_with_fuel(count, 2);
    if inputs.len() > 0 {
        lemma_in_turn_before(inputs);
        law_asks_only_when_idle(inputs.drop_last());
        let (state, effects) = run(inputs.drop_last());
        let more = step(state, inputs.last().0, inputs.last().1).1;
        lemma_effects_of_a_step(state, inputs.last().0, inputs.last().1);
        lemma_count_of_concatenation(effects, more, |e: UrScriptEffectView| e is NextRequest);
    }
}

/// How many events the server can take, at most, before it is idle.
pub open spec fn events_to_go<D, S, P>(state: UrScriptState<D, S, P>) -> nat {
    match state {
        UrScriptState::Idle => 0,
        UrScriptState::AwaitTarget { .. } => 4,
        UrScriptState::AwaitTcp { .. } => 3,
        UrScriptState::AwaitAcceptance => 2,
        UrScriptState::AwaitResult => 1,
    }
}

/// The server does not stay with a goal: after any events it is idle again within the number of
/// further events that its state allows, which is four at most.
pub proof fn law_goal_is_answered_in_time<D, S, P, E>(inputs: Seq<Input<D, S, P, E>>, n: int)
    requires
        in_turn(inputs),
        0 <= n,
        n + events_to_go(run(inputs.take(n)).0) <= inputs.len(),
    ensures
        exists|m: int|
            n <= m <= n + events_to_go(run(inputs.take(n)).0) && #[trigger] run(
                inputs.take(m),
            ).0 is Idle,
        events_to_go(run(inputs.take(n)).0) <= 4,
    decreases events_to_go(run(inputs.take(n)).0),
{
    let state = run(inputs.take(n)).0;
    if state is Idle {
        assert(run(inputs.take(n)).0 is Idle);
    } else {
        assert(expects(state, inputs[n].0));
        assert(inputs.take(n + 1).drop_last() =~= inputs.take(n));
        assert(inputs.take(n + 1).last() == inputs[n]);
        let next = run(inputs.take(n + 1)).0;
        assert(next == step(state, inputs[n].0, inputs[n].1).0);
        law_goal_is_answered_in_time(inputs, n + 1);
    }
}

/// The driver is handed a script exactly where one was generated, and no other.
pub proof fn law_sends_exactly_the_generated_script<D, S, P, E>(
    state: UrScriptState<D, S, P>,
    event: UrScriptEvent<D, S, P, E>,
    g: GenerationView,
    script: Seq<char>,
)
    requires
        expects(state, event),
    ensures
        step(state, event, g).1.contains(UrScriptEffectView::Send { script }) <==> generated_on(
            state,
            event,
        ) is Some && g.script == Ok::<Seq<char>, Seq<char>>(script),
{
    lemma_effects_after_generation(state, event, g);
    let effects = step(state, event, g).1;
    if generated_on(state, event) is Some && g.script is Ok {
        assert(effects.last() == UrScriptEffectView::Send { script: g.script->Ok_0 });
    }
}

/// The last effects of a step that has a script generated are what is done with it, and those
/// before accept the goal or report.
proof fn lemma_effects_after_generation<D, S, P, E>(
    state: UrScriptState<D, S, P>,
    event: UrScriptEvent<D, S, P, E>,
    g: GenerationView,
)
    requires
        expects(state, event),
    ensures
        generated_on(state, event) is Some ==> {
            let effects = step(state, event, g).1;
            let done = dispatch(g) + conclusion(g);
            &&& effects.len() >= done.len()
            &&& effects.skip(effects.len() - done.len()) == done
            &&& forall|i: int|
                0 <= i < effects.len() - done.len() ==> (#[trigger] effects[i] is Accept
                    || effects[i] is ReportNoContext || effects[i] is ReportNoScript)
            &&& forall|i: int|
                effects.len() - done.len() <= i < effects.len() ==> #[trigger] effects[i] == done[i
                    - (effects.len() - done.len())]
        },
{
    if let Some((goal, _, _)) = generated_on(state, event) {
        let effects = step(state, event, g).1;
        let done = dispatch(g) + conclusion(g);
        assert(effects.skip(effects.len() - done.len()) =~= done);
    }
}

/// When and how a goal is answered. A goal without a script has not succeeded. A goal whose
/// script was not accepted, or whose result was lost, is aborted. Of a script that the driver
/// finished, success is what the driver says, unless it aborted.
pub open spec fn answers_with<D, S, P, E>(
    state: UrScriptState<D, S, P>,
    event: UrScriptEvent<D, S, P, E>,
    g: GenerationView,
) -> Option<Reply> {
    match event {
        UrScriptEvent::Sent(outcome) => match failure_of(outcome) {
            Some(_) => Some(Reply::Abort { success: false }),
            None => None,
        },
        UrScriptEvent::Ended(outcome) => match outcome {
            ResultOutcome::Finished { status, message } => Some(
                Reply::Succeed { success: message && status !is Aborted },
            ),
            ResultOutcome::Lost(_) => Some(Reply::Abort { success: false }),
        },
        _ => if generated_on(state, event) is Some && g.script is Err {
            Some(Reply::Succeed { success: false })
        } else {
            None
        },
    }
}

/// A step that has a script generated answers the goal exactly where there is no script.
proof fn lemma_answer_after_generation<D, S, P, E>(
    state: UrScriptState<D, S, P>,
    event: UrScriptEvent<D, S, P, E>,
    g: GenerationView,
    reply: Reply,
)
    requires
        expects(state, event),
        generated_on(state, event) is Some,
    ensures
        step(state, event, g).1.contains(UrScriptEffectView::Reply(reply)) <==> g.script is Err
            && reply == (Reply::Succeed { success: false }),
{
    lemma_effects_after_generation(state, event, g);
    let effects = step(state, event, g).1;
    if g.script is Err {
        assert(effects[effects.len() - 2] == UrScriptEffectView::Reply(
            Reply::Succeed { success: false },
        ));
    }
}

/// A step answers the goal exactly as `answers_with` says.
pub proof fn law_answers<D, S, P, E>(
    state: UrScriptState<D, S, P>,
    event: UrScriptEvent<D, S, P, E>,
    g: GenerationView,
    reply: Reply,
)
    requires
        expects(state, event),
    ensures
        step(state, event, g).1.contains(UrScriptEffectView::Reply(reply)) <==> answers_with(
            state,
            event,
            g,
        ) == Some(reply),
{
    let effects = step(state, event, g).1;
    match event {
        UrScriptEvent::Sent(outcome) => {
            if failure_of(outcome) is Some {
                assert(effects[0] == UrScriptEffectView::Reply(Reply::Abort { success: false }));
            }
        },
        UrScriptEvent::Ended(outcome) => {
            assert(effects[1] == UrScriptEffectView::Reply(answer(script_end(outcome).1)));
        },
        _ => {
            if generated_on(state, event) is Some {
                lemma_answer_after_generation(state, event, g, reply);
            } else {
                assert(forall|i: int| 0 <= i < effects.len() ==> effects[i] !is Reply);
            }
        },
    }
}

/// How a goal ended, where generating its script ended in `g`, handing that to the driver had the
/// outcome `sent`, and the driver came to the outcome `ended`.
pub open spec fn executed<E>(
    g: GenerationView,
    sent: RequestOutcome<E>,
    ended: ResultOutcome<bool, E>,
) -> Result<bool, E> {
    match g.script {
        Ok(_) => match failure_of(sent) {
            Some(e) => Err(e),
            None => script_end(ended).1,
        },
        Err(_) => Ok(false),
    }
}

/// A goal fails only where it has a script, and then with the error of the first step that failed:
/// of sending the script, of its acceptance or of its result.
pub proof fn law_fails_with_the_first_error<E>(
    g: GenerationView,
    sent: RequestOutcome<E>,
    ended: ResultOutcome<bool, E>,
    e: E,
)
    ensures
        executed(g, sent, ended) == Err::<bool, E>(e) <==> g.script is Ok && {
            ||| sent == RequestOutcome::NotSent(e)
            ||| sent == RequestOutcome::NotAccepted(e)
            ||| sent is Accepted && ended == ResultOutcome::<bool, E>::Lost(e)
        },
{
}

/// A goal is answered as it ended. Without a script, or where handing it to the driver failed,
/// that is the end: no later step is tried, and nothing is sent again.
pub proof fn law_answers_as_it_ended<D, S, P, E>(
    state: UrScriptState<D, S, P>,
    event: UrScriptEvent<D, S, P, E>,
    g: GenerationView,
    sent: RequestOutcome<E>,
    ended: ResultOutcome<bool, E>,
)
    requires
        expects(state, event),
        generated_on(state, event) is Some,
    ensures
        ({
            let reply = UrScriptEffectView::Reply(answer(executed(g, sent, ended)));
            let on_sent = UrScriptEvent::<D, S, P, E>::Sent(sent);
            let on_ended = UrScriptEvent::<D, S, P, E>::Ended(ended);
            let (generated, effects) = step(state, event, g);
            let (handed_over, more) = step(generated, on_sent, g);
            if g.script is Err {
                &&& generated is Idle
                &&& effects.contains(reply)
            } else if sent is Accepted {
                &&& generated is AwaitAcceptance
                &&& handed_over is AwaitResult
                &&& more == seq![UrScriptEffectView::AwaitResult]
                &&& step(handed_over, on_ended, g).0 is Idle
                &&& step(handed_over, on_ended, g).1 == seq![
                    UrScriptEffectView::Feedback(script_end(ended).0),
                    reply,
                    UrScriptEffectView::NextRequest,
                ]
            } else {
                &&& generated is AwaitAcceptance
                &&& handed_over is Idle
                &&& more == seq![reply, UrScriptEffectView::NextRequest]
            }
        }),
{
    law_answers(state, event, g, Reply::Succeed { success: false });
}

/// A goal succeeds only where the driver finished its script, did not abort it and says that it
/// went well.
pub proof fn law_success_is_the_drivers<D, S, P, E>(
    state: UrScriptState<D, S, P>,
    event: UrScriptEvent<D, S, P, E>,
    g: GenerationView,
)
    requires
        expects(state, event),
        step(state, event, g).1.contains(
            UrScriptEffectView::Reply(Reply::Succeed { success: true }),
        ),
    ensures
        state is AwaitResult,
        event matches UrScriptEvent::Ended(ResultOutcome::Finished { status, message }) && message
            && status !is Aborted,
{
    law_answers(state, event, g, Reply::Succeed { success: true });
}

/// The target is looked up first, from the base, then the tool centre point, from the face plate,
/// and only if the target was found. A joint move looks nothing up.
pub proof fn law_looks_up_in_order<D, S, P, E>(
    state: UrScriptState<D, S, P>,
    event: UrScriptEvent<D, S, P, E>,
    g: GenerationView,
    request: LookupRequestView,
)
    requires
        expects(state, event),
    ensures
        step(state, event, g).1.contains(UrScriptEffectView::LookUp(request)) <==> match (
            state,
            event,
        ) {
            (UrScriptState::Idle, UrScriptEvent::Request(Some(goal))) => !is_joint_move(goal)
                && request == target_lookup(goal),
            (UrScriptState::AwaitTarget { goal }, UrScriptEvent::LookedUp(response)) =>
                response.success && request == tcp_lookup(goal),
            _ => false,
        },
{
    lemma_effects_after_generation(state, event, g);
    let effects = step(state, event, g).1;
    match (state, event) {
        (UrScriptState::Idle, UrScriptEvent::Request(Some(goal))) => {
            if !is_joint_move(goal) {
                assert(effects[1] == UrScriptEffectView::LookUp(target_lookup(goal)));
            }
        },
        (UrScriptState::AwaitTarget { goal }, UrScriptEvent::LookedUp(response)) => {
            if response.success {
                assert(effects[0] == UrScriptEffectView::LookUp(tcp_lookup(goal)));
            }
        },
        _ => {},
    }
}

/// A command for which there is no template is answered without success, and nothing is handed
/// to the driver.
pub proof fn law_unknown_command_is_answered<D, S, P, E>(
    state: UrScriptState<D, S, P>,
    event: UrScriptEvent<D, S, P, E>,
    templates: Map<Seq<char>, Seq<char>>,
    g: GenerationView,
    script: Seq<char>,
) where D: Display + Into<tera::Value>, S: Into<tera::Value>, P: Display
    requires
        expects(state, event),
        may_end_in(state, event, templates, g),
        generated_on(state, event) matches Some((goal, _, _)) && !templates.contains_key(
            template_name(goal.command@),
        ),
    ensures
        step(state, event, g).0 is Idle,
        step(state, event, g).1.contains(
            UrScriptEffectView::Reply(Reply::Succeed { success: false }),
        ),
        !step(state, event, g).1.contains(UrScriptEffectView::Send { script }),
{
    law_answers(state, event, g, Reply::Succeed { success: false });
    law_sends_exactly_the_generated_script(state, event, g, script);
}

/// The goal that was requested last, if the last request was a goal.
pub open spec fn last_goal<D, S, P, E>(inputs: Seq<Input<D, S, P, E>>) -> Option<UrControlGoal<D, S, P>>
    decreases inputs.len(),
{
    if inputs.len() == 0 {
        None
    } else {
        match inputs.last().0 {
            UrScriptEvent::Request(request) => request,
            _ => last_goal(inputs.drop_last()),
        }
    }
}

/// The goal that the server looks frames up for, if it does.
pub open spec fn goal_in<D, S, P>(state: UrScriptState<D, S, P>) -> Option<UrControlGoal<D, S, P>> {
    match state {
        UrScriptState::AwaitTarget { goal } => Some(goal),
        UrScriptState::AwaitTcp { goal, .. } => Some(goal),
        _ => None,
    }
}

/// The goal that a step leaves the server with, and the goal whose script it has generated, is the
/// one that the event brought or else the one that the server had.
proof fn lemma_step_keeps_the_goal<D, S, P, E>(
    state: UrScriptState<D, S, P>,
    event: UrScriptEvent<D, S, P, E>,
    g: GenerationView,
)
    requires
        expects(state, event),
    ensures
        ({
            let current = match event {
                UrScriptEvent::Request(request) => request,
                _ => goal_in(state),
            };
            &&& goal_in(step(state, event, g).0) is Some ==> goal_in(step(state, event, g).0)
                == current
            &&& generated_on(state, event) matches Some((goal, _, _)) ==> current == Some(goal)
        }),
{
}

/// The server never mixes goals up: the goal that it looks frames up for, and the goal whose
/// script it has generated on the next event, is the one that was requested last.
pub proof fn law_works_on_the_last_goal<D, S, P, E>(
    inputs: Seq<Input<D, S, P, E>>,
    next: Input<D, S, P, E>,
)
    requires
        in_turn(inputs),
        expects(run(inputs).0, next.0),
    ensures
        goal_in(run(inputs).0) is Some ==> last_goal(inputs) == goal_in(run(inputs).0),
        generated_on(run(inputs).0, next.0) matches Some((goal, _, _)) ==> last_goal(
            inputs.push(next),
        ) == Some(goal),
{
    lemma_goal_is_the_last(inputs);
    lemma_step_keeps_the_goal(run(inputs).0, next.0, next.1);
    assert(inputs.push(next).drop_last() =~= inputs);
}

/// The goal that the server looks frames up for is the one that was requested last.
proof fn lemma_goal_is_the_last<D, S, P, E>(inputs: Seq<Input<D, S, P, E>>)
    requires
        in_turn(inputs),
    ensures
        goal_in(run(inputs).0) is Some ==> last_goal(inputs) == goal_in(run(inputs).0),
    decreases inputs.len(),
{
    if inputs.len() > 0 {
        lemma_in_turn_before(inputs);
        lemma_goal_is_the_last(inputs.drop_last());
        let state = run(inputs.drop_last()).0;
        lemma_step_keeps_the_goal(state, inputs.last().0, inputs.last().1);
        assert(run(inputs).0 == step(state, inputs.last().0, inputs.last().1).0);
    }
}

/// The effect tells the client this text.
pub open spec fn says(effect: UrScriptEffect, text: Seq<char>) -> bool {
    effect matches UrScriptEffect::Feedback(said) && said@ == text
}

/// The effect asks where the frame `child` is, seen from the frame `parent`.
pub open spec fn asks_for(effect: UrScriptEffect, parent: Seq<char>, child: Seq<char>) -> bool {
    effect matches UrScriptEffect::LookUp(request) && request.parent_frame_id@ == parent
        && request.child_frame_id@ == child
}

/// Each effect lies behind its view.
proof fn lemma_effects_behind_their_views(effects: Seq<UrScriptEffect>)
    ensures
        effect_views(effects).len() == effects.len(),
        forall|i: int|
            0 <= i < effects.len() ==> (#[trigger] effects[i])@ == effect_views(effects)[i],
{
}

/// The server waits for a request while it is idle, for the answer of the transform service while
/// it looks a frame up, for the outcome of handing a script over once it has handed one over, and
/// for the end of that script once it was accepted; for nothing else.
pub proof fn law_waits_for_one_thing<D, S, P, E>(
    state: UrScriptState<D, S, P>,
    event: UrScriptEvent<D, S, P, E>,
)
    ensures
        expects(state, event) <==> {
            ||| state is Idle && event is Request
            ||| (state is AwaitTarget || state is AwaitTcp) && event is LookedUp
            ||| state is AwaitAcceptance && event is Sent
            ||| state is AwaitResult && event is Ended
        },
{
}

/// A goal is accepted when it is requested. Unless it has its joint positions used and its command
/// is `move_j`, its target is asked for next: the frame of the goal, seen from the base. No other
/// field of the goal has a say in this.
pub proof fn law_target_is_asked_for_first<D, S, P, E>(
    goal: UrControlGoal<D, S, P>,
    g: GenerationView,
    next: UrScriptState<D, S, P>,
    effects: Seq<UrScriptEffect>,
)
    requires
        ({
            let event = UrScriptEvent::<D, S, P, E>::Request(Some(goal));
            &&& next == step(UrScriptState::Idle, event, g).0
            &&& effect_views(effects) == step(UrScriptState::Idle, event, g).1
        }),
    ensures
        effects.len() > 0,
        effects[0] is Accept,
        !(goal.use_joint_positions && goal.command@ == "move_j"@) ==> {
            &&& next == UrScriptState::AwaitTarget { goal }
            &&& effects.len() == 2
            &&& asks_for(effects[1], "base_link"@, goal.goal_feature_id@)
        },
        goal.use_joint_positions && goal.command@ == "move_j"@ ==> {
            &&& next is Idle || next is AwaitAcceptance
            &&& forall|i: int| 0 <= i < effects.len() ==> #[trigger] effects[i] !is LookUp
        },
{
    lemma_effects_behind_their_views(effects);
    let event = UrScriptEvent::<D, S, P, E>::Request(Some(goal));
    if goal.use_joint_positions && goal.command@ == "move_j"@ {
        lemma_effects_after_generation(UrScriptState::Idle, event, g);
        assert forall|i: int| 0 <= i < effects.len() implies #[trigger] effects[i] !is LookUp by {
            assert(effects[i]@ == step(UrScriptState::Idle, event, g).1[i]);
        }
    }
}

/// Where nothing is requested, the next request is asked for.
pub proof fn law_no_request_asks_again<D, S, P, E>(
    g: GenerationView,
    next: UrScriptState<D, S, P>,
    effects: Seq<UrScriptEffect>,
)
    requires
        ({
            let event = UrScriptEvent::<D, S, P, E>::Request(None);
            &&& next == step(UrScriptState::Idle, event, g).0
            &&& effect_views(effects) == step(UrScriptState::Idle, event, g).1
        }),
    ensures
        next is Idle,
        effects.len() == 1,
        effects[0] is NextRequest,
{
    lemma_effects_behind_their_views(effects);
}

/// Once the target was found the tool centre point is asked for: the frame of the tool, seen from
/// the face plate. The goal is kept, and so is the transform that was found.
pub proof fn law_tcp_is_asked_for_second<D, S, P, E>(
    goal: UrControlGoal<D, S, P>,
    response: LookupResponse<D>,
    g: GenerationView,
    next: UrScriptState<D, S, P>,
    effects: Seq<UrScriptEffect>,
)
    requires
        response.success,
        ({
            let event = UrScriptEvent::<D, S, P, E>::LookedUp(response);
            &&& next == step(UrScriptState::AwaitTarget { goal }, event, g).0
            &&& effect_views(effects) == step(UrScriptState::AwaitTarget { goal }, event, g).1
        }),
    ensures
        next == (UrScriptState::AwaitTcp { goal, target: response.transform }),
        effects.len() == 1,
        asks_for(effects[0], "tool0"@, goal.tcp_id@),
{
    lemma_effects_behind_their_views(effects);
}

/// When a script is generated, and of what: of a joint move at once, without transforms; of any
/// other goal when its target was not found, without transforms, or else when the tool centre point
/// was looked up, with the transform of the target and that of the tool centre point, if it was
/// found. In no other event.
pub proof fn law_when_a_script_is_generated<D, S, P, E>(
    state: UrScriptState<D, S, P>,
    event: UrScriptEvent<D, S, P, E>,
)
    ensures
        generated_on(state, event) == match state {
            UrScriptState::Idle => match event {
                UrScriptEvent::Request(Some(goal)) if goal.use_joint_positions && goal.command@
                    == "move_j"@ => Some((goal, None::<Pose<D>>, None::<Pose<D>>)),
                _ => None,
            },
            UrScriptState::AwaitTarget { goal } => match event {
                UrScriptEvent::LookedUp(response) if !response.success => Some((goal, None, None)),
                _ => None,
            },
            UrScriptState::AwaitTcp { goal, target } => match event {
                UrScriptEvent::LookedUp(response) if response.success => Some(
                    (goal, Some(target), Some(response.transform)),
                ),
                UrScriptEvent::LookedUp(_) => Some((goal, Some(target), None)),
                _ => None,
            },
            _ => None,
        },
{
}

/// What follows on generating a script, in order: the goal is accepted, if it was just requested;
/// what went wrong is reported; and a script is handed to the driver, letter for letter, after the
/// client has heard of it, or else the goal is answered without success and the next is asked for.
pub proof fn law_generated_script_is_handed_over<D, S, P, E>(
    state: UrScriptState<D, S, P>,
    event: UrScriptEvent<D, S, P, E>,
    goal: UrControlGoal<D, S, P>,
    g: Generation,
    next: UrScriptState<D, S, P>,
    effects: Seq<UrScriptEffect>,
)
    requires
        expects(state, event),
        generated_on(state, event) matches Some((of, _, _)) && of == goal,
        next == step(state, event, g@).0,
        effect_views(effects) == step(state, event, g@).1,
    ensures
        ({
            let accepting = if event is Request {
                1int
            } else {
                0int
            };
            let reporting = if g.context_error is Some {
                1int
            } else {
                0int
            };
            let n = accepting + reporting;
            &&& effects.len() == n + if g.script is Ok {
                2int
            } else {
                3int
            }
            &&& event is Request ==> effects[0] is Accept
            &&& g.context_error matches Some(reason) ==> (
            effects[accepting] matches UrScriptEffect::ReportNoContext { reason: told } && told@
                == reason@)
            &&& g.script matches Ok(script) ==> {
                &&& next is AwaitAcceptance
                &&& says(effects[n], "Sending request to UR Script Driver."@)
                &&& effects[n + 1] matches UrScriptEffect::Send { script: sent } && sent@
                    == script@
            }
            &&& g.script matches Err(reason) ==> {
                &&& next is Idle
                &&& effects[n] matches UrScriptEffect::ReportNoScript { command, reason: told }
                    && command@ == goal.command@ && told@ == reason@
                &&& effects[n + 1] == UrScriptEffect::Reply(Reply::Succeed { success: false })
                &&& effects[n + 2] is NextRequest
            }
        }),
{
    lemma_effects_behind_their_views(effects);
    let views = step(state, event, g@).1;
    assert(forall|i: int| 0 <= i < effects.len() ==> (#[trigger] effects[i])@ == views[i]);
}

/// A script that could not be sent or was not accepted has its goal aborted, and the next is asked
/// for. For one that was accepted the result is waited for.
pub proof fn law_handed_over_or_aborted<D, S, P, E>(
    outcome: RequestOutcome<E>,
    g: GenerationView,
    next: UrScriptState<D, S, P>,
    effects: Seq<UrScriptEffect>,
)
    requires
        ({
            let event = UrScriptEvent::<D, S, P, E>::Sent(outcome);
            &&& next == step(UrScriptState::AwaitAcceptance, event, g).0
            &&& effect_views(effects) == step(UrScriptState::AwaitAcceptance, event, g).1
        }),
    ensures
        outcome is Accepted ==> next is AwaitResult && effects.len() == 1
            && effects[0] is AwaitResult,
        outcome is NotSent || outcome is NotAccepted ==> {
            &&& next is Idle
            &&& effects.len() == 2
            &&& effects[0] == UrScriptEffect::Reply(Reply::Abort { success: false })
            &&& effects[1] is NextRequest
        },
{
    lemma_effects_behind_their_views(effects);
}

/// Once the driver is done the client hears how, its goal is answered, and the next is asked for.
/// The goal has succeeded as the driver says, unless the driver aborted it; it is aborted where the
/// result was lost.
pub proof fn law_end_is_told_and_answered<D, S, P, E>(
    outcome: ResultOutcome<bool, E>,
    g: GenerationView,
    next: UrScriptState<D, S, P>,
    effects: Seq<UrScriptEffect>,
)
    requires
        ({
            let event = UrScriptEvent::<D, S, P, E>::Ended(outcome);
            &&& next == step(UrScriptState::AwaitResult, event, g).0
            &&& effect_views(effects) == step(UrScriptState::AwaitResult, event, g).1
        }),
    ensures
        next is Idle,
        effects.len() == 3,
        outcome matches ResultOutcome::Finished { status, message } ==> {
            &&& status is Aborted ==> {
                &&& says(effects[0], "Goal succesfully aborted."@)
                &&& effects[1] == UrScriptEffect::Reply(Reply::Succeed { success: false })
            }
            &&& status !is Aborted ==> {
                &&& says(effects[0], "Executing the UR Script succeeded."@)
                &&& effects[1] == UrScriptEffect::Reply(Reply::Succeed { success: message })
            }
        },
        outcome is Lost ==> {
            &&& says(effects[0], "UR Script Driver Action failed. Aborting."@)
            &&& effects[1] == UrScriptEffect::Reply(Reply::Abort { success: false })
        },
        effects[2] is NextRequest,
{
    lemma_effects_behind_their_views(effects);
}

/// From a request to its script: a goal that is no joint move, whatever its flags are, has its frame
/// looked up from the base and its tool from the face plate, and its script is the template of its
/// command, rendered over its own values with the first transform for the target and the second for
/// the tool centre point.
pub proof fn law_frame_move_is_rendered_over_its_own_frames<D, S, P, E>(
    goal: UrControlGoal<D, S, P>,
    of_target: LookupResponse<D>,
    of_tcp: LookupResponse<D>,
    templates: Map<Seq<char>, Seq<char>>,
    unused: GenerationView,
    g: Generation,
    first: Seq<UrScriptEffect>,
    second: Seq<UrScriptEffect>,
) where D: Display + Into<tera::Value>, S: Into<tera::Value>, P: Display
    requires
        !(goal.use_joint_positions && goal.command@ == "move_j"@),
        of_target.success,
        of_tcp.success,
        ({
            let requested = UrScriptEvent::<D, S, P, E>::Request(Some(goal));
            let found = UrScriptEvent::<D, S, P, E>::LookedUp(of_target);
            let found_too = UrScriptEvent::<D, S, P, E>::LookedUp(of_tcp);
            let (looking, asked_first) = step(UrScriptState::Idle, requested, unused);
            let (looking_on, asked_second) = step(looking, found, unused);
            &&& effect_views(first) == asked_first
            &&& effect_views(second) == asked_second
            &&& may_end_in(looking_on, found_too, templates, g@)
        }),
    ensures
        first.len() == 2,
        first[0] is Accept,
        asks_for(first[1], "base_link"@, goal.goal_feature_id@),
        second.len() == 1,
        asks_for(second[0], "tool0"@, goal.tcp_id@),
        exists|entries: Map<Seq<char>, tera::Value>, outcome: Result<Seq<char>, tera::Error>|
            {
                &&& #[trigger] holds_goal(entries, goal)
                &&& holds_pose(entries["target_in_base"@], of_target.transform)
                &&& holds_pose(entries["tcp_in_faceplate"@], of_tcp.transform)
                &&& may_render(templates, goal.command@ + ".script"@, entries, Some(outcome))
                &&& #[trigger] script_is(g.script, outcome)
            },
        g.context_error is None,
{
    let requested = UrScriptEvent::<D, S, P, E>::Request(Some(goal));
    let found = UrScriptEvent::<D, S, P, E>::LookedUp(of_target);
    let (looking, _) = step(UrScriptState::Idle, requested, unused);
    let (looking_on, _) = step(looking, found, unused);
    law_target_is_asked_for_first::<D, S, P, E>(goal, unused, looking, first);
    law_tcp_is_asked_for_second::<D, S, P, E>(goal, of_target, unused, looking_on, second);
    let (target, tcp) = (Some(of_target.transform), Some(of_tcp.transform));
    assert(generates(goal, target, tcp, templates, g@));
    law_script_is_the_template_over_the_goal(goal, target, tcp, templates, g);
    let (entries, outcome) = choose|
        entries: Map<Seq<char>, tera::Value>,
        outcome: Result<Seq<char>, tera::Error>,
    |
        {
            &&& #[trigger] is_rendered_over(goal, target, tcp, entries)
            &&& may_render(templates, goal.command@ + ".script"@, entries, Some(outcome))
            &&& #[trigger] script_is(g.script, outcome)
        };
    assert(holds_goal(entries, goal));
}

/// A joint move, whatever its frames are, has its script generated at once: the template of its
/// command, rendered over its own values with the identity for both frames.
pub proof fn law_joint_move_is_rendered_over_the_identity<D, S, P, E>(
    goal: UrControlGoal<D, S, P>,
    templates: Map<Seq<char>, Seq<char>>,
    g: Generation,
) where D: Display + Into<tera::Value>, S: Into<tera::Value>, P: Display
    requires
        goal.use_joint_positions,
        goal.command@ == "move_j"@,
        may_end_in(
            UrScriptState::Idle,
            UrScriptEvent::<D, S, P, E>::Request(Some(goal)),
            templates,
            g@,
        ),
    ensures
        exists|entries: Map<Seq<char>, tera::Value>, outcome: Result<Seq<char>, tera::Error>|
            {
                &&& #[trigger] holds_goal(entries, goal)
                &&& entries["target_in_base"@] == text_value("p[0,0,0,0,0,0]"@)
                &&& entries["tcp_in_faceplate"@] == text_value("p[0,0,0,0,0,0]"@)
                &&& may_render(templates, "move_j"@ + ".script"@, entries, Some(outcome))
                &&& #[trigger] script_is(g.script, outcome)
            },
        g.context_error is None,
{
    let none = None::<Pose<D>>;
    assert(generates(goal, none, none, templates, g@));
    law_script_is_the_template_over_the_goal(goal, none, none, templates, g);
    let (entries, outcome) = choose|
        entries: Map<Seq<char>, tera::Value>,
        outcome: Result<Seq<char>, tera::Error>,
    |
        {
            &&& #[trigger] is_rendered_over(goal, none, none, entries)
            &&& may_render(templates, goal.command@ + ".script"@, entries, Some(outcome))
            &&& #[trigger] script_is(g.script, outcome)
        };
    assert(holds_goal(entries, goal));
}

/// Carrying a goal out keeps the effects that were there, reports what went wrong and hands the
/// script over, if there is one. It answers nothing and asks for nothing.
pub proof fn law_execution_only_reports_and_sends(
    command: Seq<char>,
    g: Generation,
    before: Seq<UrScriptEffect>,
    after: Seq<UrScriptEffect>,
)
    requires
        effect_views(after) == effect_views(before) + reports(command, g@) + dispatch(g@),
    ensures
        ({
            let reporting = if g.context_error is Some {
                1int
            } else {
                0int
            };
            let n = before.len() + reporting;
            &&& after.len() == n + if g.script is Ok {
                2int
            } else {
                1int
            }
            &&& forall|i: int| 0 <= i < before.len() ==> #[trigger] after[i]@ == before[i]@
            &&& g.context_error matches Some(reason) ==> (
            after[before.len() as int] matches UrScriptEffect::ReportNoContext { reason: told }
                && told@ == reason@)
            &&& g.script matches Ok(script) ==> {
                &&& says(after[n], "Sending request to UR Script Driver."@)
                &&& after[n + 1] matches UrScriptEffect::Send { script: sent } && sent@ == script@
            }
            &&& g.script matches Err(reason) ==> (
            after[n] matches UrScriptEffect::ReportNoScript { command: of, reason: told } && of@
                == command && told@ == reason@)
        }),
{
    lemma_effects_behind_their_views(before);
    lemma_effects_behind_their_views(after);
    let views = effect_views(before) + reports(command, g@) + dispatch(g@);
    assert(forall|i: int| 0 <= i < after.len() ==> (#[trigger] after[i])@ == views[i]);
    assert(forall|i: int| 0 <= i < before.len() ==> views[i] == #[trigger] before[i]@);
}

} // verus!
