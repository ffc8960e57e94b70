//! The script of a goal: the template of its command, rendered over its meaning.

use crate::interpretation::{
    describes, interpret_message, is_joint_literal, is_joint_move,
    law_each_frame_is_the_one_looked_up, law_each_value_keeps_its_name,
    law_each_variable_is_its_field, law_joint_move_gets_the_identity, law_variable_names_differ,
    means, variables, Interpretation,
};
use crate::messages::{Payload, Pose, UrControlGoal};
use crate::templates::{
    context_entries, context_from_serialize, flag_value, may_render, no_entries, not_found,
    rendered_text, returns_from, templates_of, text_value, NO_OBJECT,
};
use crate::text::{displays, is_list_of_six, is_payload_literal, law_shown_text, shown_as};
use core::fmt::Display;
use vstd::prelude::*;
use vstd::string::StringExecFns;

verus! {

/// What came of generating a script.
#[derive(Debug, PartialEq)]
pub struct Generation {
    /// Why no context could be made of the meaning of the goal, where none could.
    pub context_error: Option<String>,
    /// The script, or why the template did not render.
    pub script: Result<String, String>,
}

/// What came of generating a script, with texts as sequences of characters.
pub struct GenerationView {
    pub context_error: Option<Seq<char>>,
    pub script: Result<Seq<char>, Seq<char>>,
}

impl View for Generation {
    type V = GenerationView;

    open spec fn view(&self) -> GenerationView {
        GenerationView {
            context_error: match self.context_error {
                Some(reason) => Some(reason@),
                None => None,
            },
            script: match self.script {
                Ok(script) => Ok(script@),
                Err(reason) => Err(reason@),
            },
        }
    }
}

/// The name of the template of a command.
pub open spec fn template_name(command: Seq<char>) -> Seq<char> {
    command + ".script"@
}

/// The variables over which a goal of this meaning is rendered: those of its interpretation, and
/// none at all where it has none.
pub open spec fn renders_over<D: Into<tera::Value>, S: Into<tera::Value>>(
    meaning: Option<Interpretation<D, S>>,
    entries: Map<Seq<char>, tera::Value>,
) -> bool {
    match meaning {
        Some(i) => describes(i, entries),
        None => entries == no_entries(),
    }
}

/// `script` is what the rendering gave: the text that came out, or the text of the error.
pub open spec fn tells(
    outcome: Result<Seq<char>, tera::Error>,
    script: Result<Seq<char>, Seq<char>>,
) -> bool {
    match outcome {
        Ok(text) => script == Ok::<Seq<char>, Seq<char>>(text),
        Err(e) => script is Err && displays(e, script->Err_0),
    }
}

/// Why a goal of this meaning has no context, if it has none.
pub open spec fn refusal<D, S>(meaning: Option<Interpretation<D, S>>) -> Option<Seq<char>> {
    match meaning {
        Some(_) => None,
        None => Some(NO_OBJECT@),
    }
}

/// Generating the script of the goal may end in `g`, where the lookups of its frames gave `target`
/// and `tcp`: the template of its command is rendered over its meaning. A goal without a meaning
/// is rendered over no variables, and says why. A command without a template has no script, and
/// says so.
pub open spec fn generates<D, S, P>(
    message: UrControlGoal<D, S, P>,
    target: Option<Pose<D>>,
    tcp: Option<Pose<D>>,
    templates: Map<Seq<char>, Seq<char>>,
    g: GenerationView,
) -> bool where D: Display + Into<tera::Value>, S: Into<tera::Value>, P: Display {
    let name = template_name(message.command@);
    &&& exists|
        meaning: Option<Interpretation<D, S>>,
        entries: Map<Seq<char>, tera::Value>,
        outcome: Result<Seq<char>, tera::Error>,
    |
        {
            &&& #[trigger] means(message, target, tcp, meaning)
            &&& #[trigger] renders_over(meaning, entries)
            &&& may_render(templates, name, entries, Some(outcome))
            &&& #[trigger] tells(outcome, g.script)
            &&& g.context_error == refusal(meaning)
        }
    &&& !templates.contains_key(name) ==> g.script == Err::<Seq<char>, Seq<char>>(not_found(name))
}

/// Rendering the template of the command returns, whatever the meaning of the goal is where the
/// lookups of its frames gave `target` and `tcp`.
pub open spec fn renders_to_an_end<D, S, P>(
    message: UrControlGoal<D, S, P>,
    target: Option<Pose<D>>,
    tcp: Option<Pose<D>>,
    templates: Map<Seq<char>, Seq<char>>,
) -> bool where D: Display + Into<tera::Value>, S: Into<tera::Value>, P: Display {
    forall|meaning: Option<Interpretation<D, S>>, entries: Map<Seq<char>, tera::Value>|
        #[trigger] means(message, target, tcp, meaning) && #[trigger] renders_over(meaning, entries)
            ==> returns_from(templates, template_name(message.command@), entries)
}

/// The context of a meaning. The context of no meaning is empty, and comes with the reason.
pub fn script_context<D, S>(meaning: Option<Interpretation<D, S>>) -> (made: (
    tera::Context,
    Option<String>,
)) where D: Copy + Into<tera::Value>, S: Copy + Into<tera::Value>
    ensures
        renders_over(meaning, context_entries(made.0)),
        made.1 is Some <==> meaning is None,
        made.1 is Some ==> Some(made.1->Some_0@) == refusal(meaning),
{
    let fields = match &meaning {
        Some(i) => Some(variables(i)),
        None => None,
    };
    proof {
        law_variable_names_differ();
    }
    match context_from_serialize(fields) {
        Ok(context) => (context, None),
        Err(e) => {
            let reason = e.to_string();
            assert(displays(e, reason@));
            (tera::Context::new(), Some(reason))
        },
    }
}

/// What came of generating a script, from what came of making its context and of rendering it.
pub fn generation(
    context_error: Option<String>,
    rendered: Result<String, tera::Error>,
) -> (g: Generation)
    ensures
        g.context_error == context_error,
        tells(rendered_text(rendered), g@.script),
{
    let script = match rendered {
        Ok(script) => Ok(script),
        Err(e) => {
            let reason = e.to_string();
            assert(displays(e, reason@));
            Err(reason)
        },
    };
    Generation { context_error, script }
}

/// Renders the template of the command over the meaning of the goal, given what the lookups of
/// its target and of its tool centre point gave.
pub fn generate_script<D, S, P>(
    message: &UrControlGoal<D, S, P>,
    target: Option<Pose<D>>,
    tcp: Option<Pose<D>>,
    templates: &tera::Tera,
) -> (g: Generation) where
    D: Copy + Display + Into<tera::Value>,
    S: Copy + Into<tera::Value>,
    P: Display,

    requires
        renders_to_an_end(*message, target, tcp, templates_of(*templates)),
    ensures
        generates(*message, target, tcp, templates_of(*templates), g@),
{
    let meaning = interpret_message(message, target, tcp);
    let (context, context_error) = script_context(meaning);
    let name = message.command.clone().concat(".script");
    let rendered = templates.render(name.as_str(), &context);
    let ghost outcome = rendered_text(rendered);
    let g = generation(context_error, rendered);
    assert(tells(outcome, g@.script));
    g
}

/// A command for which the store has no template has no script, and the reason names the template.
pub proof fn law_unknown_command_has_no_script<D, S, P>(
    message: UrControlGoal<D, S, P>,
    target: Option<Pose<D>>,
    tcp: Option<Pose<D>>,
    templates: Map<Seq<char>, Seq<char>>,
    g: GenerationView,
) where D: Display + Into<tera::Value>, S: Into<tera::Value>, P: Display
    requires
        generates(message, target, tcp, templates, g),
        !templates.contains_key(template_name(message.command@)),
    ensures
        g.script == Err::<Seq<char>, Seq<char>>(not_found(template_name(message.command@))),
{
}

/// A goal whose frames were not all found is still rendered, over no variables, unless it is a
/// joint move.
pub proof fn law_missing_frame_renders_over_nothing<D, S, P>(
    message: UrControlGoal<D, S, P>,
    target: Option<Pose<D>>,
    tcp: Option<Pose<D>>,
    templates: Map<Seq<char>, Seq<char>>,
    g: GenerationView,
) where D: Display + Into<tera::Value>, S: Into<tera::Value>, P: Display
    requires
        generates(message, target, tcp, templates, g),
        !is_joint_move(message),
        target is None || tcp is None,
    ensures
        g.context_error == Some(NO_OBJECT@),
        exists|outcome: Result<Seq<char>, tera::Error>|
            may_render(
                templates,
                template_name(message.command@),
                no_entries(),
                Some(outcome),
            ) && #[trigger] tells(outcome, g.script),
{
}

/// The script of a joint move does not depend on the lookups.
pub proof fn law_joint_move_needs_no_lookup<D, S, P>(
    message: UrControlGoal<D, S, P>,
    target: Option<Pose<D>>,
    tcp: Option<Pose<D>>,
    templates: Map<Seq<char>, Seq<char>>,
    g: GenerationView,
) where D: Display + Into<tera::Value>, S: Into<tera::Value>, P: Display
    requires
        is_joint_move(message),
    ensures
        generates(message, target, tcp, templates, g) <==> generates(
            message,
            None,
            None,
            templates,
            g,
        ),
        generates(message, target, tcp, templates, g) ==> g.context_error is None,
{
    assert forall|meaning: Option<Interpretation<D, S>>|
        #![trigger means(message, target, tcp, meaning)]
        #![trigger means(message, None, None, meaning)]
        means(message, target, tcp, meaning) <==> means(message, None, None, meaning) by {}
}

/// A variable of a template holds the literal of the pose.
pub open spec fn holds_pose<D: Display>(value: tera::Value, p: Pose<D>) -> bool {
    exists|text: Seq<char>| #[trigger]
        text_value(text) == value && is_list_of_six(text, "p["@, p.x, p.y, p.z, p.rx, p.ry, p.rz)
}

/// A variable of a template holds the positions of six joints, or an empty text.
pub open spec fn holds_joints<D: Display>(value: tera::Value, position: Seq<D>) -> bool {
    exists|text: Seq<char>| #[trigger]
        text_value(text) == value && is_joint_literal(text, position)
}

/// A variable of a template holds the payload.
pub open spec fn holds_payload<P: Display>(value: tera::Value, p: Payload<P>) -> bool {
    exists|text: Seq<char>| #[trigger] text_value(text) == value && is_payload_literal(text, p)
}

/// The variables, but for the two frames, hold the values of the goal, each under its own name.
pub open spec fn holds_goal<D, S, P>(
    entries: Map<Seq<char>, tera::Value>,
    goal: UrControlGoal<D, S, P>,
) -> bool where D: Display + Into<tera::Value>, S: Into<tera::Value>, P: Display {
    &&& entries["command"@] == text_value(goal.command@)
    &&& call_ensures(
        <D as Into<tera::Value>>::into,
        (goal.acceleration,),
        entries["acceleration"@],
    )
    &&& call_ensures(<D as Into<tera::Value>>::into, (goal.velocity,), entries["velocity"@])
    &&& entries["use_execution_time"@] == flag_value(goal.use_execution_time)
    &&& call_ensures(
        <S as Into<tera::Value>>::into,
        (goal.execution_time,),
        entries["execution_time"@],
    )
    &&& entries["use_blend_radius"@] == flag_value(goal.use_blend_radius)
    &&& call_ensures(
        <S as Into<tera::Value>>::into,
        (goal.blend_radius,),
        entries["blend_radius"@],
    )
    &&& entries["use_joint_positions"@] == flag_value(goal.use_joint_positions)
    &&& holds_joints(entries["joint_positions"@], goal.joint_positions.position@)
    &&& entries["use_preferred_joint_config"@] == flag_value(goal.use_preferred_joint_config)
    &&& holds_joints(entries["preferred_joint_config"@], goal.preferred_joint_config.position@)
    &&& entries["use_payload"@] == flag_value(goal.use_payload)
    &&& holds_payload(entries["payload"@], goal.payload)
}

/// The variables that a goal is rendered over, where the lookups of its frames gave `target` and
/// `tcp`. A joint move has the identity for both frames, any other goal the transforms that were
/// looked up; where one of these is missing there are no variables at all.
pub open spec fn is_rendered_over<D, S, P>(
    goal: UrControlGoal<D, S, P>,
    target: Option<Pose<D>>,
    tcp: Option<Pose<D>>,
    entries: Map<Seq<char>, tera::Value>,
) -> bool where D: Display + Into<tera::Value>, S: Into<tera::Value>, P: Display {
    if goal.use_joint_positions && goal.command@ == "move_j"@ {
        &&& holds_goal(entries, goal)
        &&& entries["target_in_base"@] == text_value("p[0,0,0,0,0,0]"@)
        &&& entries["tcp_in_faceplate"@] == text_value("p[0,0,0,0,0,0]"@)
    } else if target is Some && tcp is Some {
        &&& holds_goal(entries, goal)
        &&& holds_pose(entries["target_in_base"@], target->Some_0)
        &&& holds_pose(entries["tcp_in_faceplate"@], tcp->Some_0)
    } else {
        forall|name: Seq<char>| !#[trigger] entries.contains_key(name)
    }
}

/// The script is the text that came out of the rendering, letter for letter. Where none came out,
/// the reason is what the error of the rendering shows.
pub open spec fn script_is(
    script: Result<String, String>,
    outcome: Result<Seq<char>, tera::Error>,
) -> bool {
    match outcome {
        Ok(text) => script is Ok && script->Ok_0@ == text,
        Err(e) => script is Err && exists|shown: String| #[trigger]
            shown_as(e, shown) && shown@ == script->Err_0@,
    }
}

/// What a goal is rendered over is determined by its meaning.
proof fn lemma_rendered_over<D, S, P>(
    goal: UrControlGoal<D, S, P>,
    target: Option<Pose<D>>,
    tcp: Option<Pose<D>>,
    meaning: Option<Interpretation<D, S>>,
    entries: Map<Seq<char>, tera::Value>,
) where D: Display + Into<tera::Value>, S: Into<tera::Value>, P: Display
    requires
        means(goal, target, tcp, meaning),
        renders_over(meaning, entries),
    ensures
        is_rendered_over(goal, target, tcp, entries),
        meaning is None <==> !(goal.use_joint_positions && goal.command@ == "move_j"@) && (
        target is None || tcp is None),
{
    if goal.use_joint_positions && goal.command@ == "move_j"@ {
        law_joint_move_gets_the_identity(goal, target, tcp, meaning);
    } else {
        law_each_frame_is_the_one_looked_up(goal, target, tcp, meaning);
    }
    if let Some(i) = meaning {
        law_each_value_keeps_its_name(goal, target, tcp, i);
        law_each_variable_is_its_field(i, entries);
        assert(text_value(i.joint_positions@) == entries["joint_positions"@]);
        assert(text_value(i.preferred_joint_config@) == entries["preferred_joint_config"@]);
        assert(text_value(i.payload@) == entries["payload"@]);
        assert(text_value(i.target_in_base@) == entries["target_in_base"@]);
        assert(text_value(i.tcp_in_faceplate@) == entries["tcp_in_faceplate"@]);
    }
}

/// The script of a goal is the template that bears the name of its command, rendered over the
/// values of the goal and the transforms that were looked up for it. That there are no variables is
/// reported exactly where a frame is missing. Of a template that is missing the reason says so.
pub proof fn law_script_is_the_template_over_the_goal<D, S, P>(
    goal: UrControlGoal<D, S, P>,
    target: Option<Pose<D>>,
    tcp: Option<Pose<D>>,
    templates: Map<Seq<char>, Seq<char>>,
    g: Generation,
) where D: Display + Into<tera::Value>, S: Into<tera::Value>, P: Display
    requires
        generates(goal, target, tcp, templates, g@),
    ensures
        exists|entries: Map<Seq<char>, tera::Value>, outcome: Result<Seq<char>, tera::Error>|
            {
                &&& #[trigger] is_rendered_over(goal, target, tcp, entries)
                &&& may_render(templates, goal.command@ + ".script"@, entries, Some(outcome))
                &&& #[trigger] script_is(g.script, outcome)
            },
        g.context_error is Some <==> !(goal.use_joint_positions && goal.command@ == "move_j"@) && (
        target is None || tcp is None),
        g.context_error is Some ==> g.context_error->Some_0@
            == "Creating a Context from a Value/Serialize requires it being a JSON object"@,
        !templates.contains_key(goal.command@ + ".script"@) ==> g.script is Err
            && g.script->Err_0@ == "Template '"@ + (goal.command@ + ".script"@) + "' not found"@,
{
    let name = template_name(goal.command@);
    let (meaning, entries, outcome) = choose|
        meaning: Option<Interpretation<D, S>>,
        entries: Map<Seq<char>, tera::Value>,
        outcome: Result<Seq<char>, tera::Error>,
    |
        {
            &&& #[trigger] means(goal, target, tcp, meaning)
            &&& #[trigger] renders_over(meaning, entries)
            &&& may_render(templates, name, entries, Some(outcome))
            &&& #[trigger] tells(outcome, g@.script)
            &&& g@.context_error == refusal(meaning)
        };
    lemma_rendered_over(goal, target, tcp, meaning, entries);
    if let Err(e) = outcome {
        law_shown_text(e, g@.script->Err_0);
        let shown = choose|shown: String| #[trigger]
            vstd::string::to_string_from_display_ensures::<tera::Error>(&e, shown) && shown@
                == g@.script->Err_0;
        assert(shown_as(e, shown));
    }
    assert(script_is(g.script, outcome));
}

} // verus!
