//! What a goal means to the robot: the variables from which its script is rendered.

use crate::messages::{
    LookupRequest, LookupRequestView, LookupResponse, Pose, UrControlGoal, BASEFRAME_ID,
    FACEPLATE_ID,
};
use crate::templates::{entries_are, flag_value, names_of, text_value};
use crate::text::{
    comma_separated, comma_split, coordinates, display_all, displays, inside, is_list_of_six,
    is_payload_literal, joint_pose_to_string, joint_text, law_joint_literal,
    law_joint_text_is_determined, law_payload_literal, law_payload_text_is_determined,
    law_pose_literal, law_pose_text_is_determined, law_pose_text_reads_back, lists, payload_text,
    payload_to_string, pose_text, pose_to_string, shows_one_text, shows_plainly,
};
use core::fmt::Display;
use vstd::prelude::*;

verus! {

/// The command that moves the arm in joint space.
pub const JOINT_MOVE: &'static str = "move_j";

/// The literal of the pose that neither moves nor turns.
pub const IDENTITY_POSE: &'static str = "p[0,0,0,0,0,0]";

/// A goal with its frames looked up and its compound values as texts of the script language.
#[derive(Clone, Debug, PartialEq)]
pub struct Interpretation<D, S> {
    pub command: String,
    pub acceleration: D,
    pub velocity: D,
    pub use_execution_time: bool,
    pub execution_time: S,
    pub use_blend_radius: bool,
    pub blend_radius: S,
    pub use_joint_positions: bool,
    pub joint_positions: String,
    pub use_preferred_joint_config: bool,
    pub preferred_joint_config: String,
    pub use_payload: bool,
    pub payload: String,
    pub target_in_base: String,
    pub tcp_in_faceplate: String,
}

/// The goal names its target by joint positions, so that no frame has to be looked up.
pub open spec fn is_joint_move<D, S, P>(message: UrControlGoal<D, S, P>) -> bool {
    message.use_joint_positions && message.command@ == JOINT_MOVE@
}

/// The transform that an answer of the transform service gives, if any.
pub open spec fn looked_up<D>(response: LookupResponse<D>) -> Option<Pose<D>> {
    if response.success {
        Some(response.transform)
    } else {
        None
    }
}

/// The lookup of the target of a goal.
pub open spec fn target_lookup<D, S, P>(message: UrControlGoal<D, S, P>) -> LookupRequestView {
    LookupRequestView { parent_frame_id: BASEFRAME_ID@, child_frame_id: message.goal_feature_id@ }
}

/// The lookup of the tool centre point of a goal.
pub open spec fn tcp_lookup<D, S, P>(message: UrControlGoal<D, S, P>) -> LookupRequestView {
    LookupRequestView { parent_frame_id: FACEPLATE_ID@, child_frame_id: message.tcp_id@ }
}

/// The interpretation takes over from the goal everything but the two frames.
pub open spec fn takes_over<D: Display, S, P: Display>(
    message: UrControlGoal<D, S, P>,
    i: Interpretation<D, S>,
) -> bool {
    &&& i.command@ == message.command@
    &&& i.acceleration == message.acceleration
    &&& i.velocity == message.velocity
    &&& i.use_execution_time == message.use_execution_time
    &&& i.execution_time == message.execution_time
    &&& i.use_blend_radius == message.use_blend_radius
    &&& i.blend_radius == message.blend_radius
    &&& i.use_joint_positions == message.use_joint_positions
    &&& joint_text(message.joint_positions.position@, i.joint_positions@)
    &&& i.use_preferred_joint_config == message.use_preferred_joint_config
    &&& joint_text(message.preferred_joint_config.position@, i.preferred_joint_config@)
    &&& i.use_payload == message.use_payload
    &&& payload_text(message.payload, i.payload@)
}

/// The goal means `meaning`, where the lookups of its frames gave `target` and `tcp`. A joint move
/// needs neither and gets the identity for both; any other goal needs both.
pub open spec fn means<D: Display, S, P: Display>(
    message: UrControlGoal<D, S, P>,
    target: Option<Pose<D>>,
    tcp: Option<Pose<D>>,
    meaning: Option<Interpretation<D, S>>,
) -> bool {
    if is_joint_move(message) {
        &&& meaning matches Some(i)
        &&& takes_over(message, i)
        &&& i.target_in_base@ == IDENTITY_POSE@
        &&& i.tcp_in_faceplate@ == IDENTITY_POSE@
    } else if target is Some && tcp is Some {
        &&& meaning matches Some(i)
        &&& takes_over(message, i)
        &&& pose_text(target->Some_0, i.target_in_base@)
        &&& pose_text(tcp->Some_0, i.tcp_in_faceplate@)
    } else {
        meaning is None
    }
}

/// The identity literal is the literal of any pose whose numbers all show as a zero.
pub proof fn law_identity_pose_is_all_zeros<D: Display>(p: Pose<D>)
    requires
        forall|i: int| 0 <= i < 6 ==> displays(#[trigger] coordinates(p)[i], "0"@),
    ensures
        pose_text(p, IDENTITY_POSE@),
{
    reveal_strlit("0");
    reveal_strlit(",");
    reveal_strlit("p[");
    reveal_strlit("]");
    reveal_strlit("p[0,0,0,0,0,0]");
    let zeros = seq!["0"@, "0"@, "0"@, "0"@, "0"@, "0"@];
    reveal_with_fuel(comma_separated, 6);
    let list = comma_separated(zeros);
    assert(list =~= "0"@ + ","@ + "0"@ + ","@ + "0"@ + ","@ + "0"@ + ","@ + "0"@ + ","@ + "0"@);
    assert forall|i: int| 0 <= i < 6 implies displays(coordinates(p)[i], #[trigger] zeros[i]) by {
        assert(zeros[i] == "0"@);
    }
    assert(display_all(coordinates(p), zeros));
    assert(lists(coordinates(p), list));
    assert("p["@ + list + "]"@ =~= IDENTITY_POSE@);
}

/// The goals are equal in everything but the frames that they name.
pub open spec fn equal_but_for_frames<D, S, P>(
    a: UrControlGoal<D, S, P>,
    b: UrControlGoal<D, S, P>,
) -> bool {
    &&& a.command@ == b.command@
    &&& a.acceleration == b.acceleration
    &&& a.velocity == b.velocity
    &&& a.use_execution_time == b.use_execution_time
    &&& a.execution_time == b.execution_time
    &&& a.use_blend_radius == b.use_blend_radius
    &&& a.blend_radius == b.blend_radius
    &&& a.use_joint_positions == b.use_joint_positions
    &&& a.joint_positions == b.joint_positions
    &&& a.use_preferred_joint_config == b.use_preferred_joint_config
    &&& a.preferred_joint_config == b.preferred_joint_config
    &&& a.use_payload == b.use_payload
    &&& a.payload == b.payload
}

/// The interpretations are equal, field by field.
pub open spec fn same_meaning<D, S>(i: Interpretation<D, S>, j: Interpretation<D, S>) -> bool {
    &&& i.command@ == j.command@
    &&& i.acceleration == j.acceleration
    &&& i.velocity == j.velocity
    &&& i.use_execution_time == j.use_execution_time
    &&& i.execution_time == j.execution_time
    &&& i.use_blend_radius == j.use_blend_radius
    &&& i.blend_radius == j.blend_radius
    &&& i.use_joint_positions == j.use_joint_positions
    &&& i.joint_positions@ == j.joint_positions@
    &&& i.use_preferred_joint_config == j.use_preferred_joint_config
    &&& i.preferred_joint_config@ == j.preferred_joint_config@
    &&& i.use_payload == j.use_payload
    &&& i.payload@ == j.payload@
    &&& i.target_in_base@ == j.target_in_base@
    &&& i.tcp_in_faceplate@ == j.tcp_in_faceplate@
}

/// What a joint move means depends neither on the frames that it names nor on any lookup: two joint
/// moves that differ at most in their frames mean the same, and each has a meaning.
pub proof fn law_joint_move_ignores_frames<D: Display, S, P: Display>(
    a: UrControlGoal<D, S, P>,
    b: UrControlGoal<D, S, P>,
    target_a: Option<Pose<D>>,
    tcp_a: Option<Pose<D>>,
    target_b: Option<Pose<D>>,
    tcp_b: Option<Pose<D>>,
    meaning: Option<Interpretation<D, S>>,
)
    requires
        is_joint_move(a),
        is_joint_move(b),
        equal_but_for_frames(a, b),
    ensures
        means(a, target_a, tcp_a, meaning) <==> means(b, target_b, tcp_b, meaning),
        means(a, target_a, tcp_a, meaning) ==> meaning is Some,
{
}

/// A goal has one meaning only, where its numbers show as one text only: whether it has one, and
/// each field of it, is determined by the goal and the lookups.
pub proof fn law_meaning_is_determined<D: Display, S, P: Display>(
    message: UrControlGoal<D, S, P>,
    target: Option<Pose<D>>,
    tcp: Option<Pose<D>>,
    first: Option<Interpretation<D, S>>,
    second: Option<Interpretation<D, S>>,
)
    requires
        shows_one_text::<D>(),
        shows_one_text::<P>(),
        means(message, target, tcp, first),
        means(message, target, tcp, second),
    ensures
        first is Some <==> second is Some,
        first is Some ==> same_meaning(first->Some_0, second->Some_0),
{
    if let (Some(i), Some(j)) = (first, second) {
        law_joint_text_is_determined(
            message.joint_positions.position@,
            i.joint_positions@,
            j.joint_positions@,
        );
        law_joint_text_is_determined(
            message.preferred_joint_config.position@,
            i.preferred_joint_config@,
            j.preferred_joint_config@,
        );
        law_payload_text_is_determined(message.payload, i.payload@, j.payload@);
        if !is_joint_move(message) {
            law_pose_text_is_determined(target->Some_0, i.target_in_base@, j.target_in_base@);
            law_pose_text_is_determined(tcp->Some_0, i.tcp_in_faceplate@, j.tcp_in_faceplate@);
        }
    }
}

/// Two joint moves that differ at most in their frames are interpreted alike, whatever the lookups
/// of either gave, where their numbers show as one text only.
pub proof fn law_joint_moves_mean_the_same<D: Display, S, P: Display>(
    a: UrControlGoal<D, S, P>,
    b: UrControlGoal<D, S, P>,
    target_a: Option<Pose<D>>,
    tcp_a: Option<Pose<D>>,
    target_b: Option<Pose<D>>,
    tcp_b: Option<Pose<D>>,
    of_a: Option<Interpretation<D, S>>,
    of_b: Option<Interpretation<D, S>>,
)
    requires
        is_joint_move(a),
        is_joint_move(b),
        equal_but_for_frames(a, b),
        shows_one_text::<D>(),
        shows_one_text::<P>(),
        means(a, target_a, tcp_a, of_a),
        means(b, target_b, tcp_b, of_b),
    ensures
        of_a is Some,
        of_b is Some,
        same_meaning(of_a->Some_0, of_b->Some_0),
{
    law_joint_move_ignores_frames(b, a, target_b, tcp_b, target_a, tcp_a, of_b);
    law_meaning_is_determined(a, target_a, tcp_a, of_a, of_b);
}

/// A goal is a joint move if and only if it has its joint positions used and its command is
/// `move_j`. No other field has a say.
pub proof fn law_joint_move<D, S, P>(message: UrControlGoal<D, S, P>)
    ensures
        is_joint_move(message) <==> message.use_joint_positions && message.command@ == "move_j"@,
{
}

/// The transform service has found a transform exactly where it says so, and then it is the one
/// that it sent.
pub proof fn law_lookup<D>(response: LookupResponse<D>)
    ensures
        response.success ==> looked_up(response) == Some(response.transform),
        !response.success ==> looked_up(response) is None,
{
}

/// The target is looked up from the base to the frame of the goal, and the tool centre point from
/// the face plate to the frame of the tool, whatever else the goal says.
pub proof fn law_lookups_name_their_frames<D, S, P>(
    message: UrControlGoal<D, S, P>,
    of_target: LookupRequest,
    of_tcp: LookupRequest,
)
    requires
        of_target@ == target_lookup(message),
        of_tcp@ == tcp_lookup(message),
    ensures
        of_target.parent_frame_id@ == "base_link"@,
        of_target.child_frame_id@ == message.goal_feature_id@,
        of_tcp.parent_frame_id@ == "tool0"@,
        of_tcp.child_frame_id@ == message.tcp_id@,
{
}

/// A joint move has a meaning whatever the lookups gave, with the pose that neither moves nor turns
/// for both frames.
pub proof fn law_joint_move_gets_the_identity<D: Display, S, P: Display>(
    message: UrControlGoal<D, S, P>,
    target: Option<Pose<D>>,
    tcp: Option<Pose<D>>,
    meaning: Option<Interpretation<D, S>>,
)
    requires
        message.use_joint_positions,
        message.command@ == "move_j"@,
        means(message, target, tcp, meaning),
    ensures
        meaning is Some,
        meaning->Some_0.target_in_base@ == "p[0,0,0,0,0,0]"@,
        meaning->Some_0.tcp_in_faceplate@ == "p[0,0,0,0,0,0]"@,
{
}

/// Any other goal has a meaning exactly where both lookups gave a transform. The target is then the
/// transform that the first gave, and the tool centre point the one that the second gave, number by
/// number.
pub proof fn law_each_frame_is_the_one_looked_up<D: Display, S, P: Display>(
    message: UrControlGoal<D, S, P>,
    target: Option<Pose<D>>,
    tcp: Option<Pose<D>>,
    meaning: Option<Interpretation<D, S>>,
)
    requires
        !(message.use_joint_positions && message.command@ == "move_j"@),
        means(message, target, tcp, meaning),
    ensures
        meaning is Some <==> target is Some && tcp is Some,
        meaning is Some ==> {
            let p = target->Some_0;
            let text = meaning->Some_0.target_in_base@;
            is_list_of_six(text, "p["@, p.x, p.y, p.z, p.rx, p.ry, p.rz)
        },
        meaning is Some ==> {
            let p = tcp->Some_0;
            let text = meaning->Some_0.tcp_in_faceplate@;
            is_list_of_six(text, "p["@, p.x, p.y, p.z, p.rx, p.ry, p.rz)
        },
{
    if let Some(i) = meaning {
        law_pose_literal(target->Some_0, i.target_in_base@);
        law_pose_literal(tcp->Some_0, i.tcp_in_faceplate@);
    }
}

/// The items, read in order, are the numbers of the pose.
pub open spec fn items_are_the_pose<D: Display>(items: Seq<Seq<char>>, p: Pose<D>) -> bool {
    &&& items.len() == 6
    &&& displays(p.x, items[0])
    &&& displays(p.y, items[1])
    &&& displays(p.z, items[2])
    &&& displays(p.rx, items[3])
    &&& displays(p.ry, items[4])
    &&& displays(p.rz, items[5])
}

/// The frames can be read back: the items in the brackets of the target are the numbers of the
/// transform that its own lookup gave, and so for the tool centre point.
pub proof fn law_frames_read_back<D: Display, S, P: Display>(
    message: UrControlGoal<D, S, P>,
    target: Pose<D>,
    tcp: Pose<D>,
    meaning: Option<Interpretation<D, S>>,
)
    requires
        shows_plainly::<D>(),
        !(message.use_joint_positions && message.command@ == "move_j"@),
        means(message, Some(target), Some(tcp), meaning),
    ensures
        meaning is Some,
        items_are_the_pose(comma_split(inside(meaning->Some_0.target_in_base@, 2)), target),
        items_are_the_pose(comma_split(inside(meaning->Some_0.tcp_in_faceplate@, 2)), tcp),
{
    law_pose_text_reads_back(target, meaning->Some_0.target_in_base@);
    law_pose_text_reads_back(tcp, meaning->Some_0.tcp_in_faceplate@);
}

/// The text has the positions of six joints in order, and nothing for any other number of joints.
pub open spec fn is_joint_literal<D: Display>(text: Seq<char>, position: Seq<D>) -> bool {
    if position.len() == 6 {
        is_list_of_six(
            text,
            "["@,
            position[0],
            position[1],
            position[2],
            position[3],
            position[4],
            position[5],
        )
    } else {
        text == Seq::<char>::empty()
    }
}

/// Everything but the frames is taken over from the goal, each value under its own name, whatever
/// the goal is and whatever the lookups gave.
pub proof fn law_each_value_keeps_its_name<D: Display, S, P: Display>(
    message: UrControlGoal<D, S, P>,
    target: Option<Pose<D>>,
    tcp: Option<Pose<D>>,
    i: Interpretation<D, S>,
)
    requires
        means(message, target, tcp, Some(i)),
    ensures
        i.command@ == message.command@,
        i.acceleration == message.acceleration,
        i.velocity == message.velocity,
        i.use_execution_time == message.use_execution_time,
        i.execution_time == message.execution_time,
        i.use_blend_radius == message.use_blend_radius,
        i.blend_radius == message.blend_radius,
        i.use_joint_positions == message.use_joint_positions,
        is_joint_literal(i.joint_positions@, message.joint_positions.position@),
        i.use_preferred_joint_config == message.use_preferred_joint_config,
        is_joint_literal(i.preferred_joint_config@, message.preferred_joint_config.position@),
        i.use_payload == message.use_payload,
        is_payload_literal(i.payload@, message.payload),
{
    law_joint_literal(message.joint_positions.position@, i.joint_positions@);
    law_joint_literal(message.preferred_joint_config.position@, i.preferred_joint_config@);
    law_payload_literal(message.payload, i.payload@);
}

/// Whether the goal names its target by joint positions.
pub fn moves_by_joints<D, S, P>(message: &UrControlGoal<D, S, P>) -> (yes: bool)
    ensures
        yes == is_joint_move(*message),
{
    message.use_joint_positions && message.command == JOINT_MOVE.to_string()
}

/// The question to the transform service for two frames.
pub fn lookup_request(parent_frame_id: &str, child_frame_id: &str) -> (request: LookupRequest)
    ensures
        request@ == (LookupRequestView {
            parent_frame_id: parent_frame_id@,
            child_frame_id: child_frame_id@,
        }),
{
    LookupRequest {
        parent_frame_id: parent_frame_id.to_string(),
        child_frame_id: child_frame_id.to_string(),
    }
}

/// The transform that the transform service found, if it found one.
pub fn lookup_tf<D>(response: LookupResponse<D>) -> (transform: Option<Pose<D>>)
    ensures
        transform == looked_up(response),
{
    match response.success {
        true => Some(response.transform),
        false => None,
    }
}

/// The meaning of a goal, given what the lookups of its target and of its tool centre point gave.
pub fn interpret_message<D: Copy + Display, S: Copy, P: Display>(
    message: &UrControlGoal<D, S, P>,
    target: Option<Pose<D>>,
    tcp: Option<Pose<D>>,
) -> (meaning: Option<Interpretation<D, S>>)
    ensures
        means(*message, target, tcp, meaning),
{
    let joint_move = moves_by_joints(message);
    let target_in_base = match joint_move {
        true => IDENTITY_POSE.to_string(),
        false => match target {
            Some(transform) => pose_to_string(&transform),
            None => return None,
        },
    };
    let tcp_in_faceplate = match joint_move {
        true => IDENTITY_POSE.to_string(),
        false => match tcp {
            Some(transform) => pose_to_string(&transform),
            None => return None,
        },
    };
    Some(
        Interpretation {
            command: message.command.clone(),
            acceleration: message.acceleration,
            velocity: message.velocity,
            use_execution_time: message.use_execution_time,
            execution_time: message.execution_time,
            use_blend_radius: message.use_blend_radius,
            blend_radius: message.blend_radius,
            use_joint_positions: message.use_joint_positions,
            joint_positions: joint_pose_to_string(&message.joint_positions),
            use_preferred_joint_config: message.use_preferred_joint_config,
            preferred_joint_config: joint_pose_to_string(&message.preferred_joint_config),
            use_payload: message.use_payload,
            payload: payload_to_string(&message.payload),
            target_in_base,
            tcp_in_faceplate,
        },
    )
}

/// The names of the variables of a script template.
pub open spec fn variable_names() -> Seq<Seq<char>> {
    seq![
        "command"@,
        "acceleration"@,
        "velocity"@,
        "use_execution_time"@,
        "execution_time"@,
        "use_blend_radius"@,
        "blend_radius"@,
        "use_joint_positions"@,
        "joint_positions"@,
        "use_preferred_joint_config"@,
        "preferred_joint_config"@,
        "use_payload"@,
        "payload"@,
        "target_in_base"@,
        "tcp_in_faceplate"@,
    ]
}

/// `value` is a JSON value into which the number converts.
pub open spec fn converts<N: Into<tera::Value>>(number: N, value: tera::Value) -> bool {
    call_ensures(<N as Into<tera::Value>>::into, (number,), value)
}

/// The entries are the variables of the interpretation: each field under its own name, and
/// nothing else.
pub open spec fn describes<D: Into<tera::Value>, S: Into<tera::Value>>(
    i: Interpretation<D, S>,
    entries: Map<Seq<char>, tera::Value>,
) -> bool {
    &&& forall|name: Seq<char>| #[trigger]
        entries.contains_key(name) <==> variable_names().contains(name)
    &&& entries["command"@] == text_value(i.command@)
    &&& converts(i.acceleration, entries["acceleration"@])
    &&& converts(i.velocity, entries["velocity"@])
    &&& entries["use_execution_time"@] == flag_value(i.use_execution_time)
    &&& converts(i.execution_time, entries["execution_time"@])
    &&& entries["use_blend_radius"@] == flag_value(i.use_blend_radius)
    &&& converts(i.blend_radius, entries["blend_radius"@])
    &&& entries["use_joint_positions"@] == flag_value(i.use_joint_positions)
    &&& entries["joint_positions"@] == text_value(i.joint_positions@)
    &&& entries["use_preferred_joint_config"@] == flag_value(i.use_preferred_joint_config)
    &&& entries["preferred_joint_config"@] == text_value(i.preferred_joint_config@)
    &&& entries["use_payload"@] == flag_value(i.use_payload)
    &&& entries["payload"@] == text_value(i.payload@)
    &&& entries["target_in_base"@] == text_value(i.target_in_base@)
    &&& entries["tcp_in_faceplate"@] == text_value(i.tcp_in_faceplate@)
}

/// No two variables have the same name.
pub proof fn law_variable_names_differ()
    ensures
        variable_names().no_duplicates(),
{
    reveal_strlit("command");
    reveal_strlit("acceleration");
    reveal_strlit("velocity");
    reveal_strlit("use_execution_time");
    reveal_strlit("execution_time");
    reveal_strlit("use_blend_radius");
    reveal_strlit("blend_radius");
    reveal_strlit("use_joint_positions");
    reveal_strlit("joint_positions");
    reveal_strlit("use_preferred_joint_config");
    reveal_strlit("preferred_joint_config");
    reveal_strlit("use_payload");
    reveal_strlit("payload");
    reveal_strlit("target_in_base");
    reveal_strlit("tcp_in_faceplate");
    let names = variable_names();
    let lengths: Seq<nat> = seq![7, 12, 8, 18, 14, 16, 12, 19, 15, 26, 22, 11, 7, 14, 16];
    assert forall|i: int| 0 <= i < names.len() implies #[trigger] names[i].len() == lengths[i] by {}
    // Names of equal length differ in their first letter.
    assert forall|i: int, j: int| 0 <= i < j < names.len() && lengths[i] == lengths[j] implies (
    #[trigger] names[i])[0] != (#[trigger] names[j])[0] by {}
    assert forall|i: int, j: int| 0 <= i < names.len() && 0 <= j < names.len() && i != j implies (
    #[trigger] names[i]) != (#[trigger] names[j]) by {
        assert(names[i].len() == lengths[i] && names[j].len() == lengths[j]);
    }
}

/// A template sees each field of an interpretation under the name of that field, and sees nothing
/// else.
pub proof fn law_each_variable_is_its_field<D: Into<tera::Value>, S: Into<tera::Value>>(
    i: Interpretation<D, S>,
    entries: Map<Seq<char>, tera::Value>,
)
    requires
        describes(i, entries),
    ensures
        forall|name: Seq<char>| #[trigger]
            entries.contains_key(name) <==> {
                ||| name == "command"@
                ||| name == "acceleration"@
                ||| name == "velocity"@
                ||| name == "use_execution_time"@
                ||| name == "execution_time"@
                ||| name == "use_blend_radius"@
                ||| name == "blend_radius"@
                ||| name == "use_joint_positions"@
                ||| name == "joint_positions"@
                ||| name == "use_preferred_joint_config"@
                ||| name == "preferred_joint_config"@
                ||| name == "use_payload"@
                ||| name == "payload"@
                ||| name == "target_in_base"@
                ||| name == "tcp_in_faceplate"@
            },
        entries["command"@] == text_value(i.command@),
        call_ensures(
            <D as Into<tera::Value>>::into,
            (i.acceleration,),
            entries["acceleration"@],
        ),
        call_ensures(<D as Into<tera::Value>>::into, (i.velocity,), entries["velocity"@]),
        entries["use_execution_time"@] == flag_value(i.use_execution_time),
        call_ensures(
            <S as Into<tera::Value>>::into,
            (i.execution_time,),
            entries["execution_time"@],
        ),
        entries["use_blend_radius"@] == flag_value(i.use_blend_radius),
        call_ensures(
            <S as Into<tera::Value>>::into,
            (i.blend_radius,),
            entries["blend_radius"@],
        ),
        entries["use_joint_positions"@] == flag_value(i.use_joint_positions),
        entries["joint_positions"@] == text_value(i.joint_positions@),
        entries["use_preferred_joint_config"@] == flag_value(i.use_preferred_joint_config),
        entries["preferred_joint_config"@] == text_value(i.preferred_joint_config@),
        entries["use_payload"@] == flag_value(i.use_payload),
        entries["payload"@] == text_value(i.payload@),
        entries["target_in_base"@] == text_value(i.target_in_base@),
        entries["tcp_in_faceplate"@] == text_value(i.tcp_in_faceplate@),
{
    let names = variable_names();
    assert forall|name: Seq<char>| #[trigger] names.contains(name) <==> (exists|k: int|
        0 <= k < 15 && #[trigger] names[k] == name) by {}
    assert(names[0] == "command"@ && names[1] == "acceleration"@ && names[2] == "velocity"@);
    assert(names[3] == "use_execution_time"@ && names[4] == "execution_time"@);
    assert(names[5] == "use_blend_radius"@ && names[6] == "blend_radius"@);
    assert(names[7] == "use_joint_positions"@ && names[8] == "joint_positions"@);
    assert(names[9] == "use_preferred_joint_config"@ && names[10] == "preferred_joint_config"@);
    assert(names[11] == "use_payload"@ && names[12] == "payload"@);
    assert(names[13] == "target_in_base"@ && names[14] == "tcp_in_faceplate"@);
}

/// The variables of an interpretation, each field under its own name.
pub fn variables<D: Copy + Into<tera::Value>, S: Copy + Into<tera::Value>>(
    i: &Interpretation<D, S>,
) -> (fields: Vec<(String, tera::Value)>)
    ensures
        names_of(fields@) == variable_names(),
        forall|entries: Map<Seq<char>, tera::Value>| #[trigger]
            entries_are(entries, fields@) ==> describes(*i, entries),
{
    let fields: Vec<(String, tera::Value)> = vec![
        ("command".to_string(), tera::Value::from(i.command.clone())),
        ("acceleration".to_string(), i.acceleration.into()),
        ("velocity".to_string(), i.velocity.into()),
        ("use_execution_time".to_string(), tera::Value::from(i.use_execution_time)),
        ("execution_time".to_string(), i.execution_time.into()),
        ("use_blend_radius".to_string(), tera::Value::from(i.use_blend_radius)),
        ("blend_radius".to_string(), i.blend_radius.into()),
        ("use_joint_positions".to_string(), tera::Value::from(i.use_joint_positions)),
        ("joint_positions".to_string(), tera::Value::from(i.joint_positions.clone())),
        ("use_preferred_joint_config".to_string(), tera::Value::from(i.use_preferred_joint_config)),
        ("preferred_joint_config".to_string(), tera::Value::from(i.preferred_joint_config.clone())),
        ("use_payload".to_string(), tera::Value::from(i.use_payload)),
        ("payload".to_string(), tera::Value::from(i.payload.clone())),
        ("target_in_base".to_string(), tera::Value::from(i.target_in_base.clone())),
        ("tcp_in_faceplate".to_string(), tera::Value::from(i.tcp_in_faceplate.clone())),
    ];
    assert(names_of(fields@) =~= variable_names());
    proof {
        assert forall|entries: Map<Seq<char>, tera::Value>| #[trigger]
            entries_are(entries, fields@) implies describes(*i, entries) by {
            assert(entries[variable_names()[0]] == fields@[0].1);
            assert(entries[variable_names()[1]] == fields@[1].1);
            assert(entries[variable_names()[2]] == fields@[2].1);
            assert(entries[variable_names()[3]] == fields@[3].1);
            assert(entries[variable_names()[4]] == fields@[4].1);
            assert(entries[variable_names()[5]] == fields@[5].1);
            assert(entries[variable_names()[6]] == fields@[6].1);
            assert(entries[variable_names()[7]] == fields@[7].1);
            assert(entries[variable_names()[8]] == fields@[8].1);
            assert(entries[variable_names()[9]] == fields@[9].1);
            assert(entries[variable_names()[10]] == fields@[10].1);
            assert(entries[variable_names()[11]] == fields@[11].1);
            assert(entries[variable_names()[12]] == fields@[12].1);
            assert(entries[variable_names()[13]] == fields@[13].1);
            assert(entries[variable_names()[14]] == fields@[14].1);
        }
    }
    fields
}

} // verus!
