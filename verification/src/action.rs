//! What the simulator and the driver have in common: both are action servers, and the node is
//! their client. The node is an action server itself, and answers each goal with a reply.

use vstd::prelude::*;

verus! {

/// The state in which an action server left a goal.
#[derive(Clone, Copy, Debug, PartialEq, Eq, Structural)]
pub enum GoalStatus {
    Unknown,
    Accepted,
    Executing,
    Canceling,
    Succeeded,
    Canceled,
    Aborted,
}

/// What came of handing a goal to an action server.
#[derive(Clone, Copy, Debug, PartialEq)]
pub enum RequestOutcome<E> {
    /// The request could not be sent, with this error.
    NotSent(E),
    /// The request was sent and not accepted, with this error.
    NotAccepted(E),
    /// The server works on the goal.
    Accepted,
}

/// What came of a goal that an action server accepted.
#[derive(Clone, Copy, Debug, PartialEq)]
pub enum ResultOutcome<M, E> {
    /// The server is done, and says so with a message.
    Finished { status: GoalStatus, message: M },
    /// No result arrives any more, because of this error.
    Lost(E),
}

/// The node's answer to a goal.
#[derive(Clone, Copy, Debug, PartialEq, Eq, Structural)]
pub enum Reply {
    Succeed { success: bool },
    Abort { success: bool },
}

/// The feedback on a goal that the other server aborted.
pub const GOAL_ABORTED: &'static str = "Goal succesfully aborted.";

/// The error of a goal that was handed over with this outcome, if that failed.
pub open spec fn failure_of<E>(outcome: RequestOutcome<E>) -> Option<E> {
    match outcome {
        RequestOutcome::NotSent(e) => Some(e),
        RequestOutcome::NotAccepted(e) => Some(e),
        RequestOutcome::Accepted => None,
    }
}

/// The error of a goal that was handed over with this outcome, if that failed.
pub fn request_failure<E>(outcome: RequestOutcome<E>) -> (failure: Option<E>)
    ensures
        failure == failure_of(outcome),
{
    match outcome {
        RequestOutcome::NotSent(e) => Some(e),
        RequestOutcome::NotAccepted(e) => Some(e),
        RequestOutcome::Accepted => None,
    }
}

/// How many of the items are of a kind.
pub open spec fn count<E>(items: Seq<E>, kind: spec_fn(E) -> bool) -> nat
    decreases items.len(),
{
    if items.len() == 0 {
        0
    } else {
        count(items.drop_last(), kind) + if kind(items.last()) {
            1nat
        } else {
            0nat
        }
    }
}

/// The items of a kind in two sequences are those in the one and those in the other.
pub proof fn lemma_count_of_concatenation<E>(a: Seq<E>, b: Seq<E>, kind: spec_fn(E) -> bool)
    ensures
        count(a + b, kind) == count(a, kind) + count(b, kind),
    decreases b.len(),
{
    if b.len() == 0 {
        assert(a + b =~= a);
    } else {
        assert((a + b).drop_last() =~= a + b.drop_last());
        lemma_count_of_concatenation(a, b.drop_last(), kind);
    }
}

} // verus!
