//! The types that describe an action, its goals and the node that offers it.

use vstd::prelude::*;

verus! {

/// An action: the types of its goal, result and feedback, and its type name.
pub trait ZAction: Sized {
    /// What a client asks for.
    type Goal: Clone;

    /// What a terminated goal leaves behind.
    type Result: Clone;

    /// What a running goal reports.
    type Feedback;

    /// The type name of the action, such as `example_interfaces/action/Fibonacci`.
    fn name() -> String;
}

/// A goal's UUID, its sixteen bytes read as one big-endian integer.
pub type GoalId = u128;

/// A goal and the time it was stamped with.
#[derive(Clone, Copy, Debug, PartialEq, Eq, Structural)]
pub struct GoalInfo {
    pub goal_id: GoalId,
    pub stamp: i64,
}

impl GoalInfo {
    /// The info of a goal, stamped with `stamp`.
    pub fn new(goal_id: GoalId, stamp: i64) -> (info: GoalInfo)
        ensures
            info == (GoalInfo { goal_id, stamp }),
    {
        GoalInfo { goal_id, stamp }
    }
}

/// The status that a server reports for a goal.
#[derive(Clone, Copy, Debug, PartialEq, Eq, Structural)]
pub enum GoalStatus {
    Accepted,
    Executing,
    Canceling,
    Succeeded,
    Canceled,
    Aborted,
}

impl GoalStatus {
    /// Tells whether a goal with this status has come to its end.
    pub open spec fn is_terminal(self) -> bool {
        self == GoalStatus::Succeeded || self == GoalStatus::Canceled || self
            == GoalStatus::Aborted
    }
}

/// How a topic or service delivers its messages.
#[derive(Clone, Copy, Debug, PartialEq, Eq, Structural)]
pub enum QosReliability {
    Reliable,
    BestEffort,
}

/// Whether late joiners are given earlier messages.
#[derive(Clone, Copy, Debug, PartialEq, Eq, Structural)]
pub enum QosDurability {
    Volatile,
    TransientLocal,
}

/// How many messages are kept for delivery.
#[derive(Clone, Copy, Debug, PartialEq, Eq, Structural)]
pub enum QosHistory {
    KeepLast(usize),
    KeepAll,
}

/// The quality of service of a topic or service. A server hands profiles on and never looks inside.
#[derive(Clone, Copy, Debug, PartialEq, Eq, Structural)]
pub struct QosProfile {
    pub reliability: QosReliability,
    pub durability: QosDurability,
    pub history: QosHistory,
}

/// The node that owns a server: where it lives in the graph, and what it is called there.
pub struct ZNode {
    pub namespace: String,
    pub name: String,
}

} // verus!
