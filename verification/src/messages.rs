//! The messages of the action protocol.

use vstd::prelude::*;

use crate::action::{GoalId, GoalInfo, GoalStatus, ZAction};

verus! {

/// A client asks for a goal to be pursued.
pub struct GoalRequest<A: ZAction> {
    pub goal_id: GoalId,
    pub goal: A::Goal,
}

/// The answer to a [`GoalRequest`].
#[derive(Clone, Copy, Debug, PartialEq, Eq, Structural)]
pub struct GoalResponse {
    pub accepted: bool,
    pub stamp: i64,
}

/// A client asks for a goal to be canceled.
#[derive(Clone, Copy, Debug, PartialEq, Eq, Structural)]
pub struct CancelGoalRequest {
    pub goal_info: GoalInfo,
}

/// The answer to a [`CancelGoalRequest`].
#[derive(Debug)]
pub struct CancelGoalResponse {
    pub return_code: i8,
    pub goals_canceling: Vec<GoalInfo>,
}

/// A client asks for the result of a goal.
#[derive(Clone, Copy, Debug, PartialEq, Eq, Structural)]
pub struct ResultRequest {
    pub goal_id: GoalId,
}

/// The answer to a [`ResultRequest`].
pub struct ResultResponse<A: ZAction> {
    pub status: GoalStatus,
    pub result: A::Result,
}

/// A progress report on a goal.
pub struct FeedbackMessage<A: ZAction> {
    pub goal_id: GoalId,
    pub feedback: A::Feedback,
}

/// The status of one goal.
#[derive(Clone, Copy, Debug, PartialEq, Eq, Structural)]
pub struct GoalStatusInfo {
    pub goal_info: GoalInfo,
    pub status: GoalStatus,
}

/// The status of every goal that a server knows.
#[derive(Debug)]
pub struct StatusMessage {
    pub status_list: Vec<GoalStatusInfo>,
}

} // verus!
