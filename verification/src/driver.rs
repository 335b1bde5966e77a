//! The loops that serve requests, one event at a time.
//!
//! The driver deals with every request of an action that is handled automatically. While an action
//! is handled manually, the result handler answers result requests and nothing else.

use vstd::prelude::*;

use crate::action::ZAction;
use crate::messages::{
    CancelGoalRequest, CancelGoalResponse, GoalRequest, GoalResponse, ResultRequest,
    ResultResponse, StatusMessage,
};
use crate::server::{ExecutingGoal, GoalReply, QueryId, ServerView, ZActionServer};
use crate::state::GoalTable;
use crate::time::Reading;

verus! {

/// The return code of a cancel request that found its goal running.
pub const CANCEL_GRANTED: i8 = 1;

/// The return code of a cancel request that did not find its goal running.
pub const CANCEL_REFUSED: i8 = 0;

/// What happens to a driver. A channel that could not be read shows as a request that is missing.
pub enum DriverEvent<A: ZAction> {
    /// The server is being shut down.
    Shutdown,
    /// A goal was requested.
    Goal(Option<(GoalRequest<A>, QueryId)>),
    /// A goal is asked to be canceled.
    Cancel(Option<CancelGoalRequest>),
    /// The result of a goal is asked for.
    Result(Option<ResultRequest>),
}

impl<A: ZAction> DriverEvent<A> {
    /// Tells whether the event is a request for a goal.
    pub open spec fn brings_goal(self) -> bool {
        self matches DriverEvent::Goal(Some(_))
    }

    /// The answer to the client, if the event is a request for a goal.
    pub open spec fn spec_goal_reply(self, at: Reading) -> Option<GoalReply> {
        match self {
            DriverEvent::Goal(Some((_, query))) => Some(
                GoalReply { query, response: GoalResponse { accepted: true, stamp: at.stamp } },
            ),
            _ => None,
        }
    }

    /// The answer to the client, if the event is a request for a goal. It is to be sent before the
    /// goal is set running.
    pub fn goal_reply(&self, at: Reading) -> (reply: Option<GoalReply>)
        ensures
            reply == self.spec_goal_reply(at),
    {
        match self {
            DriverEvent::Goal(Some((_, query))) => Some(
                GoalReply {
                    query: *query,
                    response: GoalResponse { accepted: true, stamp: at.stamp },
                },
            ),
            _ => None,
        }
    }
}

/// What a driver is to deal with next: a shutdown goes before any request that waits.
pub open spec fn spec_next_event<A: ZAction>(
    shutdown: bool,
    waiting: Option<DriverEvent<A>>,
) -> Option<DriverEvent<A>> {
    if shutdown {
        Some(DriverEvent::Shutdown)
    } else {
        waiting
    }
}

/// What a driver is to deal with next: a shutdown goes before any request that waits.
pub fn next_event<A: ZAction>(shutdown: bool, waiting: Option<DriverEvent<A>>) -> (event: Option<
    DriverEvent<A>,
>)
    ensures
        shutdown ==> event == Some(DriverEvent::<A>::Shutdown),
        !shutdown ==> event == waiting,
        event == spec_next_event(shutdown, waiting),
{
    if shutdown {
        Some(DriverEvent::Shutdown)
    } else {
        waiting
    }
}

/// What is to be done upon a [`DriverEvent`].
pub enum DriverAction<A: ZAction> {
    /// Leave the loop.
    Stop,
    /// Wait for the next event.
    Wait,
    /// Tell the client and the world that the goal runs, and hand it to its handler.
    Start(GoalStart<A>),
    /// Answer a cancel request.
    ReplyCancel(CancelGoalResponse),
    /// Answer a result request, if there is an answer already.
    ReplyResult(Option<ResultResponse<A>>),
}

/// A goal that has been set running: what is to be sent, in this order, and the goal itself.
pub struct GoalStart<A: ZAction> {
    /// The answer to the client.
    pub reply: Option<GoalReply>,
    /// The status when the goal was accepted.
    pub accepted_status: StatusMessage,
    /// The status when the goal had set out.
    pub executing_status: StatusMessage,
    /// The goal to be handed to the handler.
    pub goal: ExecutingGoal<A>,
}

/// Tells whether `start` is what comes of a goal request: the goal is accepted and then executed,
/// and nothing else about the server changes.
pub open spec fn goal_started<A: ZAction>(
    before: ServerView<A>,
    after: ServerView<A>,
    request: GoalRequest<A>,
    query: QueryId,
    at: Reading,
    start: GoalStart<A>,
) -> bool {
    exists|between: GoalTable<A>|
        {
            &&& #[trigger] crate::server::accepted(
                before.table,
                between,
                request.goal_id,
                request.goal,
                at.now,
            )
            &&& between.is_reported_by(start.accepted_status.status_list@, at.stamp)
            &&& crate::server::executed(
                between,
                after.table,
                request.goal_id,
                request.goal,
                at.now,
            )
            &&& after == before.with_table(after.table)
            &&& after.table.is_reported_by(start.executing_status.status_list@, at.stamp)
            &&& start.reply == DriverEvent::Goal(Some((request, query))).spec_goal_reply(at)
            &&& start.goal@ == crate::server::HandleView::<A>::received(
                request,
                query,
                at.stamp,
                before,
            ).accepted().executing(before.table.next_flag)
        }
}

/// Tells whether `response` is the answer to a cancel request: it names the goal if the goal runs,
/// and is empty otherwise.
pub open spec fn answers_cancel<A: ZAction>(
    table: GoalTable<A>,
    request: CancelGoalRequest,
    response: CancelGoalResponse,
) -> bool {
    if table.is_executing(request.goal_info.goal_id) {
        response.return_code == CANCEL_GRANTED && response.goals_canceling@ == seq![
            request.goal_info,
        ]
    } else {
        response.return_code == CANCEL_REFUSED && response.goals_canceling@.len() == 0
    }
}

/// Deals with a goal request: accepts the goal and begins to execute it.
pub fn handle_goal_request<A: ZAction>(
    server: &mut ZActionServer<A>,
    request: GoalRequest<A>,
    query: QueryId,
    at: Reading,
) -> (start: GoalStart<A>)
    requires
        old(server)@.table.deadline_fits(at.now),
        old(server)@.table.has_free_flag(),
    ensures
        goal_started(old(server)@, final(server)@, request, query, at, start),
        final(server)@.table.is_sound(),
{
    let requested = server.recv_goal(request, query, at.stamp);
    let acceptance = requested.accept(server, at);
    let execution = acceptance.goal.execute(server, at);
    GoalStart {
        reply: acceptance.reply,
        accepted_status: acceptance.status,
        executing_status: execution.status,
        goal: execution.goal,
    }
}

/// Deals with a cancel request: raises the cancel flag of a goal that runs, and tells the client
/// whether there was such a goal.
pub fn handle_cancel_request<A: ZAction>(
    server: &mut ZActionServer<A>,
    request: CancelGoalRequest,
) -> (response: CancelGoalResponse)
    ensures
        answers_cancel(old(server)@.table, request, response),
        final(server)@ == old(server)@.with_table(
            old(server)@.table.after_cancel(request.goal_info.goal_id),
        ),
        final(server)@.table.is_sound(),
{
    if server.request_cancel(request.goal_info.goal_id) {
        let goals_canceling = vec![request.goal_info];
        assert(goals_canceling@ == seq![request.goal_info]);
        CancelGoalResponse { return_code: CANCEL_GRANTED, goals_canceling }
    } else {
        CancelGoalResponse { return_code: CANCEL_REFUSED, goals_canceling: vec![] }
    }
}

/// Deals with a result request. There is no answer until the goal is terminated.
pub fn handle_result_request<A: ZAction>(
    server: &ZActionServer<A>,
    request: ResultRequest,
) -> (response: Option<ResultResponse<A>>)
    ensures
        server@.table.answers(request.goal_id, response),
{
    server.goal_result(request.goal_id)
}

/// The loop that deals with every request of a server in automatic mode.
#[derive(Clone, Copy, Debug, PartialEq, Eq, Structural)]
pub struct Driver {
    /// Whether the loop goes on.
    pub running: bool,
}

impl Driver {
    /// A driver, which does not set out if the server is gone already.
    pub fn new(server_alive: bool) -> (driver: Driver)
        ensures
            driver.running == server_alive,
    {
        Driver { running: server_alive }
    }

    /// What comes of an event that reaches a driver.
    pub open spec fn turned<A: ZAction>(
        before: Driver,
        after: Driver,
        server_before: ServerView<A>,
        server_after: ServerView<A>,
        event: DriverEvent<A>,
        at: Reading,
        action: DriverAction<A>,
    ) -> bool {
        if !before.running {
            action is Stop && after == before && server_after == server_before
        } else {
            match event {
                DriverEvent::Shutdown => {
                    action is Stop && !after.running && server_after == server_before
                },
                DriverEvent::Goal(Some((request, query))) => {
                    &&& action matches DriverAction::Start(start)
                    &&& goal_started(server_before, server_after, request, query, at, start)
                    &&& after == before
                },
                DriverEvent::Cancel(Some(request)) => {
                    &&& action matches DriverAction::ReplyCancel(response)
                    &&& answers_cancel(server_before.table, request, response)
                    &&& server_after == server_before.with_table(
                        server_before.table.after_cancel(request.goal_info.goal_id),
                    )
                    &&& after == before
                },
                DriverEvent::Result(Some(request)) => {
                    &&& action matches DriverAction::ReplyResult(response)
                    &&& server_before.table.answers(request.goal_id, response)
                    &&& server_after == server_before
                    &&& after == before
                },
                _ => action is Wait && after == before && server_after == server_before,
            }
        }
    }

    /// One turn of the loop.
    pub fn turn<A: ZAction>(
        &mut self,
        server: &mut ZActionServer<A>,
        event: DriverEvent<A>,
        at: Reading,
    ) -> (action: DriverAction<A>)
        requires
            old(self).running && event.brings_goal() ==> old(server)@.table.deadline_fits(at.now)
                && old(server)@.table.has_free_flag(),
        ensures
            Driver::turned(*old(self), *final(self), old(server)@, final(server)@, event, at, action),
            old(server)@.table.is_sound() ==> final(server)@.table.is_sound(),
    {
        if !self.running {
            return DriverAction::Stop;
        }
        match event {
            DriverEvent::Shutdown => {
                self.running = false;
                DriverAction::Stop
            },
            DriverEvent::Goal(Some((request, query))) => {
                DriverAction::Start(handle_goal_request(server, request, query, at))
            },
            DriverEvent::Cancel(Some(request)) => {
                DriverAction::ReplyCancel(handle_cancel_request(server, request))
            },
            DriverEvent::Result(Some(request)) => {
                DriverAction::ReplyResult(handle_result_request(server, request))
            },
            _ => DriverAction::Wait,
        }
    }
}

/// What happens to a result handler. A channel that could not be read shows as a request that is
/// missing.
pub enum ResultHandlerEvent {
    /// The server is being shut down.
    Shutdown,
    /// A driver takes over.
    Replaced,
    /// The result of a goal is asked for.
    Request(Option<ResultRequest>),
}

/// The loop that answers the result requests of a server in manual mode.
#[derive(Clone, Copy, Debug, PartialEq, Eq, Structural)]
pub struct ResultHandler {
    /// Whether the loop goes on.
    pub running: bool,
}

impl ResultHandler {
    /// A result handler that sets out.
    pub fn new() -> (handler: ResultHandler)
        ensures
            handler.running,
    {
        ResultHandler { running: true }
    }

    /// What comes of an event that reaches a result handler of a server with the given goals.
    pub open spec fn turned<A: ZAction>(
        before: ResultHandler,
        after: ResultHandler,
        table: GoalTable<A>,
        event: ResultHandlerEvent,
        response: Option<ResultResponse<A>>,
    ) -> bool {
        if !before.running {
            after == before && response is None
        } else {
            match event {
                ResultHandlerEvent::Shutdown | ResultHandlerEvent::Replaced => {
                    !after.running && response is None
                },
                ResultHandlerEvent::Request(Some(request)) => {
                    after == before && table.answers(request.goal_id, response)
                },
                ResultHandlerEvent::Request(None) => after == before && response is None,
            }
        }
    }

    /// One turn of the loop: the answer to be sent, if there is one.
    pub fn turn<A: ZAction>(
        &mut self,
        server: &ZActionServer<A>,
        event: ResultHandlerEvent,
    ) -> (response: Option<ResultResponse<A>>)
        ensures
            ResultHandler::turned(*old(self), *final(self), server@.table, event, response),
    {
        if !self.running {
            return None;
        }
        match event {
            ResultHandlerEvent::Request(Some(request)) => handle_result_request(server, request),
            ResultHandlerEvent::Request(None) => None,
            ResultHandlerEvent::Shutdown | ResultHandlerEvent::Replaced => {
                self.running = false;
                None
            },
        }
    }
}

} // verus!
