//! The action server and the handles of its goals.

use std::marker::PhantomData;
use tokio_util::sync::CancellationToken;
use vstd::prelude::*;

use crate::action::{GoalId, GoalInfo, GoalStatus, ZAction};
use crate::messages::{FeedbackMessage, GoalRequest, GoalResponse, ResultResponse, StatusMessage};
use crate::state::{FlagId, GoalManager, GoalTable};
use crate::time::{Duration, Instant, Reading};
use crate::token::{StopToken, StopView};

verus! {

/// Identifies a request that waits for its answer.
pub type QueryId = u64;

/// Who deals with the requests that reach a server.
#[derive(Clone, Copy, Debug, PartialEq, Eq, Structural)]
pub enum ServerMode {
    /// The owner receives the goals; only result requests are answered in the background.
    Manual,
    /// A driver answers all requests and hands each goal to a handler.
    Automatic,
}

/// The mathematical content of a [`ZActionServer`].
#[verifier::ext_equal]
pub struct ServerView<A: ZAction> {
    pub table: GoalTable<A>,
    pub mode: ServerMode,
    /// Stops every background task.
    pub shutdown: StopView,
    /// Stops the task that answers result requests in manual mode.
    pub result_handler: StopView,
}

impl<A: ZAction> ServerView<A> {
    /// The server with its goals replaced.
    pub open spec fn with_table(self, table: GoalTable<A>) -> Self {
        ServerView { table, ..self }
    }

    /// A server that has just been built: it knows no goal and is in manual mode, and its two
    /// tokens are apart and not canceled.
    pub open spec fn is_new(
        self,
        result_timeout: Duration,
        goal_timeout: Option<Duration>,
    ) -> bool {
        &&& self.table == GoalTable::<A>::initial(result_timeout, goal_timeout)
        &&& self.table.is_sound()
        &&& self.mode == ServerMode::Manual
        &&& !self.shutdown.canceled
        &&& !self.result_handler.canceled
        &&& self.shutdown.token != self.result_handler.token
    }
}

/// An action server.
pub struct ZActionServer<A: ZAction> {
    goal_manager: GoalManager<A>,
    mode: ServerMode,
    shutdown: StopToken,
    /// Cancels the default result handler when the server changes to automatic mode.
    result_handler: StopToken,
}

impl<A: ZAction> View for ZActionServer<A> {
    type V = ServerView<A>;

    closed spec fn view(&self) -> ServerView<A> {
        ServerView {
            table: self.goal_manager@,
            mode: self.mode,
            shutdown: self.shutdown@,
            result_handler: self.result_handler@,
        }
    }
}

/// Marks a goal that has been requested and neither accepted nor rejected.
pub struct Requested;

/// Marks a goal that has been accepted and does not run yet.
pub struct Accepted;

/// Marks a goal that runs.
pub struct Executing;

/// A goal handle in the "Requested" state.
pub type RequestedGoal<A> = GoalHandle<A, Requested>;

/// A goal handle in the "Accepted" state.
pub type AcceptedGoal<A> = GoalHandle<A, Accepted>;

/// A goal handle in the "Executing" state.
pub type ExecutingGoal<A> = GoalHandle<A, Executing>;

/// A goal in one of the states of its life. What can be done with it depends on `State`:
///
/// - a `GoalHandle<A, Requested>` can be accepted or rejected;
/// - a `GoalHandle<A, Accepted>` can be executed;
/// - a `GoalHandle<A, Executing>` can publish feedback and be terminated.
#[verifier::reject_recursive_types(State)]
pub struct GoalHandle<A: ZAction, State> {
    /// The goal data.
    pub goal: A::Goal,
    /// The goal metadata.
    pub info: GoalInfo,
    /// A handle to the shutdown token of the server that the goal belongs to.
    server: CancellationToken,
    query: Option<QueryId>,
    cancel_flag: Option<FlagId>,
    _state: PhantomData<State>,
}

/// The mathematical content of a [`GoalHandle`].
pub struct HandleView<A: ZAction> {
    /// The goal data.
    pub goal: A::Goal,
    /// The goal metadata.
    pub info: GoalInfo,
    /// The shutdown token of the server that the goal belongs to, by which the server is known.
    pub server: CancellationToken,
    /// The request that waits for an answer, if there is one.
    pub query: Option<QueryId>,
    /// The flag that tells that the goal is to be canceled, once the goal runs.
    pub cancel_flag: Option<FlagId>,
}

impl<A: ZAction, State> View for GoalHandle<A, State> {
    type V = HandleView<A>;

    closed spec fn view(&self) -> HandleView<A> {
        HandleView {
            goal: self.goal,
            info: self.info,
            server: self.server,
            query: self.query,
            cancel_flag: self.cancel_flag,
        }
    }
}

impl<A: ZAction> HandleView<A> {
    /// The handle of a goal that a client has asked `server` for.
    pub open spec fn received(
        request: GoalRequest<A>,
        query: QueryId,
        stamp: i64,
        server: ServerView<A>,
    ) -> Self {
        HandleView {
            goal: request.goal,
            info: GoalInfo { goal_id: request.goal_id, stamp },
            server: server.shutdown.token,
            query: Some(query),
            cancel_flag: None,
        }
    }

    /// The handle of the goal after it was accepted.
    pub open spec fn accepted(self) -> Self {
        HandleView { query: None, cancel_flag: None, ..self }
    }

    /// The handle of the goal after it set out with the given cancel flag.
    pub open spec fn executing(self, cancel_flag: FlagId) -> Self {
        HandleView { query: None, cancel_flag: Some(cancel_flag), ..self }
    }

    /// The answer that tells the client that the goal is accepted.
    pub open spec fn accept_reply(self) -> Option<GoalReply> {
        reply_to(self.query, GoalResponse { accepted: true, stamp: self.info.stamp })
    }

    /// Tells whether the goal belongs to a server.
    pub open spec fn belongs_to(self, server: ServerView<A>) -> bool {
        self.server == server.shutdown.token
    }

    /// Tells whether the cancel flag of the goal is up.
    pub open spec fn is_cancel_requested(self, table: GoalTable<A>) -> bool {
        self.cancel_flag matches Some(flag) && table.raised.contains(flag)
    }
}

/// A response and the request that it answers.
#[derive(Clone, Copy, Debug, PartialEq, Eq, Structural)]
pub struct GoalReply {
    pub query: QueryId,
    pub response: GoalResponse,
}

/// The reply that takes `response` to the request that waits, if there is one.
pub open spec fn reply_to(query: Option<QueryId>, response: GoalResponse) -> Option<GoalReply> {
    match query {
        Some(query) => Some(GoalReply { query, response }),
        None => None,
    }
}

/// What comes of accepting a goal.
pub struct Acceptance<A: ZAction> {
    /// The goal, which can now be executed.
    pub goal: AcceptedGoal<A>,
    /// The answer to be sent to the client.
    pub reply: Option<GoalReply>,
    /// The status to be published.
    pub status: StatusMessage,
}

/// What comes of executing a goal.
pub struct Execution<A: ZAction> {
    /// The goal, which now runs.
    pub goal: ExecutingGoal<A>,
    /// The status to be published.
    pub status: StatusMessage,
}

/// What comes of expiring goals.
pub struct Expiration {
    /// The goals that are forgotten.
    pub expired: Vec<GoalId>,
    /// The status to be published, if any goal is forgotten.
    pub status: Option<StatusMessage>,
}

/// Tells whether `after` is `before` with `goal` accepted.
pub open spec fn accepted<A: ZAction>(
    before: GoalTable<A>,
    after: GoalTable<A>,
    goal_id: GoalId,
    goal: A::Goal,
    now: Instant,
) -> bool {
    exists|stored: A::Goal| #[trigger]
        cloned(goal, stored) && after == before.after_accept(goal_id, stored, now)
}

/// Tells whether `after` is `before` with `goal` set running.
pub open spec fn executed<A: ZAction>(
    before: GoalTable<A>,
    after: GoalTable<A>,
    goal_id: GoalId,
    goal: A::Goal,
    now: Instant,
) -> bool {
    exists|stored: A::Goal| #[trigger]
        cloned(goal, stored) && after == before.after_execute(goal_id, stored, now)
}

impl<A: ZAction> ZActionServer<A> {
    /// A server that knows no goal, in manual mode.
    pub(crate) fn new(result_timeout: Duration, goal_timeout: Option<Duration>) -> (server: Self)
        ensures
            server@.is_new(result_timeout, goal_timeout),
    {
        let shutdown = StopToken::new();
        let result_handler = StopToken::apart_from(&shutdown);
        ZActionServer {
            goal_manager: GoalManager::new(result_timeout, goal_timeout),
            mode: ServerMode::Manual,
            shutdown,
            result_handler,
        }
    }

    /// Tells whether the clock can represent the deadline of a goal that sets out at `now`.
    pub fn deadline_fits(&self, now: Instant) -> (fits: bool)
        ensures
            fits == self@.table.deadline_fits(now),
    {
        self.goal_manager.deadline_fits(now)
    }

    /// Tells whether a cancel flag is left for one more execution.
    pub fn has_free_flag(&self) -> (free: bool)
        ensures
            free == self@.table.has_free_flag(),
    {
        self.goal_manager.has_free_flag()
    }

    /// The status message to be published: the status of every goal, in no particular order.
    pub fn publish_status(&self, stamp: i64) -> (message: StatusMessage)
        ensures
            self@.table.is_reported_by(message.status_list@, stamp),
    {
        self.goal_manager.status_message(stamp)
    }

    /// The goal that a client has asked for.
    pub fn recv_goal(&self, request: GoalRequest<A>, query: QueryId, stamp: i64) -> (goal:
        RequestedGoal<A>)
        ensures
            goal@ == HandleView::<A>::received(request, query, stamp, self@),
            goal@.belongs_to(self@),
    {
        GoalHandle {
            goal: request.goal,
            info: GoalInfo::new(request.goal_id, stamp),
            server: self.shutdown.handle(),
            query: Some(query),
            cancel_flag: None,
            _state: PhantomData,
        }
    }

    /// Marks a goal as canceling by raising its cancel flag. Only a goal that runs can be canceled;
    /// the result tells whether it was.
    pub fn request_cancel(&mut self, goal_id: GoalId) -> (raised: bool)
        ensures
            raised == old(self)@.table.is_executing(goal_id),
            raised <==> old(self)@.table.goals.contains_key(goal_id)
                && old(self)@.table.goals[goal_id] is Executing,
            final(self)@ == old(self)@.with_table(old(self)@.table.after_cancel(goal_id)),
            final(self)@.table.is_sound(),
    {
        self.goal_manager.request_cancel(goal_id)
    }

    /// The answer to a request for the result of a goal: its result and status once it is
    /// terminated, and no answer before.
    pub fn goal_result(&self, goal_id: GoalId) -> (response: Option<ResultResponse<A>>)
        ensures
            self@.table.answers(goal_id, response),
    {
        self.goal_manager.result(goal_id)
    }

    /// Expires the terminated goals that are older than `max_age`.
    ///
    /// Goals that have been terminated for longer than `max_age` are forgotten, so that a server
    /// that runs for long does not fill up with them. If there are any, the status is to be
    /// published again.
    pub fn expire_goals(&mut self, max_age: Duration, at: Reading) -> (outcome: Expiration)
        ensures
            outcome.expired@.no_duplicates(),
            forall|id: GoalId| #[trigger]
                outcome.expired@.contains(id) <==> old(self)@.table.has_expired(
                    id,
                    at.now,
                    max_age,
                ),
            final(self)@ == old(self)@.with_table(old(self)@.table.after_expire(at.now, max_age)),
            final(self)@.table.is_sound(),
            match outcome.status {
                Some(status) => outcome.expired@.len() > 0 && final(self)@.table.is_reported_by(
                    status.status_list@,
                    at.stamp,
                ),
                None => outcome.expired@.len() == 0,
            },
    {
        let expired = self.goal_manager.expire(max_age, at.now);
        let status = if expired.is_empty() {
            None
        } else {
            Some(self.publish_status(at.stamp))
        };
        Expiration { expired, status }
    }

    /// Sets how long terminated goals are to be kept. Nothing expires by itself:
    /// [`ZActionServer::expire_goals`] must be called from time to time.
    pub fn set_result_timeout(&mut self, timeout: Duration)
        ensures
            final(self)@ == old(self)@.with_table(
                GoalTable { result_timeout: timeout, ..old(self)@.table },
            ),
            final(self)@.table.is_sound(),
    {
        self.goal_manager.set_result_timeout(timeout);
    }

    /// How long terminated goals are to be kept.
    pub fn result_timeout(&self) -> (timeout: Duration)
        ensures
            timeout == self@.table.result_timeout,
    {
        self.goal_manager.result_timeout()
    }

    /// Who deals with the requests that reach the server.
    pub fn mode(&self) -> (mode: ServerMode)
        ensures
            mode == self@.mode,
    {
        self.mode
    }

    /// A handle to the token that stops every background task.
    pub fn shutdown_token(&self) -> (token: CancellationToken)
        ensures
            token == self@.shutdown.token,
    {
        self.shutdown.handle()
    }

    /// A handle to the token that stops the task that answers result requests in manual mode.
    pub fn result_handler_token(&self) -> (token: CancellationToken)
        ensures
            token == self@.result_handler.token,
    {
        self.result_handler.handle()
    }

    /// Changes the server from manual to automatic mode: cancels the handler that only answers
    /// result requests, so that it does not compete for them, and hands out the token that is to
    /// stop the driver which is now to be started.
    pub fn with_handler(&mut self) -> (driver_stop: CancellationToken)
        ensures
            driver_stop == old(self)@.shutdown.token,
            final(self)@ == (ServerView {
                mode: ServerMode::Automatic,
                result_handler: StopView { canceled: true, ..old(self)@.result_handler },
                ..old(self)@
            }),
    {
        self.result_handler.cancel();
        self.mode = ServerMode::Automatic;
        self.shutdown.handle()
    }

    /// Tells every background task to stop. A server that is given up must be shut down.
    pub fn shutdown(&mut self)
        ensures
            final(self)@ == (ServerView {
                shutdown: StopView { canceled: true, ..old(self)@.shutdown },
                ..old(self)@
            }),
    {
        self.shutdown.cancel();
    }
}

/// What can be asked of a goal in every state of its life.
impl<A: ZAction, State> GoalHandle<A, State> {
    /// Tells whether the goal belongs to a server. Only that server can do anything with it.
    pub fn belongs_to(&self, server: &ZActionServer<A>) -> (belongs: bool)
        ensures
            belongs == self@.belongs_to(server@),
    {
        server.shutdown.has_handle(&self.server)
    }
}

fn reply(query: Option<QueryId>, response: GoalResponse) -> (reply: Option<GoalReply>)
    ensures
        reply == reply_to(query, response),
{
    match query {
        Some(query) => Some(GoalReply { query, response }),
        None => None,
    }
}

/// What can be done with a goal that has been requested.
impl<A: ZAction> GoalHandle<A, Requested> {
    /// The goal data.
    pub fn goal(&self) -> (goal: &A::Goal)
        ensures
            *goal == self@.goal,
    {
        &self.goal
    }

    /// The goal info.
    pub fn info(&self) -> (info: &GoalInfo)
        ensures
            *info == self@.info,
    {
        &self.info
    }

    /// The answer that tells the client that the goal is accepted. It is to be sent before the goal
    /// is accepted.
    pub fn accept_reply(&self) -> (reply: Option<GoalReply>)
        ensures
            reply == self@.accept_reply(),
    {
        reply(self.query, GoalResponse { accepted: true, stamp: self.info.stamp })
    }

    /// Accepts the goal: the client is to be told so, the server knows the goal from now on, and
    /// its status is to be published.
    pub fn accept(self, server: &mut ZActionServer<A>, at: Reading) -> (outcome: Acceptance<A>)
        requires
            self@.belongs_to(old(server)@),
            old(server)@.table.deadline_fits(at.now),
        ensures
            outcome.goal@ == self@.accepted(),
            outcome.goal@.belongs_to(final(server)@),
            outcome.reply == self@.accept_reply(),
            accepted(
                old(server)@.table,
                final(server)@.table,
                self@.info.goal_id,
                self@.goal,
                at.now,
            ),
            final(server)@ == old(server)@.with_table(final(server)@.table),
            final(server)@.table.is_sound(),
            final(server)@.table.is_reported_by(outcome.status.status_list@, at.stamp),
    {
        let reply = self.accept_reply();
        let stored = self.goal.clone();
        assert(cloned(self.goal, stored));
        server.goal_manager.accept(self.info.goal_id, stored, at.now);
        let status = server.publish_status(at.stamp);
        let goal = GoalHandle {
            goal: self.goal,
            info: self.info,
            server: self.server,
            query: None,
            cancel_flag: None,
            _state: PhantomData,
        };
        Acceptance { goal, reply, status }
    }

    /// Rejects the goal: the client is to be told so, and the server does not get to know the goal.
    pub fn reject(self) -> (reply: Option<GoalReply>)
        ensures
            reply == reply_to(self@.query, GoalResponse { accepted: false, stamp: 0 }),
            reply is Some <==> self@.query is Some,
            reply is Some ==> reply->0.query == self@.query->0 && !reply->0.response.accepted
                && reply->0.response.stamp == 0,
    {
        self::reply(self.query, GoalResponse { accepted: false, stamp: 0 })
    }
}

/// What can be done with a goal that has been accepted.
impl<A: ZAction> GoalHandle<A, Accepted> {
    /// The goal data.
    pub fn goal(&self) -> (goal: &A::Goal)
        ensures
            *goal == self@.goal,
    {
        &self.goal
    }

    /// The goal info.
    pub fn info(&self) -> (info: &GoalInfo)
        ensures
            *info == self@.info,
    {
        &self.info
    }

    /// Begins to execute the goal: the server notes that it runs, with a cancel flag of its own that
    /// is down, and its status is to be published.
    pub fn execute(self, server: &mut ZActionServer<A>, at: Reading) -> (outcome: Execution<A>)
        requires
            self@.belongs_to(old(server)@),
            old(server)@.table.deadline_fits(at.now),
            old(server)@.table.has_free_flag(),
        ensures
            outcome.goal@ == self@.executing(old(server)@.table.next_flag),
            outcome.goal@.belongs_to(final(server)@),
            !old(server)@.table.raised.contains(old(server)@.table.next_flag),
            forall|id: GoalId| #[trigger]
                old(server)@.table.is_executing(id) ==> old(server)@.table.goals[id]->cancel_flag
                    != old(server)@.table.next_flag,
            executed(
                old(server)@.table,
                final(server)@.table,
                self@.info.goal_id,
                self@.goal,
                at.now,
            ),
            final(server)@ == old(server)@.with_table(final(server)@.table),
            final(server)@.table.is_sound(),
            final(server)@.table.is_reported_by(outcome.status.status_list@, at.stamp),
    {
        let stored = self.goal.clone();
        assert(cloned(self.goal, stored));
        let cancel_flag: FlagId = server.goal_manager.execute(self.info.goal_id, stored, at.now);
        let status = server.publish_status(at.stamp);
        let goal = GoalHandle {
            goal: self.goal,
            info: self.info,
            server: self.server,
            query: None,
            cancel_flag: Some(cancel_flag),
            _state: PhantomData,
        };
        Execution { goal, status }
    }
}

/// What can be done with a goal that runs.
impl<A: ZAction> GoalHandle<A, Executing> {
    /// The goal data.
    pub fn goal(&self) -> (goal: &A::Goal)
        ensures
            *goal == self@.goal,
    {
        &self.goal
    }

    /// The goal info.
    pub fn info(&self) -> (info: &GoalInfo)
        ensures
            *info == self@.info,
    {
        &self.info
    }

    /// The message to be published that reports progress on the goal.
    pub fn publish_feedback(&self, feedback: A::Feedback) -> (message: FeedbackMessage<A>)
        ensures
            message == (FeedbackMessage::<A> { goal_id: self@.info.goal_id, feedback }),
    {
        FeedbackMessage { goal_id: self.info.goal_id, feedback }
    }

    /// Tells whether it has been requested to cancel this execution of the goal.
    pub fn is_cancel_requested(&self, server: &ZActionServer<A>) -> (requested: bool)
        requires
            self@.belongs_to(server@),
        ensures
            requested == self@.is_cancel_requested(server@.table),
            requested <==> self@.cancel_flag is Some && server@.table.raised.contains(
                self@.cancel_flag->0,
            ),
    {
        match self.cancel_flag {
            Some(flag) => server.goal_manager.is_raised(flag),
            None => false,
        }
    }

    /// Ends the goal with success. The status is to be published.
    pub fn succeed(self, server: &mut ZActionServer<A>, result: A::Result, at: Reading) -> (status:
        StatusMessage)
        requires
            self@.belongs_to(old(server)@),
        ensures
            final(server)@ == old(server)@.with_table(
                old(server)@.table.after_terminate(
                    self@.info.goal_id,
                    self@.cancel_flag,
                    result,
                    GoalStatus::Succeeded,
                    at.now,
                ),
            ),
            final(server)@.table.is_sound(),
            final(server)@.table.is_reported_by(status.status_list@, at.stamp),
    {
        self.terminate(server, result, GoalStatus::Succeeded, at)
    }

    /// Ends the goal as aborted. The status is to be published.
    pub fn abort(self, server: &mut ZActionServer<A>, result: A::Result, at: Reading) -> (status:
        StatusMessage)
        requires
            self@.belongs_to(old(server)@),
        ensures
            final(server)@ == old(server)@.with_table(
                old(server)@.table.after_terminate(
                    self@.info.goal_id,
                    self@.cancel_flag,
                    result,
                    GoalStatus::Aborted,
                    at.now,
                ),
            ),
            final(server)@.table.is_sound(),
            final(server)@.table.is_reported_by(status.status_list@, at.stamp),
    {
        self.terminate(server, result, GoalStatus::Aborted, at)
    }

    /// Ends the goal as canceled. The status is to be published.
    pub fn canceled(self, server: &mut ZActionServer<A>, result: A::Result, at: Reading) -> (status:
        StatusMessage)
        requires
            self@.belongs_to(old(server)@),
        ensures
            final(server)@ == old(server)@.with_table(
                old(server)@.table.after_terminate(
                    self@.info.goal_id,
                    self@.cancel_flag,
                    result,
                    GoalStatus::Canceled,
                    at.now,
                ),
            ),
            final(server)@.table.is_sound(),
            final(server)@.table.is_reported_by(status.status_list@, at.stamp),
    {
        self.terminate(server, result, GoalStatus::Canceled, at)
    }

    fn terminate(
        self,
        server: &mut ZActionServer<A>,
        result: A::Result,
        status: GoalStatus,
        at: Reading,
    ) -> (message: StatusMessage)
        requires
            self@.belongs_to(old(server)@),
            status.is_terminal(),
        ensures
            final(server)@ == old(server)@.with_table(
                old(server)@.table.after_terminate(
                    self@.info.goal_id,
                    self@.cancel_flag,
                    result,
                    status,
                    at.now,
                ),
            ),
            final(server)@.table.is_sound(),
            final(server)@.table.is_reported_by(message.status_list@, at.stamp),
    {
        server.goal_manager.terminate(
            self.info.goal_id,
            self.cancel_flag,
            result,
            status,
            at.now,
        );
        server.publish_status(at.stamp)
    }
}

} // verus!
