//! What calls of the library give back, and how one call bears on the next.

use tokio_util::sync::CancellationToken;
use vstd::prelude::*;

use crate::action::{GoalId, GoalInfo, GoalStatus, QosProfile, ZAction, ZNode};
use crate::builder::{
    BuildError, BuildProgress, EndpointBuild, EndpointConfig, NamedBuild, ZActionServerBuilder,
};
use crate::driver::{
    Driver, DriverAction, DriverEvent, GoalStart, ResultHandler, ResultHandlerEvent,
};
use crate::messages::{
    CancelGoalRequest, CancelGoalResponse, FeedbackMessage, GoalRequest, ResultRequest,
    ResultResponse, StatusMessage,
};
use crate::naming::Endpoint;
use crate::server::{
    Acceptance, Accepted, AcceptedGoal, Executing, ExecutingGoal, Execution, Expiration,
    GoalHandle, GoalReply, QueryId, Requested, RequestedGoal, ServerMode, ZActionServer,
};
use crate::state::{FlagId, ServerGoalState};
use crate::time::{Duration, Instant, Reading};

verus! {

/// Tells whether a server has the same mode, tokens and timeouts as before.
pub open spec fn settings_are_kept<A: ZAction>(
    before: crate::server::ServerView<A>,
    after: crate::server::ServerView<A>,
) -> bool {
    &&& after.mode == before.mode
    &&& after.shutdown == before.shutdown
    &&& after.result_handler == before.result_handler
    &&& crate::effects::timeouts_are_same(before.table, after.table)
}

/// `next_event` passes a shutdown first; without one it passes on just what waits.
pub proof fn next_event_passes_on_what_waits<A: ZAction>(
    shutdown: bool,
    waiting: Option<DriverEvent<A>>,
    event: Option<DriverEvent<A>>,
)
    requires
        call_ensures(crate::driver::next_event::<A>, (shutdown, waiting), event),
    ensures
        shutdown ==> event is Some && event->0 is Shutdown,
        !shutdown && waiting is None ==> event is None,
        !shutdown && waiting is Some ==> event is Some && event->0 == waiting->0,
{
}

/// A goal request that is received while no shutdown is under way is started by the turn that
/// `next_event` leads to.
pub proof fn received_goal_is_started<A: ZAction>(
    request: GoalRequest<A>,
    query: QueryId,
    event: Option<DriverEvent<A>>,
    driver: &mut Driver,
    server: &mut ZActionServer<A>,
    at: Reading,
    action: DriverAction<A>,
)
    requires
        call_ensures(
            crate::driver::next_event::<A>,
            (false, Some(DriverEvent::Goal(Some((request, query))))),
            event,
        ),
        event is Some ==> call_ensures(
            Driver::turn::<A>,
            (driver, server, event->0, at),
            action,
        ),
        old(driver).running,
        old(server)@.table.next_flag < u64::MAX,
        old(server)@.table.deadline_fits(at.now),
    ensures
        event is Some,
        action is Start,
        action->Start_0.goal@.info.goal_id == request.goal_id,
        action->Start_0.goal@.goal == request.goal,
        action->Start_0.reply is Some,
        action->Start_0.reply->0.query == query,
        action->Start_0.reply->0.response.accepted,
        final(server)@.table.goals.contains_key(request.goal_id),
        final(server)@.table.goals[request.goal_id] is Executing,
        crate::effects::others_are_kept(
            old(server)@.table,
            final(server)@.table,
            request.goal_id,
        ),
        settings_are_kept(old(server)@, final(server)@),
        final(driver).running,
{
    crate::effects::goals_can_set_out(old(server)@.table, at.now);
    crate::effects::driver_starts_the_requested_goal(
        *old(driver),
        *final(driver),
        old(server)@,
        final(server)@,
        request,
        query,
        at,
        action,
    );
}

/// A turn of the driver on a cancel request cancels the named goal, if it runs, and no other: the
/// handle of every other running goal tells the same before and after.
pub proof fn turn_cancels_the_named_goal_alone<A: ZAction>(
    driver: &mut Driver,
    server: &mut ZActionServer<A>,
    request: CancelGoalRequest,
    at: Reading,
    action: DriverAction<A>,
    other: GoalId,
)
    requires
        old(driver).running,
        old(server)@.table.is_sound(),
        call_ensures(
            Driver::turn::<A>,
            (driver, server, DriverEvent::Cancel(Some(request)), at),
            action,
        ),
    ensures
        ({
            let id = request.goal_info.goal_id;
            let before = old(server)@.table;
            let after = final(server)@.table;
            let runs = before.goals.contains_key(id) && before.goals[id] is Executing;
            &&& action is ReplyCancel
            &&& action->ReplyCancel_0.return_code == if runs { 1i8 } else { 0i8 }
            &&& action->ReplyCancel_0.goals_canceling@ == if runs {
                seq![request.goal_info]
            } else {
                Seq::empty()
            }
            &&& runs ==> after.raised.contains(before.goals[id]->cancel_flag)
            &&& other != id && before.goals.contains_key(other) && before.goals[other] is Executing
                ==> (after.raised.contains(before.goals[other]->cancel_flag)
                <==> before.raised.contains(before.goals[other]->cancel_flag))
            &&& after.goals == before.goals
        }),
        settings_are_kept(old(server)@, final(server)@),
        final(driver).running,
{
    let handle = arbitrary();
    crate::effects::driver_cancels_the_named_goal_alone(
        *old(driver),
        *final(driver),
        old(server)@,
        final(server)@,
        request,
        at,
        action,
        handle,
    );
}

/// A turn of the driver on a result request answers from the goal that is named and changes nothing.
pub proof fn turn_answers_from_the_named_goal<A: ZAction>(
    driver: &mut Driver,
    server: &mut ZActionServer<A>,
    request: ResultRequest,
    at: Reading,
    action: DriverAction<A>,
)
    requires
        old(driver).running,
        call_ensures(
            Driver::turn::<A>,
            (driver, server, DriverEvent::Result(Some(request)), at),
            action,
        ),
    ensures
        action is ReplyResult,
        is_result_of(old(server)@, request.goal_id, action->ReplyResult_0),
        final(server)@ == old(server)@,
        final(driver).running,
{
    crate::effects::driver_answers_result_requests(
        *old(driver),
        *final(driver),
        old(server)@,
        final(server)@,
        request,
        at,
        action,
    );
}

/// Tells whether `response` is there just when the goal is known and terminated, and then has its
/// status and a clone of its result.
pub open spec fn is_result_of<A: ZAction>(
    server: crate::server::ServerView<A>,
    goal_id: GoalId,
    response: Option<ResultResponse<A>>,
) -> bool {
    if server.table.goals.contains_key(goal_id) {
        match server.table.goals[goal_id] {
            ServerGoalState::Terminated { result, status, .. } => {
                &&& response is Some
                &&& response->0.status == status
                &&& cloned(result, response->0.result)
            },
            _ => response is None,
        }
    } else {
        response is None
    }
}

/// A shutdown stops the driver and touches nothing, and a driver that has stopped stays so.
pub proof fn turn_stops_at_shutdown<A: ZAction>(
    driver: &mut Driver,
    server: &mut ZActionServer<A>,
    event: DriverEvent<A>,
    at: Reading,
    action: DriverAction<A>,
)
    requires
        call_ensures(Driver::turn::<A>, (driver, server, event, at), action),
    ensures
        final(driver).running <==> old(driver).running && !(event is Shutdown),
        action is Stop <==> !final(driver).running,
        action is Stop || action is Wait ==> final(server)@ == old(server)@,
{
    crate::effects::driver_stops_only_at_shutdown(
        *old(driver),
        *final(driver),
        old(server)@,
        final(server)@,
        event,
        at,
        action,
    );
}

/// The result handler and the driver's own answer to a result request both come from the named goal,
/// and the handler answers as long as it is not told to stop.
pub proof fn result_requests_are_answered_from_the_goal<A: ZAction>(
    handler: &mut ResultHandler,
    server: ZActionServer<A>,
    request: ResultRequest,
    answer: Option<ResultResponse<A>>,
    other_answer: Option<ResultResponse<A>>,
    third_answer: Option<ResultResponse<A>>,
)
    requires
        old(handler).running,
        call_ensures(
            ResultHandler::turn::<A>,
            (handler, &server, ResultHandlerEvent::Request(Some(request))),
            answer,
        ),
        call_ensures(
            crate::driver::handle_result_request::<A>,
            (&server, request),
            other_answer,
        ),
        call_ensures(
            ZActionServer::<A>::goal_result,
            (&server, request.goal_id),
            third_answer,
        ),
    ensures
        final(handler).running,
        is_result_of(server@, request.goal_id, answer),
        is_result_of(server@, request.goal_id, other_answer),
        is_result_of(server@, request.goal_id, third_answer),
{
    crate::effects::result_handler_answers_until_stopped(
        *old(handler),
        *final(handler),
        server@.table,
        ResultHandlerEvent::Request(Some(request)),
        answer,
    );
    crate::effects::results_are_those_of_terminated_goals(
        server@.table,
        request.goal_id,
        other_answer,
    );
    crate::effects::results_are_those_of_terminated_goals(
        server@.table,
        request.goal_id,
        third_answer,
    );
}

/// A result handler that is told to stop, or that its driver replaces, stops and answers nothing.
pub proof fn result_handler_stops_when_told<A: ZAction>(
    handler: &mut ResultHandler,
    server: ZActionServer<A>,
    event: ResultHandlerEvent,
    answer: Option<ResultResponse<A>>,
)
    requires
        call_ensures(ResultHandler::turn::<A>, (handler, &server, event), answer),
    ensures
        final(handler).running <==> old(handler).running && event is Request,
        !(old(handler).running && event is Request) ==> answer is None,
{
    crate::effects::result_handler_answers_until_stopped(
        *old(handler),
        *final(handler),
        server@.table,
        event,
        answer,
    );
}

/// To request a cancel by hand or to have a cancel request handled comes to the same: the flag of the
/// named goal goes up if the goal runs, and nothing else changes.
pub proof fn cancel_requests_raise_one_flag<A: ZAction>(
    server: &mut ZActionServer<A>,
    goal_id: GoalId,
    raised: bool,
    flag: FlagId,
)
    requires
        call_ensures(ZActionServer::<A>::request_cancel, (server, goal_id), raised),
    ensures
        ({
            let before = old(server)@.table;
            let after = final(server)@.table;
            &&& raised <==> before.goals.contains_key(goal_id)
                && before.goals[goal_id] is Executing
            &&& raised ==> after.raised.contains(before.goals[goal_id]->cancel_flag)
            &&& !(raised && flag == before.goals[goal_id]->cancel_flag) ==> (after.raised.contains(
                flag,
            ) <==> before.raised.contains(flag))
            &&& after.goals == before.goals
            &&& after.next_flag == before.next_flag
        }),
        settings_are_kept(old(server)@, final(server)@),
{
    crate::effects::cancel_raises_one_flag(old(server)@.table, goal_id);
}

/// What [`cancel_requests_raise_one_flag`] says, for a cancel request that is handled and answered.
pub proof fn handled_cancel_requests_raise_one_flag<A: ZAction>(
    server: &mut ZActionServer<A>,
    request: CancelGoalRequest,
    response: CancelGoalResponse,
    flag: FlagId,
)
    requires
        call_ensures(
            crate::driver::handle_cancel_request::<A>,
            (server, request),
            response,
        ),
    ensures
        ({
            let id = request.goal_info.goal_id;
            let before = old(server)@.table;
            let after = final(server)@.table;
            let runs = before.goals.contains_key(id) && before.goals[id] is Executing;
            &&& response.return_code == if runs { 1i8 } else { 0i8 }
            &&& response.goals_canceling@.len() == if runs { 1nat } else { 0nat }
            &&& runs ==> response.goals_canceling@[0] == request.goal_info
            &&& runs ==> after.raised.contains(before.goals[id]->cancel_flag)
            &&& !(runs && flag == before.goals[id]->cancel_flag) ==> (after.raised.contains(flag)
                <==> before.raised.contains(flag))
            &&& after.goals == before.goals
            &&& after.next_flag == before.next_flag
        }),
        settings_are_kept(old(server)@, final(server)@),
{
    crate::effects::cancel_raises_one_flag(old(server)@.table, request.goal_info.goal_id);
    crate::effects::cancel_answers_tell_of_running_goals(old(server)@.table, request, response);
}

/// A goal that succeeded, was aborted or was canceled leaves its result with that very status, and
/// gives up its own flag. Every other goal and flag and all settings are as they were, and the status
/// to be published shows the end.
pub proof fn ends_leave_result_and_status<A: ZAction>(
    handle: ExecutingGoal<A>,
    server: &mut ZActionServer<A>,
    result: A::Result,
    at: Reading,
    message: StatusMessage,
    status: GoalStatus,
    flag: FlagId,
    other: GoalId,
)
    requires
        match status {
            GoalStatus::Succeeded => call_ensures(
                GoalHandle::<A, Executing>::succeed,
                (handle, server, result, at),
                message,
            ),
            GoalStatus::Aborted => call_ensures(
                GoalHandle::<A, Executing>::abort,
                (handle, server, result, at),
                message,
            ),
            GoalStatus::Canceled => call_ensures(
                GoalHandle::<A, Executing>::canceled,
                (handle, server, result, at),
                message,
            ),
            _ => false,
        },
    ensures
        ({
            let id = handle@.info.goal_id;
            let before = old(server)@.table;
            let after = final(server)@.table;
            &&& after.goals.contains_key(id)
            &&& after.goals[id] == (ServerGoalState::<A>::Terminated {
                result,
                status,
                timestamp: at.now,
            })
            &&& crate::effects::others_are_kept(before, after, id)
            &&& after.raised.contains(flag) <==> before.raised.contains(flag) && handle@.cancel_flag
                != Some(flag)
            &&& after.next_flag == before.next_flag
            &&& crate::laws::reports(message.status_list@, id, status)
            &&& other != id && before.goals.contains_key(other) ==> crate::effects::shows_state(
                message.status_list@,
                other,
                before.goals[other],
            )
        }),
        settings_are_kept(old(server)@, final(server)@),
{
    let id = handle@.info.goal_id;
    crate::effects::termination_leaves_the_result(
        old(server)@.table,
        id,
        handle@.cancel_flag,
        result,
        status,
        at.now,
    );
    crate::effects::status_shows_each_state(
        final(server)@.table,
        message.status_list@,
        at.stamp,
    );
    if other != id && old(server)@.table.goals.contains_key(other) {
        assert(final(server)@.table.goals.contains_key(other));
    }
}

/// An expiry right after the end of a goal, at whatever time, forgets the goal just when it is older
/// then than the maximum age, and tells so.
pub proof fn expiry_after_the_end_goes_by_age<A: ZAction>(
    handle: ExecutingGoal<A>,
    server: &mut ZActionServer<A>,
    result: A::Result,
    ended: Reading,
    message: StatusMessage,
    later: &mut ZActionServer<A>,
    max_age: Duration,
    at: Reading,
    outcome: Expiration,
)
    requires
        call_ensures(
            GoalHandle::<A, Executing>::succeed,
            (handle, server, result, ended),
            message,
        ),
        old(later)@ == final(server)@,
        call_ensures(ZActionServer::<A>::expire_goals, (later, max_age, at), outcome),
    ensures
        ({
            let id = handle@.info.goal_id;
            let old_enough = at.now.nanos > ended.now.nanos + max_age.nanos;
            &&& outcome.expired@.contains(id) <==> old_enough
            &&& final(later)@.table.goals.contains_key(id) <==> !old_enough
            &&& old_enough ==> outcome.status is Some
        }),
{
    let id = handle@.info.goal_id;
    crate::effects::termination_leaves_the_result(
        old(server)@.table,
        id,
        handle@.cancel_flag,
        result,
        GoalStatus::Succeeded,
        ended.now,
    );
    crate::effects::expiry_goes_by_age(old(later)@.table, id, at.now, max_age);
    crate::effects::expiry_forgets_the_expired(old(later)@.table, at.now, max_age);
}

/// An expiry forgets, and names once each, the terminated goals whose end and the maximum age
/// together lie before now, and no other goal. If there are any, the status of what is left is to be
/// published; if there are none, nothing is.
pub proof fn expiry_names_what_it_forgets<A: ZAction>(
    server: &mut ZActionServer<A>,
    max_age: Duration,
    at: Reading,
    outcome: Expiration,
    goal_id: GoalId,
)
    requires
        call_ensures(ZActionServer::<A>::expire_goals, (server, max_age, at), outcome),
    ensures
        ({
            let before = old(server)@.table;
            let after = final(server)@.table;
            let expires = before.goals.contains_key(goal_id)
                && before.goals[goal_id] is Terminated
                && before.goals[goal_id]->Terminated_timestamp.nanos + max_age.nanos
                < at.now.nanos;
            &&& outcome.expired@.contains(goal_id) <==> expires
            &&& after.goals.contains_key(goal_id) <==> before.goals.contains_key(goal_id)
                && !expires
            &&& after.goals.contains_key(goal_id) ==> after.goals[goal_id] == before.goals[goal_id]
            &&& after.raised == before.raised
            &&& after.next_flag == before.next_flag
            &&& outcome.expired@.no_duplicates()
            &&& outcome.status is Some <==> outcome.expired@.len() > 0
            &&& outcome.status is Some ==> forall|i: int|
                0 <= i < outcome.status->0.status_list@.len() ==> after.goals.contains_key(
                    (#[trigger] outcome.status->0.status_list@[i]).goal_info.goal_id,
                )
            &&& outcome.status is Some && after.goals.contains_key(goal_id)
                ==> crate::effects::shows_state(
                outcome.status->0.status_list@,
                goal_id,
                after.goals[goal_id],
            )
        }),
        settings_are_kept(old(server)@, final(server)@),
{
    crate::effects::expiry_goes_by_age(old(server)@.table, goal_id, at.now, max_age);
    crate::effects::expiry_forgets_the_expired(old(server)@.table, at.now, max_age);
    if outcome.status is Some {
        crate::effects::status_shows_each_state(
            final(server)@.table,
            outcome.status->0.status_list@,
            at.stamp,
        );
    }
}

/// A status message has just one entry for each known goal, with the stamp and with the status of the
/// goal's own state.
pub proof fn status_messages_show_each_goal<A: ZAction>(
    server: ZActionServer<A>,
    stamp: i64,
    message: StatusMessage,
    goal_id: GoalId,
)
    requires
        call_ensures(ZActionServer::<A>::publish_status, (&server, stamp), message),
    ensures
        ({
            let list = message.status_list@;
            let goals = server@.table.goals;
            &&& goals.contains_key(goal_id) ==> match goals[goal_id] {
                ServerGoalState::Accepted { .. } => {
                    crate::laws::reports(list, goal_id, GoalStatus::Accepted)
                },
                ServerGoalState::Executing { .. } => {
                    crate::laws::reports(list, goal_id, GoalStatus::Executing)
                },
                ServerGoalState::Canceling { .. } => {
                    crate::laws::reports(list, goal_id, GoalStatus::Canceling)
                },
                ServerGoalState::Terminated { status, .. } => {
                    crate::laws::reports(list, goal_id, status)
                },
            }
            &&& forall|i: int|
                0 <= i < list.len() ==> goals.contains_key((#[trigger] list[i]).goal_info.goal_id)
                    && list[i].goal_info.stamp == stamp
            &&& forall|i: int, j: int|
                0 <= i < list.len() && 0 <= j < list.len() && (
                #[trigger] list[i]).goal_info.goal_id == (#[trigger] list[j]).goal_info.goal_id
                    ==> i == j
        }),
{
    crate::effects::status_shows_each_state(server@.table, message.status_list@, stamp);
}

/// A goal that is received, accepted and executed runs on its server with the data that was sent, and
/// the client is told once, when it is accepted. Other goals and all settings are as they were.
pub proof fn received_goals_can_be_run<A: ZAction>(
    first: ZActionServer<A>,
    request: GoalRequest<A>,
    query: QueryId,
    stamp: i64,
    requested: RequestedGoal<A>,
    second: &mut ZActionServer<A>,
    accepted_at: Reading,
    acceptance: Acceptance<A>,
    third: &mut ZActionServer<A>,
    executed_at: Reading,
    execution: Execution<A>,
    other: GoalId,
    flag: FlagId,
)
    requires
        call_ensures(
            ZActionServer::<A>::recv_goal,
            (&first, request, query, stamp),
            requested,
        ),
        old(second)@ == first@,
        first@.table.deadline_fits(accepted_at.now),
        first@.table.deadline_fits(executed_at.now),
        first@.table.next_flag < u64::MAX,
        call_ensures(
            GoalHandle::<A, Requested>::accept,
            (requested, second, accepted_at),
            acceptance,
        ),
        old(third)@ == final(second)@,
        call_ensures(
            GoalHandle::<A, Accepted>::execute,
            (acceptance.goal, third, executed_at),
            execution,
        ),
    ensures
        ({
            let id = request.goal_id;
            let accepted = final(second)@.table;
            let running = final(third)@.table;
            &&& requested@.goal == request.goal && requested@.info.goal_id == id
                && requested@.info.stamp == stamp
            &&& acceptance.reply is Some && acceptance.reply->0.query == query
                && acceptance.reply->0.response.accepted && acceptance.reply->0.response.stamp
                == stamp
            &&& accepted.goals.contains_key(id) && accepted.goals[id] is Accepted && cloned(
                request.goal,
                accepted.goals[id]->Accepted_goal,
            )
            &&& accepted.goals[id]->Accepted_timestamp == accepted_at.now
            &&& crate::effects::others_are_kept(first@.table, accepted, id)
            &&& accepted.raised == first@.table.raised
            &&& accepted.next_flag == first@.table.next_flag
            &&& acceptance.goal@.goal == request.goal && acceptance.goal@.info == requested@.info
            &&& other != id && first@.table.goals.contains_key(other) ==> {
                &&& crate::effects::shows_state(
                    acceptance.status.status_list@,
                    other,
                    first@.table.goals[other],
                )
                &&& crate::effects::shows_state(
                    execution.status.status_list@,
                    other,
                    first@.table.goals[other],
                )
            }
            &&& crate::laws::reports(acceptance.status.status_list@, id, GoalStatus::Accepted)
            &&& running.goals.contains_key(id) && running.goals[id] is Executing && cloned(
                request.goal,
                running.goals[id]->Executing_goal,
            )
            &&& crate::effects::others_are_kept(accepted, running, id)
            &&& running.next_flag == accepted.next_flag + 1
            &&& flag != accepted.next_flag ==> (running.raised.contains(flag)
                <==> accepted.raised.contains(flag))
            &&& crate::laws::reports(execution.status.status_list@, id, GoalStatus::Executing)
            &&& execution.goal@.goal == request.goal && execution.goal@.info == requested@.info
            &&& execution.goal@.cancel_flag == Some(running.goals[id]->cancel_flag)
            &&& !running.raised.contains(running.goals[id]->cancel_flag)
        }),
        settings_are_kept(first@, final(second)@),
        settings_are_kept(final(second)@, final(third)@),
{
    let id = request.goal_id;
    crate::effects::goals_can_set_out(first@.table, accepted_at.now);
    crate::effects::goals_can_set_out(first@.table, executed_at.now);
    crate::effects::handles_hold_what_was_received(request, query, stamp, first@, 0);
    crate::effects::handles_change_only_so_far(requested@, 0);
    crate::effects::handles_change_only_so_far(acceptance.goal@, old(third)@.table.next_flag);
    crate::effects::replies_go_to_the_waiting_request(
        requested@,
        requested@.query,
        arbitrary(),
    );
    crate::effects::acceptance_registers_the_goal(
        first@.table,
        final(second)@.table,
        id,
        request.goal,
        accepted_at.now,
    );
    crate::effects::execution_sets_the_goal_running(
        final(second)@.table,
        final(third)@.table,
        id,
        request.goal,
        executed_at.now,
    );
    crate::effects::status_shows_each_state(
        final(second)@.table,
        acceptance.status.status_list@,
        accepted_at.stamp,
    );
    crate::effects::status_shows_each_state(
        final(third)@.table,
        execution.status.status_list@,
        executed_at.stamp,
    );
    if other != id && first@.table.goals.contains_key(other) {
        assert(final(second)@.table.goals.contains_key(other));
        assert(final(third)@.table.goals.contains_key(other));
    }
}

/// Goals get the deadline that their timeout gives them, when they are accepted and again when they
/// set out.
pub proof fn goals_get_deadlines<A: ZAction>(
    requested: RequestedGoal<A>,
    second: &mut ZActionServer<A>,
    accepted_at: Reading,
    acceptance: Acceptance<A>,
    ready: AcceptedGoal<A>,
    third: &mut ZActionServer<A>,
    executed_at: Reading,
    execution: Execution<A>,
)
    requires
        old(second)@.table.deadline_fits(accepted_at.now),
        call_ensures(
            GoalHandle::<A, Requested>::accept,
            (requested, second, accepted_at),
            acceptance,
        ),
        old(third)@.table.deadline_fits(executed_at.now),
        old(third)@.table.has_free_flag(),
        call_ensures(
            GoalHandle::<A, Accepted>::execute,
            (ready, third, executed_at),
            execution,
        ),
    ensures
        crate::effects::is_deadline(
            final(second)@.table.goals[requested@.info.goal_id]->Accepted_expires_at,
            accepted_at.now,
            old(second)@.table.goal_timeout,
        ),
        crate::effects::is_deadline(
            final(third)@.table.goals[ready@.info.goal_id]->Executing_expires_at,
            executed_at.now,
            old(third)@.table.goal_timeout,
        ),
{
    crate::effects::goals_can_set_out(old(second)@.table, accepted_at.now);
    crate::effects::goals_can_set_out(old(third)@.table, executed_at.now);
    crate::effects::acceptance_registers_the_goal(
        old(second)@.table,
        final(second)@.table,
        requested@.info.goal_id,
        requested@.goal,
        accepted_at.now,
    );
    crate::effects::execution_sets_the_goal_running(
        old(third)@.table,
        final(third)@.table,
        ready@.info.goal_id,
        ready@.goal,
        executed_at.now,
    );
}

/// A rejected client is told so under its own query, with no stamp. Only a request that waits is
/// answered.
pub proof fn rejections_are_told<A: ZAction>(
    requested: RequestedGoal<A>,
    reply: Option<GoalReply>,
)
    requires
        call_ensures(GoalHandle::<A, Requested>::reject, (requested,), reply),
    ensures
        reply is Some <==> requested@.query is Some,
        reply is Some ==> reply->0.query == requested@.query->0,
        reply is Some ==> !reply->0.response.accepted && reply->0.response.stamp == 0,
{
}

/// Feedback is published under the id of the goal and as it was given.
pub proof fn feedback_names_its_goal<A: ZAction>(
    handle: ExecutingGoal<A>,
    feedback: A::Feedback,
    message: FeedbackMessage<A>,
)
    requires
        call_ensures(
            GoalHandle::<A, Executing>::publish_feedback,
            (&handle, feedback),
            message,
        ),
    ensures
        message.goal_id == handle@.info.goal_id,
        message.feedback == feedback,
{
}

/// A handle tells that cancellation is requested just after a cancel request for its running goal,
/// and tells the same as before after one for another goal that runs.
pub proof fn handles_tell_of_their_own_cancel<A: ZAction>(
    server: &mut ZActionServer<A>,
    goal_id: GoalId,
    raised: bool,
    later: ZActionServer<A>,
    earlier: ZActionServer<A>,
    handle: ExecutingGoal<A>,
    before: bool,
    after: bool,
)
    requires
        old(server)@.table.is_sound(),
        old(server)@.table.is_executing(handle@.info.goal_id),
        handle@.cancel_flag == Some(
            old(server)@.table.goals[handle@.info.goal_id]->cancel_flag,
        ),
        earlier@ == old(server)@,
        call_ensures(
            GoalHandle::<A, Executing>::is_cancel_requested,
            (&handle, &earlier),
            before,
        ),
        call_ensures(ZActionServer::<A>::request_cancel, (server, goal_id), raised),
        later@ == final(server)@,
        call_ensures(
            GoalHandle::<A, Executing>::is_cancel_requested,
            (&handle, &later),
            after,
        ),
    ensures
        goal_id == handle@.info.goal_id ==> raised && after,
        goal_id != handle@.info.goal_id ==> after == before,
{
    crate::effects::cancel_raises_one_flag(old(server)@.table, goal_id);
    crate::effects::sound_tables_keep_goals_apart(old(server)@.table);
    crate::effects::running_goals_are_those_executed(
        old(server)@.table,
        handle@.info.goal_id,
    );
}

/// The result timeout that is set is the one that is read, and no goal, flag, token or other setting
/// changes with it.
pub proof fn set_result_timeout_is_read_back<A: ZAction>(
    server: &mut ZActionServer<A>,
    timeout: Duration,
    later: ZActionServer<A>,
    read: Duration,
)
    requires
        call_ensures(ZActionServer::<A>::set_result_timeout, (server, timeout), ()),
        later@ == final(server)@,
        call_ensures(ZActionServer::<A>::result_timeout, (&later,), read),
    ensures
        read == timeout,
        final(server)@.table.goals == old(server)@.table.goals,
        final(server)@.table.raised == old(server)@.table.raised,
        final(server)@.table.next_flag == old(server)@.table.next_flag,
        final(server)@.table.goal_timeout == old(server)@.table.goal_timeout,
        final(server)@.mode == old(server)@.mode,
        final(server)@.shutdown == old(server)@.shutdown,
        final(server)@.result_handler == old(server)@.result_handler,
{
}

/// To attach a handler cancels the result handler's token and no other, and hands the driver the
/// token that a shutdown cancels. No goal, flag or timeout changes.
pub proof fn handlers_replace_the_result_handler<A: ZAction>(
    server: &mut ZActionServer<A>,
    driver_stop: CancellationToken,
    later: &mut ZActionServer<A>,
)
    requires
        call_ensures(ZActionServer::<A>::with_handler, (server,), driver_stop),
        old(later)@ == final(server)@,
        call_ensures(ZActionServer::<A>::shutdown, (later,), ()),
    ensures
        final(server)@.mode == ServerMode::Automatic,
        final(server)@.result_handler.canceled,
        final(server)@.result_handler.token == old(server)@.result_handler.token,
        final(server)@.shutdown == old(server)@.shutdown,
        final(server)@.table == old(server)@.table,
        driver_stop == old(server)@.shutdown.token,
        final(later)@.shutdown.canceled,
        final(later)@.shutdown.token == driver_stop,
        final(later)@.result_handler == old(later)@.result_handler,
        final(later)@.table == old(later)@.table,
        final(later)@.mode == old(later)@.mode,
{
}

/// To shut a server down cancels its shutdown token and nothing else.
pub proof fn shutdown_cancels_one_token<A: ZAction>(server: &mut ZActionServer<A>)
    requires
        call_ensures(ZActionServer::<A>::shutdown, (server,), ()),
    ensures
        final(server)@.shutdown.canceled,
        final(server)@.shutdown.token == old(server)@.shutdown.token,
        final(server)@.result_handler.canceled == old(server)@.result_handler.canceled,
        final(server)@.result_handler.token == old(server)@.result_handler.token,
        final(server)@.table == old(server)@.table,
        final(server)@.mode == old(server)@.mode,
{
}

/// What can be read off a server is what it holds.
pub proof fn servers_are_read_as_they_are<A: ZAction>(
    server: ZActionServer<A>,
    now: Instant,
    mode: ServerMode,
    shutdown: CancellationToken,
    result_handler: CancellationToken,
    fits: bool,
    free: bool,
)
    requires
        call_ensures(ZActionServer::<A>::mode, (&server,), mode),
        call_ensures(ZActionServer::<A>::shutdown_token, (&server,), shutdown),
        call_ensures(ZActionServer::<A>::result_handler_token, (&server,), result_handler),
        call_ensures(ZActionServer::<A>::deadline_fits, (&server, now), fits),
        call_ensures(ZActionServer::<A>::has_free_flag, (&server,), free),
    ensures
        mode == server@.mode,
        shutdown == server@.shutdown.token,
        result_handler == server@.result_handler.token,
        fits <==> (server@.table.goal_timeout is Some ==> now.nanos
            + server@.table.goal_timeout->0.nanos <= u128::MAX),
        free <==> server@.table.next_flag < u64::MAX,
{
    crate::effects::goals_can_set_out(server@.table, now);
}

/// What can be read off a handle is what it holds, in each of its states.
pub proof fn handles_are_read_as_they_are<A: ZAction>(
    requested: RequestedGoal<A>,
    accepted: AcceptedGoal<A>,
    executing: ExecutingGoal<A>,
    server: ZActionServer<A>,
    goals: (&A::Goal, &A::Goal, &A::Goal),
    infos: (&GoalInfo, &GoalInfo, &GoalInfo),
    belongs: bool,
    reply: Option<GoalReply>,
)
    requires
        call_ensures(GoalHandle::<A, Requested>::goal, (&requested,), goals.0),
        call_ensures(GoalHandle::<A, Accepted>::goal, (&accepted,), goals.1),
        call_ensures(GoalHandle::<A, Executing>::goal, (&executing,), goals.2),
        call_ensures(GoalHandle::<A, Requested>::info, (&requested,), infos.0),
        call_ensures(GoalHandle::<A, Accepted>::info, (&accepted,), infos.1),
        call_ensures(GoalHandle::<A, Executing>::info, (&executing,), infos.2),
        call_ensures(GoalHandle::<A, Executing>::belongs_to, (&executing, &server), belongs),
        call_ensures(GoalHandle::<A, Requested>::accept_reply, (&requested,), reply),
    ensures
        *goals.0 == requested@.goal,
        *goals.1 == accepted@.goal,
        *goals.2 == executing@.goal,
        *infos.0 == requested@.info,
        *infos.1 == accepted@.info,
        *infos.2 == executing@.info,
        belongs <==> executing@.server == server@.shutdown.token,
        reply is Some <==> requested@.query is Some,
        reply is Some ==> reply->0.query == requested@.query->0 && reply->0.response.accepted
            && reply->0.response.stamp == requested@.info.stamp,
{
    crate::effects::handles_are_read_by_token_and_flag(executing@, server@, server@.table);
    crate::effects::replies_go_to_the_waiting_request(
        requested@,
        requested@.query,
        arbitrary(),
    );
}

/// A goal request that is handled starts its goal, as a turn of the driver on it does, and the client
/// can be answered beforehand with the same reply.
pub proof fn handled_goal_requests_start_their_goals<A: ZAction>(
    server: &mut ZActionServer<A>,
    request: GoalRequest<A>,
    query: QueryId,
    at: Reading,
    start: GoalStart<A>,
    sent: Option<GoalReply>,
    other: GoalId,
    flag: FlagId,
)
    requires
        old(server)@.table.deadline_fits(at.now),
        old(server)@.table.has_free_flag(),
        call_ensures(
            crate::driver::handle_goal_request::<A>,
            (server, request, query, at),
            start,
        ),
        call_ensures(
            DriverEvent::<A>::goal_reply,
            (&DriverEvent::Goal(Some((request, query))), at),
            sent,
        ),
    ensures
        ({
            let id = request.goal_id;
            let before = old(server)@.table;
            let after = final(server)@.table;
            &&& start.reply is Some && start.reply->0.query == query
                && start.reply->0.response.accepted && start.reply->0.response.stamp == at.stamp
            &&& sent == start.reply
            &&& start.goal@.goal == request.goal && start.goal@.info.goal_id == id
                && start.goal@.info.stamp == at.stamp
            &&& start.goal@.cancel_flag == Some(before.next_flag)
            &&& after.goals.contains_key(id) && after.goals[id] is Executing && cloned(
                request.goal,
                after.goals[id]->Executing_goal,
            )
            &&& after.goals[id]->cancel_flag == before.next_flag
            &&& after.next_flag == before.next_flag + 1
            &&& !after.raised.contains(before.next_flag)
            &&& flag != before.next_flag ==> (after.raised.contains(flag)
                <==> before.raised.contains(flag))
            &&& crate::effects::others_are_kept(before, after, id)
            &&& crate::laws::reports(start.accepted_status.status_list@, id, GoalStatus::Accepted)
            &&& crate::laws::reports(
                start.executing_status.status_list@,
                id,
                GoalStatus::Executing,
            )
            &&& other != id && before.goals.contains_key(other) ==> {
                &&& crate::effects::shows_state(
                    start.accepted_status.status_list@,
                    other,
                    before.goals[other],
                )
                &&& crate::effects::shows_state(
                    start.executing_status.status_list@,
                    other,
                    before.goals[other],
                )
            }
        }),
        settings_are_kept(old(server)@, final(server)@),
{
    crate::effects::goals_can_set_out(old(server)@.table, at.now);
    crate::effects::goal_request_starts_its_goal(
        old(server)@,
        final(server)@,
        request,
        query,
        at,
        start,
    );
    crate::effects::goal_requests_are_answered(request, query, DriverEvent::Shutdown, at);
}

/// A driver sets out just when its server is there, and a result handler always does.
pub proof fn loops_set_out(alive: bool, driver: Driver, handler: ResultHandler)
    requires
        call_ensures(Driver::new, (alive,), driver),
        call_ensures(ResultHandler::new, (), handler),
    ensures
        driver.running <==> alive,
        handler.running,
{
}

/// A builder starts with the name and the node that it is given, with no goal timeout and no
/// profiles, and results are kept for ten seconds.
pub proof fn builders_start_blank<'a, A: ZAction>(
    name: &str,
    node: &'a ZNode,
    builder: ZActionServerBuilder<'a, A>,
)
    requires
        call_ensures(ZActionServerBuilder::<'a, A>::new, (name, node), builder),
    ensures
        builder.action_name@ == name@,
        builder.node == node,
        builder.result_timeout.nanos == 10_000_000_000,
        builder.goal_timeout is None,
        builder.goal_service_qos is None,
        builder.result_service_qos is None,
        builder.cancel_service_qos is None,
        builder.feedback_topic_qos is None,
        builder.status_topic_qos is None,
{
}

/// The profile that is set for an endpoint is the one that the endpoint is asked for with, and every
/// other endpoint is asked for with what it would have been asked for.
pub proof fn set_profiles_are_asked_for<'a, A: ZAction>(
    builder: ZActionServerBuilder<'a, A>,
    qos: QosProfile,
    endpoint: Endpoint,
    set: ZActionServerBuilder<'a, A>,
    build: EndpointBuild<'a, A>,
    config: EndpointConfig,
    plain_build: EndpointBuild<'a, A>,
    plain_config: EndpointConfig,
)
    requires
        match endpoint {
            Endpoint::Goal => call_ensures(
                ZActionServerBuilder::<'a, A>::with_goal_service_qos,
                (builder, qos),
                set,
            ),
            Endpoint::Result => call_ensures(
                ZActionServerBuilder::<'a, A>::with_result_service_qos,
                (builder, qos),
                set,
            ),
            Endpoint::Cancel => call_ensures(
                ZActionServerBuilder::<'a, A>::with_cancel_service_qos,
                (builder, qos),
                set,
            ),
            Endpoint::Feedback => call_ensures(
                ZActionServerBuilder::<'a, A>::with_feedback_topic_qos,
                (builder, qos),
                set,
            ),
            Endpoint::Status => call_ensures(
                ZActionServerBuilder::<'a, A>::with_status_topic_qos,
                (builder, qos),
                set,
            ),
        },
        build@.builder == set,
        call_ensures(EndpointBuild::<'a, A>::endpoint, (&build,), config),
        plain_build@.builder == builder,
        plain_build@.next == build@.next,
        call_ensures(EndpointBuild::<'a, A>::endpoint, (&plain_build,), plain_config),
    ensures
        config.endpoint == build@.next,
        config.endpoint == endpoint ==> config.qos == Some(qos),
        config.endpoint != endpoint ==> config.qos == plain_config.qos,
        set.result_timeout == builder.result_timeout,
        set.goal_timeout == builder.goal_timeout,
        set.action_name == builder.action_name,
        set.node == builder.node,
{
    crate::effects::profiles_go_to_their_endpoints(builder, qos, build@.next);
}

/// The timeouts that are set on a builder are those of the server that comes of it, and nothing else
/// is set along with them.
pub proof fn set_timeouts_are_built_in<'a, A: ZAction, E>(
    builder: ZActionServerBuilder<'a, A>,
    result_timeout: Duration,
    goal_timeout: Duration,
    timed: ZActionServerBuilder<'a, A>,
    set: ZActionServerBuilder<'a, A>,
    build: EndpointBuild<'a, A>,
    outcome: Result<BuildProgress<'a, A>, BuildError<E>>,
)
    requires
        call_ensures(
            ZActionServerBuilder::<'a, A>::result_timeout,
            (builder, result_timeout),
            timed,
        ) || call_ensures(
            ZActionServerBuilder::<'a, A>::with_result_timeout,
            (builder, result_timeout),
            timed,
        ),
        call_ensures(ZActionServerBuilder::<'a, A>::goal_timeout, (timed, goal_timeout), set),
        build@.builder == set,
        build@.next == Endpoint::Status,
        call_ensures(EndpointBuild::<'a, A>::created::<E>, (build, Ok(())), outcome),
    ensures
        outcome is Ok,
        outcome->Ok_0 is Built,
        outcome->Ok_0->Built_0@.table.result_timeout == result_timeout,
        outcome->Ok_0->Built_0@.table.goal_timeout == Some(goal_timeout),
        outcome->Ok_0->Built_0@.mode == ServerMode::Manual,
        !outcome->Ok_0->Built_0@.shutdown.canceled,
        !outcome->Ok_0->Built_0@.result_handler.canceled,
        outcome->Ok_0->Built_0@.shutdown.token != outcome->Ok_0->Built_0@.result_handler.token,
        forall|id: GoalId| !#[trigger] outcome->Ok_0->Built_0@.table.goals.contains_key(id),
        timed.goal_timeout == builder.goal_timeout,
        set.action_name == builder.action_name,
        set.node == builder.node,
        set.goal_service_qos == builder.goal_service_qos,
        set.result_service_qos == builder.result_service_qos,
        set.cancel_service_qos == builder.cancel_service_qos,
        set.feedback_topic_qos == builder.feedback_topic_qos,
        set.status_topic_qos == builder.status_topic_qos,
{
    crate::effects::refusals_end_the_build::<E>(Endpoint::Status, arbitrary());
    crate::effects::new_servers_are_blank(
        outcome->Ok_0->Built_0@,
        result_timeout,
        Some(goal_timeout),
    );
}

/// A build sets out just when the remapped name is not empty, and goes on just when that name could
/// be qualified: then with the goal service, under the qualified name and with the same settings.
pub proof fn builds_go_by_the_names<'a, A: ZAction, E>(
    builder: ZActionServerBuilder<'a, A>,
    remapped: String,
    named: Result<NamedBuild<'a, A>, BuildError<E>>,
    qualified: Result<String, E>,
    outcome: Result<EndpointBuild<'a, A>, BuildError<E>>,
    config: EndpointConfig,
)
    requires
        call_ensures(
            ZActionServerBuilder::<'a, A>::build::<E>,
            (builder, remapped),
            named,
        ),
        named is Ok ==> call_ensures(
            NamedBuild::<'a, A>::qualified::<E>,
            (named->Ok_0, qualified),
            outcome,
        ),
        outcome is Ok ==> call_ensures(
            EndpointBuild::<'a, A>::endpoint,
            (&outcome->Ok_0,),
            config,
        ),
    ensures
        named is Err <==> remapped@.len() == 0,
        named is Err ==> named->Err_0 is EmptyActionName,
        named is Ok ==> named->Ok_0@.action_name == remapped@ && named->Ok_0@.builder == builder,
        named is Ok ==> (outcome is Ok <==> qualified is Ok),
        named is Ok && qualified is Err ==> outcome->Err_0 == BuildError::Node(qualified->Err_0),
        named is Ok && qualified is Ok ==> outcome->Ok_0@.builder == builder,
        named is Ok && qualified is Ok ==> config.endpoint == Endpoint::Goal,
        named is Ok && qualified is Ok ==> config.name@ == qualified->Ok_0@
            + "/_action/send_goal"@,
        named is Ok && qualified is Ok ==> config.qos == builder.goal_service_qos,
        named is Ok && qualified is Ok ==> config.type_info is None,
        named is Ok && qualified is Ok ==> config.with_attachment is None,
{
    if named is Ok && qualified is Ok {
        crate::effects::endpoints_are_named_as_clients_expect(
            qualified->Ok_0@,
            Seq::empty(),
        );
    }
}

/// Each endpoint is asked for under the name of the action and its own suffix. Feedback alone is
/// announced with a type, and the topics alone go without attachments.
pub proof fn endpoints_are_asked_for_by_convention<'a, A: ZAction>(
    build: EndpointBuild<'a, A>,
    config: EndpointConfig,
)
    requires
        call_ensures(EndpointBuild::<'a, A>::endpoint, (&build,), config),
    ensures
        config.endpoint == build@.next,
        config.name@ == build@.action_name + match build@.next {
            Endpoint::Goal => "/_action/send_goal"@,
            Endpoint::Result => "/_action/get_result"@,
            Endpoint::Cancel => "/_action/cancel_goal"@,
            Endpoint::Feedback => "/_action/feedback"@,
            Endpoint::Status => "/_action/status"@,
        },
        config.type_info is Some <==> build@.next == Endpoint::Feedback,
        config.type_info is Some ==> exists|action_type: String| #[trigger]
            call_ensures(A::name, (), action_type) && config.type_info->0.name@ == action_type@
                + "/_FeedbackMessage"@,
        config.type_info is Some ==> forall|i: int|
            0 <= i < 32 ==> #[trigger] config.type_info->0.hash.value@[i] == 0,
        build@.next == Endpoint::Feedback || build@.next == Endpoint::Status
            ==> config.with_attachment == Some(false),
        build@.next == Endpoint::Goal || build@.next == Endpoint::Result || build@.next
            == Endpoint::Cancel ==> config.with_attachment is None,
{
    crate::effects::endpoints_are_named_as_clients_expect(build@.action_name, Seq::empty());
}

/// An endpoint that the node refuses ends the build with the error of the node. One that it creates
/// leads to the next, with the same name and settings, and the last leads to the server.
pub proof fn endpoints_are_created_one_by_one<'a, A: ZAction, E>(
    build: EndpointBuild<'a, A>,
    created: Result<(), E>,
    outcome: Result<BuildProgress<'a, A>, BuildError<E>>,
)
    requires
        call_ensures(EndpointBuild::<'a, A>::created::<E>, (build, created), outcome),
    ensures
        outcome is Err <==> created is Err,
        created is Err ==> outcome->Err_0 == BuildError::Node(created->Err_0),
        created is Ok ==> (outcome->Ok_0 is Built <==> build@.next == Endpoint::Status),
        created is Ok && build@.next != Endpoint::Status ==> {
            let next = outcome->Ok_0->Creating_0@;
            &&& next.action_name == build@.action_name
            &&& next.builder == build@.builder
            &&& next.next == match build@.next {
                Endpoint::Goal => Endpoint::Result,
                Endpoint::Result => Endpoint::Cancel,
                Endpoint::Cancel => Endpoint::Feedback,
                _ => Endpoint::Status,
            }
        },
{
    if created is Err {
        crate::effects::refusals_end_the_build(build@.next, created->Err_0);
    } else {
        crate::effects::refusals_end_the_build::<E>(build@.next, arbitrary());
    }
    crate::effects::services_come_before_topics(build@.next);
}

/// A state has expired just when it is that of a terminated goal and its end and the maximum age
/// together lie before now.
pub proof fn states_expire_by_age<A: ZAction>(
    state: ServerGoalState<A>,
    now: Instant,
    max_age: Duration,
    expired: bool,
)
    requires
        call_ensures(ServerGoalState::<A>::has_expired, (&state, now, max_age), expired),
    ensures
        !(state is Terminated) ==> !expired,
        state is Terminated ==> (expired <==> now.nanos > state->Terminated_timestamp.nanos
            + max_age.nanos),
{
}

/// Names are made by appending, whatever the name of the action.
pub proof fn names_are_made_by_appending(
    action: &str,
    endpoint: Endpoint,
    name: String,
    feedback_type: String,
    next: Option<Endpoint>,
)
    requires
        call_ensures(crate::naming::endpoint_name, (action, endpoint), name),
        call_ensures(crate::naming::feedback_type_name, (action,), feedback_type),
        call_ensures(Endpoint::following, (endpoint,), next),
    ensures
        name@ == action@ + match endpoint {
            Endpoint::Goal => "/_action/send_goal"@,
            Endpoint::Result => "/_action/get_result"@,
            Endpoint::Cancel => "/_action/cancel_goal"@,
            Endpoint::Feedback => "/_action/feedback"@,
            Endpoint::Status => "/_action/status"@,
        },
        feedback_type@ == action@ + "/_FeedbackMessage"@,
        next is None <==> endpoint == Endpoint::Status,
        next is Some ==> next->0 == match endpoint {
            Endpoint::Goal => Endpoint::Result,
            Endpoint::Result => Endpoint::Cancel,
            Endpoint::Cancel => Endpoint::Feedback,
            _ => Endpoint::Status,
        },
{
    crate::effects::endpoints_are_named_as_clients_expect(action@, action@);
    crate::effects::services_come_before_topics(endpoint);
}

/// Clock arithmetic is that of nanoseconds: to go ahead by a span and to look back gives the span.
pub proof fn clocks_count_nanoseconds(
    secs: u64,
    span: Duration,
    start: Instant,
    fits: bool,
    end: Instant,
    back: Duration,
    ahead: Duration,
)
    requires
        call_ensures(Duration::from_secs, (secs,), span),
        call_ensures(Instant::has_room_for, (start, span), fits),
        call_ensures(Instant::after, (start, span), end),
        call_ensures(Instant::duration_since, (end, start), back),
        call_ensures(Instant::duration_since, (start, end), ahead),
    ensures
        span.nanos == secs * 1_000_000_000,
        fits <==> start.nanos + span.nanos <= u128::MAX,
        end.nanos == start.nanos + span.nanos,
        back.nanos == span.nanos,
        ahead.nanos == 0,
{
}

} // verus!
