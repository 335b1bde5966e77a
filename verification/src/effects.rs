//! What each operation does, told by what can be read off before and after it.

use vstd::prelude::*;
use vstd::string::*;

use crate::action::{GoalId, GoalInfo, GoalStatus, QosProfile, ZAction};
use crate::builder::{CreationStep, ZActionServerBuilder};
use crate::driver::{
    Driver, DriverAction, DriverEvent, GoalStart, ResultHandler, ResultHandlerEvent,
};
use crate::laws::{DriverTurn, Transition};
use crate::messages::{
    CancelGoalRequest, CancelGoalResponse, GoalRequest, GoalResponse, GoalStatusInfo,
    ResultRequest, ResultResponse,
};
use crate::naming::Endpoint;
use crate::server::{GoalReply, HandleView, QueryId, ServerMode, ServerView};
use crate::state::{FlagId, GoalTable, ServerGoalState};
use crate::time::{Duration, Instant, Reading};

verus! {

/// Tells whether every goal but the given one is known just as before, in the same state.
pub open spec fn others_are_kept<A: ZAction>(
    before: GoalTable<A>,
    after: GoalTable<A>,
    goal_id: GoalId,
) -> bool {
    forall|id: GoalId|
        id != goal_id ==> {
            &&& #[trigger] after.goals.contains_key(id) <==> before.goals.contains_key(id)
            &&& before.goals.contains_key(id) ==> after.goals[id] == before.goals[id]
        }
}

/// Tells whether the timeouts are as before.
pub open spec fn timeouts_are_same<A: ZAction>(
    before: GoalTable<A>,
    after: GoalTable<A>,
) -> bool {
    after.result_timeout == before.result_timeout && after.goal_timeout == before.goal_timeout
}

/// Tells whether `deadline` lies `timeout` after `now`, or is missing where there is no timeout.
pub open spec fn is_deadline(
    deadline: Option<Instant>,
    now: Instant,
    timeout: Option<Duration>,
) -> bool {
    match timeout {
        Some(timeout) => deadline matches Some(end) && end.nanos == now.nanos + timeout.nanos,
        None => deadline is None,
    }
}

/// Time is counted in nanoseconds. What has elapsed leads from the earlier point to the later one,
/// and nothing has elapsed before a point is reached. A point can be moved ahead just as far as the
/// clock reaches, and what has then elapsed is what it was moved by.
pub proof fn time_adds_up(now: Instant, earlier: Instant, span: Duration)
    ensures
        earlier.nanos <= now.nanos ==> earlier.nanos + Instant::elapsed(now, earlier) == now.nanos,
        now.nanos <= earlier.nanos ==> Instant::elapsed(now, earlier) == 0,
        now.can_add(span) <==> now.nanos + span.nanos <= u128::MAX,
        now.can_add(span) ==> now.plus(span).nanos == now.nanos + span.nanos,
        now.can_add(span) ==> Instant::elapsed(now.plus(span), now) == span.nanos,
        now@ == now.nanos,
        span@ == span.nanos,
{
}

/// A goal can set out at any time at which its deadline is within what the clock can count, and
/// always where goals have no timeout; it can be executed until all flags are used up.
pub proof fn goals_can_set_out<A: ZAction>(table: GoalTable<A>, now: Instant)
    ensures
        table.goal_timeout is None ==> table.deadline_fits(now),
        table.goal_timeout is Some ==> (table.deadline_fits(now) <==> now.nanos
            + table.goal_timeout->0.nanos <= u128::MAX),
        table.has_free_flag() <==> table.next_flag < u64::MAX,
        table.deadline_fits(now) ==> is_deadline(table.deadline(now), now, table.goal_timeout),
{
}

/// A new server knows no goal, has raised no flag, hands out flags from the first on, has the given
/// timeouts, is in manual mode, and has two live tokens that are apart.
pub proof fn new_servers_are_blank<A: ZAction>(
    server: ServerView<A>,
    result_timeout: Duration,
    goal_timeout: Option<Duration>,
)
    requires
        server.is_new(result_timeout, goal_timeout),
    ensures
        forall|id: GoalId| !#[trigger] server.table.goals.contains_key(id),
        forall|flag: FlagId| !#[trigger] server.table.raised.contains(flag),
        server.table.next_flag == 0,
        server.table.result_timeout == result_timeout,
        server.table.goal_timeout == goal_timeout,
        server.mode == ServerMode::Manual,
        !server.shutdown.canceled,
        !server.result_handler.canceled,
        server.shutdown.token != server.result_handler.token,
{
}

/// To replace the goals of a server leaves its mode and its tokens alone.
pub proof fn goals_are_replaced_alone<A: ZAction>(server: ServerView<A>, table: GoalTable<A>)
    ensures
        server.with_table(table).table == table,
        server.with_table(table).mode == server.mode,
        server.with_table(table).shutdown == server.shutdown,
        server.with_table(table).result_handler == server.result_handler,
{
}

/// To accept a goal makes it known as accepted at that time, with a clone of its data and with the
/// deadline that its timeout gives it, and changes nothing else.
pub proof fn acceptance_registers_the_goal<A: ZAction>(
    before: GoalTable<A>,
    after: GoalTable<A>,
    goal_id: GoalId,
    goal: A::Goal,
    now: Instant,
)
    requires
        before.goal_timeout is Some ==> now.nanos + before.goal_timeout->0.nanos <= u128::MAX,
        crate::server::accepted(before, after, goal_id, goal, now),
    ensures
        after.goals.contains_key(goal_id),
        after.goals[goal_id] is Accepted,
        cloned(goal, after.goals[goal_id]->Accepted_goal),
        after.goals[goal_id]->Accepted_timestamp == now,
        is_deadline(after.goals[goal_id]->Accepted_expires_at, now, before.goal_timeout),
        others_are_kept(before, after, goal_id),
        after.raised == before.raised,
        after.next_flag == before.next_flag,
        timeouts_are_same(before, after),
{
}

/// To execute a goal sets it running, with a clone of its data, with the next flag, which is down,
/// and with the deadline that its timeout gives it. Every other goal and every other flag is as it
/// was, and the flag is used up.
pub proof fn execution_sets_the_goal_running<A: ZAction>(
    before: GoalTable<A>,
    after: GoalTable<A>,
    goal_id: GoalId,
    goal: A::Goal,
    now: Instant,
)
    requires
        before.goal_timeout is Some ==> now.nanos + before.goal_timeout->0.nanos <= u128::MAX,
        before.next_flag < u64::MAX,
        crate::server::executed(before, after, goal_id, goal, now),
    ensures
        after.goals.contains_key(goal_id),
        after.goals[goal_id] is Executing,
        cloned(goal, after.goals[goal_id]->Executing_goal),
        after.goals[goal_id]->cancel_flag == before.next_flag,
        is_deadline(after.goals[goal_id]->Executing_expires_at, now, before.goal_timeout),
        others_are_kept(before, after, goal_id),
        !after.raised.contains(before.next_flag),
        forall|flag: FlagId|
            flag != before.next_flag ==> (#[trigger] after.raised.contains(flag)
                <==> before.raised.contains(flag)),
        after.next_flag == before.next_flag + 1,
        timeouts_are_same(before, after),
{
}

/// To terminate a goal leaves its result, its status and the time of its end, and gives up the flag
/// of the execution. Every other goal and every other flag is as it was.
pub proof fn termination_leaves_the_result<A: ZAction>(
    table: GoalTable<A>,
    goal_id: GoalId,
    cancel_flag: Option<FlagId>,
    result: A::Result,
    status: GoalStatus,
    now: Instant,
)
    ensures
        ({
            let after = table.after_terminate(goal_id, cancel_flag, result, status, now);
            &&& after.goals.contains_key(goal_id)
            &&& after.goals[goal_id] is Terminated
            &&& after.goals[goal_id]->result == result
            &&& after.goals[goal_id]->status == status
            &&& after.goals[goal_id]->Terminated_timestamp == now
            &&& others_are_kept(table, after, goal_id)
            &&& forall|flag: FlagId| #[trigger]
                after.raised.contains(flag) <==> table.raised.contains(flag) && cancel_flag != Some(
                    flag,
                )
            &&& after.next_flag == table.next_flag
            &&& timeouts_are_same(table, after)
        }),
{
}

/// A goal runs if it is known and was executed last; in no other state does it run.
pub proof fn running_goals_are_those_executed<A: ZAction>(table: GoalTable<A>, goal_id: GoalId)
    ensures
        !table.goals.contains_key(goal_id) ==> !table.is_executing(goal_id),
        table.goals.contains_key(goal_id) ==> match table.goals[goal_id] {
            ServerGoalState::Executing { .. } => table.is_executing(goal_id),
            ServerGoalState::Accepted { .. } => !table.is_executing(goal_id),
            ServerGoalState::Canceling { .. } => !table.is_executing(goal_id),
            ServerGoalState::Terminated { .. } => !table.is_executing(goal_id),
        },
{
}

/// A cancel request raises the flag of the goal that it names, if that goal runs, and no other flag.
/// It changes nothing else.
pub proof fn cancel_raises_one_flag<A: ZAction>(table: GoalTable<A>, goal_id: GoalId)
    ensures
        ({
            let after = table.after_cancel(goal_id);
            let runs = table.goals.contains_key(goal_id) && table.goals[goal_id] is Executing;
            &&& runs ==> after.raised.contains(table.goals[goal_id]->cancel_flag)
            &&& forall|flag: FlagId|
                !(runs && flag == table.goals[goal_id]->cancel_flag) ==> (
                #[trigger] after.raised.contains(flag) <==> table.raised.contains(flag))
            &&& after.goals == table.goals
            &&& after.next_flag == table.next_flag
            &&& timeouts_are_same(table, after)
        }),
{
}

/// Running goals have flags of their own that were handed out, and a terminated goal succeeded, was
/// aborted or was canceled.
pub proof fn sound_tables_keep_goals_apart<A: ZAction>(table: GoalTable<A>)
    requires
        table.is_sound(),
    ensures
        forall|flag: FlagId| #[trigger] table.raised.contains(flag) ==> flag < table.next_flag,
        forall|id: GoalId| #[trigger]
            table.goals.contains_key(id) ==> {
                &&& table.goals[id] is Executing ==> table.goals[id]->cancel_flag < table.next_flag
                &&& table.goals[id] is Terminated ==> table.goals[id]->status
                    == GoalStatus::Succeeded || table.goals[id]->status == GoalStatus::Aborted
                    || table.goals[id]->status == GoalStatus::Canceled
            },
        forall|id: GoalId, other: GoalId|
            id != other && #[trigger] table.goals.contains_key(id)
                && #[trigger] table.goals.contains_key(other) && table.goals[id] is Executing
                && table.goals[other] is Executing ==> table.goals[id]->cancel_flag
                != table.goals[other]->cancel_flag,
{
    assert forall|id: GoalId| #[trigger] table.goals.contains_key(id) implies {
        &&& table.goals[id] is Executing ==> table.goals[id]->cancel_flag < table.next_flag
        &&& table.goals[id] is Terminated ==> table.goals[id].spec_status().is_terminal()
    } by {
        assert(table.is_executing(id) == (table.goals[id] is Executing));
    }
    assert forall|id: GoalId, other: GoalId|
        id != other && #[trigger] table.goals.contains_key(id)
            && #[trigger] table.goals.contains_key(other) && table.goals[id] is Executing
            && table.goals[other] is Executing implies table.goals[id]->cancel_flag
        != table.goals[other]->cancel_flag by {
        assert(table.is_executing(id) && table.is_executing(other));
    }
}

/// A goal has expired just when it was terminated and its end and the maximum age together lie
/// before now. No other goal expires, whatever its age.
pub proof fn expiry_goes_by_age<A: ZAction>(
    table: GoalTable<A>,
    goal_id: GoalId,
    now: Instant,
    max_age: Duration,
)
    ensures
        !table.goals.contains_key(goal_id) ==> !table.has_expired(goal_id, now, max_age),
        table.goals.contains_key(goal_id) ==> match table.goals[goal_id] {
            ServerGoalState::Terminated { timestamp, .. } => {
                table.has_expired(goal_id, now, max_age) <==> timestamp.nanos + max_age.nanos
                    < now.nanos
            },
            _ => !table.has_expired(goal_id, now, max_age),
        },
{
}

/// Expiry forgets the goals that have expired, and those alone. It changes no goal that stays and
/// nothing else.
pub proof fn expiry_forgets_the_expired<A: ZAction>(
    table: GoalTable<A>,
    now: Instant,
    max_age: Duration,
)
    ensures
        ({
            let after = table.after_expire(now, max_age);
            &&& forall|id: GoalId| #[trigger]
                after.goals.contains_key(id) ==> table.goals.contains_key(id) && after.goals[id]
                    == table.goals[id]
            &&& forall|id: GoalId| #[trigger]
                table.goals.contains_key(id) ==> (after.goals.contains_key(id) <==> !(
                table.goals[id] is Terminated && table.goals[id]->Terminated_timestamp.nanos
                    + max_age.nanos < now.nanos))
            &&& after.raised == table.raised
            &&& after.next_flag == table.next_flag
            &&& timeouts_are_same(table, after)
        }),
{
    assert forall|id: GoalId| #[trigger] table.goals.contains_key(id) implies (table.after_expire(
        now,
        max_age,
    ).goals.contains_key(id) <==> !table.has_expired(id, now, max_age)) by {}
}

/// A goal that was terminated is forgotten by every expiry that finds it older than the maximum age,
/// and by no other. Operations on other goals make no difference, as long as they do not expire it.
pub proof fn terminated_goals_expire_by_age<A: ZAction>(
    table: GoalTable<A>,
    goal_id: GoalId,
    cancel_flag: Option<FlagId>,
    result: A::Result,
    status: GoalStatus,
    ended: Instant,
    later: Seq<Transition<A>>,
    now: Instant,
    max_age: Duration,
)
    requires
        forall|i: int|
            0 <= i < later.len() ==> !(#[trigger] later[i]).writes(goal_id) && (
            later[i] matches Transition::Expire { now: then, max_age: age } ==> then.nanos
                <= ended.nanos + age.nanos),
    ensures
        ({
            let terminated = table.after_terminate(goal_id, cancel_flag, result, status, ended);
            let kept = crate::laws::apply_all(terminated, later);
            &&& kept.has_expired(goal_id, now, max_age) <==> now.nanos > ended.nanos
                + max_age.nanos
            &&& kept.after_expire(now, max_age).goals.contains_key(goal_id) <==> now.nanos
                <= ended.nanos + max_age.nanos
        }),
{
    let terminated = table.after_terminate(goal_id, cancel_flag, result, status, ended);
    assert forall|i: int| 0 <= i < later.len() implies !(#[trigger] later[i]).writes(goal_id) && (
    later[i] matches Transition::Expire { now: then, max_age: age } ==> Instant::elapsed(
        then,
        ended,
    ) <= age@) by {}
    crate::laws::terminated_state_stays(terminated, goal_id, result, status, ended, later);
    let kept = crate::laws::apply_all(terminated, later);
    expiry_goes_by_age(kept, goal_id, now, max_age);
    expiry_forgets_the_expired(kept, now, max_age);
}

/// A status message has one entry for each goal that the server knows and no other entry. Each entry
/// has the stamp, and the status of the goal's own state, whatever other goals there are.
pub proof fn status_shows_each_state<A: ZAction>(
    table: GoalTable<A>,
    list: Seq<GoalStatusInfo>,
    stamp: i64,
)
    requires
        table.is_reported_by(list, stamp),
    ensures
        forall|i: int|
            0 <= i < list.len() ==> {
                let entry = #[trigger] list[i];
                let id = entry.goal_info.goal_id;
                &&& entry.goal_info.stamp == stamp
                &&& table.goals.contains_key(id)
                &&& match table.goals[id] {
                    ServerGoalState::Accepted { .. } => entry.status == GoalStatus::Accepted,
                    ServerGoalState::Executing { .. } => entry.status == GoalStatus::Executing,
                    ServerGoalState::Canceling { .. } => entry.status == GoalStatus::Canceling,
                    ServerGoalState::Terminated { status, .. } => entry.status == status,
                }
            },
        forall|id: GoalId| #[trigger]
            table.goals.contains_key(id) ==> exists|i: int|
                0 <= i < list.len() && (#[trigger] list[i]).goal_info.goal_id == id,
        forall|i: int, j: int|
            0 <= i < list.len() && 0 <= j < list.len() && (#[trigger] list[i]).goal_info.goal_id
                == (#[trigger] list[j]).goal_info.goal_id ==> i == j,
{
}

/// A status message shows a goal as its own last transition left it, however much happened to other
/// goals since, and whatever the timeouts: accepted, executing, or terminated with its status, the
/// last as long as it is not expired.
pub proof fn status_shows_the_last_transition<A: ZAction>(
    table: GoalTable<A>,
    goal_id: GoalId,
    goal: A::Goal,
    cancel_flag: Option<FlagId>,
    result: A::Result,
    status: GoalStatus,
    then: Instant,
    later: Seq<Transition<A>>,
    list: Seq<GoalStatusInfo>,
    stamp: i64,
)
    requires
        crate::laws::no_writes(later, goal_id),
    ensures
        crate::laws::apply_all(table.after_accept(goal_id, goal, then), later).is_reported_by(
            list,
            stamp,
        ) ==> crate::laws::reports(list, goal_id, GoalStatus::Accepted),
        crate::laws::apply_all(table.after_execute(goal_id, goal, then), later).is_reported_by(
            list,
            stamp,
        ) ==> crate::laws::reports(list, goal_id, GoalStatus::Executing),
        crate::laws::apply_all(
            table.after_terminate(goal_id, cancel_flag, result, status, then),
            later,
        ).is_reported_by(list, stamp) && (forall|i: int|
            0 <= i < later.len() ==> (#[trigger] later[i] matches Transition::Expire {
                now,
                max_age,
            } ==> now.nanos <= then.nanos + max_age.nanos)) ==> crate::laws::reports(list, goal_id, status),
{
    let accepted = table.after_accept(goal_id, goal, then);
    unfinished_state_stays(accepted, goal_id, later);
    let executing = table.after_execute(goal_id, goal, then);
    unfinished_state_stays(executing, goal_id, later);
    let terminated = table.after_terminate(goal_id, cancel_flag, result, status, then);
    if forall|i: int|
        0 <= i < later.len() ==> (#[trigger] later[i] matches Transition::Expire {
            now,
            max_age,
        } ==> now.nanos <= then.nanos + max_age.nanos) {
        assert forall|i: int| 0 <= i < later.len() implies !(#[trigger] later[i]).writes(goal_id)
            && (later[i] matches Transition::Expire { now, max_age } ==> Instant::elapsed(
            now,
            then,
        ) <= max_age@) by {}
        crate::laws::terminated_state_stays(terminated, goal_id, result, status, then, later);
    }
}

proof fn unfinished_state_stays<A: ZAction>(
    table: GoalTable<A>,
    goal_id: GoalId,
    later: Seq<Transition<A>>,
)
    requires
        table.goals.contains_key(goal_id),
        !(table.goals[goal_id] is Terminated),
        crate::laws::no_writes(later, goal_id),
    ensures
        crate::laws::apply_all(table, later).goals.contains_key(goal_id),
        crate::laws::apply_all(table, later).goals[goal_id] == table.goals[goal_id],
    decreases later.len(),
{
    if later.len() > 0 {
        let front = later.drop_last();
        assert forall|i: int| 0 <= i < front.len() implies !(#[trigger] front[i]).writes(
            goal_id,
        ) by {
            assert(front[i] == later[i]);
        }
        unfinished_state_stays(table, goal_id, front);
        assert(later[later.len() - 1] == later.last());
        crate::laws::other_goals_are_untouched(
            crate::laws::apply_all(table, front),
            later.last(),
            goal_id,
        );
    }
}

/// A result request is answered just when the goal it names is known and terminated, with the status
/// and a clone of the result that the goal was terminated with.
pub proof fn results_are_those_of_terminated_goals<A: ZAction>(
    table: GoalTable<A>,
    goal_id: GoalId,
    response: Option<ResultResponse<A>>,
)
    requires
        table.answers(goal_id, response),
    ensures
        !table.goals.contains_key(goal_id) ==> response is None,
        table.goals.contains_key(goal_id) ==> match table.goals[goal_id] {
            ServerGoalState::Terminated { result, status, .. } => {
                &&& response is Some
                &&& response->0.status == status
                &&& cloned(result, response->0.result)
            },
            _ => response is None,
        },
{
}

/// What a handle holds in each state of its goal: the goal and the id that the client sent, the
/// stamp of the receipt, the server, the request until it is answered, and a flag once the goal
/// runs.
pub proof fn handles_hold_what_was_received<A: ZAction>(
    request: GoalRequest<A>,
    query: QueryId,
    stamp: i64,
    server: ServerView<A>,
    flag: FlagId,
)
    ensures
        ({
            let requested = HandleView::received(request, query, stamp, server);
            let accepted = requested.accepted();
            let executing = accepted.executing(flag);
            &&& requested.goal == request.goal && accepted.goal == request.goal && executing.goal
                == request.goal
            &&& requested.info == GoalInfo { goal_id: request.goal_id, stamp }
            &&& accepted.info == requested.info && executing.info == requested.info
            &&& requested.server == server.shutdown.token && accepted.server
                == server.shutdown.token && executing.server == server.shutdown.token
            &&& requested.query == Some(query) && accepted.query is None && executing.query is None
            &&& requested.cancel_flag is None && accepted.cancel_flag is None
            &&& executing.cancel_flag == Some(flag)
        }),
{
}

/// To accept or execute a goal changes in its handle the request and the flag alone.
pub proof fn handles_change_only_so_far<A: ZAction>(handle: HandleView<A>, flag: FlagId)
    ensures
        handle.accepted().goal == handle.goal,
        handle.accepted().info == handle.info,
        handle.accepted().server == handle.server,
        handle.accepted().query is None,
        handle.accepted().cancel_flag is None,
        handle.executing(flag).goal == handle.goal,
        handle.executing(flag).info == handle.info,
        handle.executing(flag).server == handle.server,
        handle.executing(flag).query is None,
        handle.executing(flag).cancel_flag == Some(flag),
{
}

/// A goal belongs to the server whose shutdown token it carries, and is to be canceled just when its
/// flag is up.
pub proof fn handles_are_read_by_token_and_flag<A: ZAction>(
    handle: HandleView<A>,
    server: ServerView<A>,
    table: GoalTable<A>,
)
    ensures
        handle.belongs_to(server) <==> handle.server == server.shutdown.token,
        handle.cancel_flag is None ==> !handle.is_cancel_requested(table),
        handle.cancel_flag is Some ==> (handle.is_cancel_requested(table)
            <==> table.raised.contains(handle.cancel_flag->0)),
{
}

/// A client is answered just when its request waits, under the query of that request and with the
/// response that is meant for it: for an accepted goal, that it is accepted and when it was stamped.
pub proof fn replies_go_to_the_waiting_request<A: ZAction>(
    handle: HandleView<A>,
    query: Option<QueryId>,
    response: GoalResponse,
)
    ensures
        crate::server::reply_to(query, response) is Some <==> query is Some,
        query is Some ==> crate::server::reply_to(query, response)->0.query == query->0,
        query is Some ==> crate::server::reply_to(query, response)->0.response == response,
        handle.accept_reply() is Some <==> handle.query is Some,
        handle.query is Some ==> handle.accept_reply()->0.query == handle.query->0,
        handle.query is Some ==> handle.accept_reply()->0.response.accepted,
        handle.query is Some ==> handle.accept_reply()->0.response.stamp == handle.info.stamp,
{
}

/// While no shutdown is under way a driver deals next with the very event that waits, whatever its
/// kind, and with none if none waits. Once a shutdown is under way it deals with that.
pub proof fn waiting_events_are_dealt_with_next<A: ZAction>(
    event: DriverEvent<A>,
    waiting: Option<DriverEvent<A>>,
)
    ensures
        crate::driver::spec_next_event(false, Some(event)) == Some(event),
        crate::driver::spec_next_event::<A>(false, None) is None,
        crate::driver::spec_next_event(true, waiting) == Some(DriverEvent::<A>::Shutdown),
{
}

/// Every request that is received while no shutdown is under way is served by the driver: a goal is
/// started under its id and its query, a cancel or result request is answered. `shutdowns[i]` and
/// `received[i]` are what the loop finds when it sets out on turn `i`, which deals with the event
/// that comes next, if one does.
pub proof fn received_requests_are_served<A: ZAction>(
    shutdowns: Seq<bool>,
    received: Seq<DriverEvent<A>>,
    turns: Seq<DriverTurn<A>>,
)
    requires
        crate::laws::is_driver_run(turns),
        shutdowns.len() == turns.len(),
        received.len() == turns.len(),
        forall|i: int|
            0 <= i < turns.len() ==> (crate::driver::spec_next_event(
                #[trigger] shutdowns[i],
                Some(received[i]),
            ) matches Some(next) ==> turns[i].event == next),
        forall|i: int|
            0 <= i < turns.len() ==> !#[trigger] shutdowns[i] && !(received[i] is Shutdown),
    ensures
        forall|i: int|
            0 <= i < turns.len() ==> match #[trigger] received[i] {
                DriverEvent::Goal(Some((request, query))) => {
                    &&& turns[i].action is Start
                    &&& turns[i].action->Start_0.goal@.info.goal_id == request.goal_id
                    &&& turns[i].action->Start_0.goal@.goal == request.goal
                    &&& turns[i].action->Start_0.reply is Some
                    &&& turns[i].action->Start_0.reply->0.query == query
                },
                DriverEvent::Cancel(Some(_)) => turns[i].action is ReplyCancel,
                DriverEvent::Result(Some(_)) => turns[i].action is ReplyResult,
                _ => turns[i].action is Wait,
            },
{
    crate::laws::driver_runs_until_shutdown(turns);
    assert forall|i: int| 0 <= i < turns.len() implies turns[i].before.running && (
    #[trigger] turns[i]).event == received[i] by {
        assert(!shutdowns[i]);
        assert(!crate::laws::shut_down_within(turns, i)) by {
            assert forall|j: int| 0 <= j < i implies !((#[trigger] turns[j]).event is Shutdown) by {
                assert(!shutdowns[j]);
            }
        }
    }
    assert forall|i: int| 0 <= i < turns.len() implies match #[trigger] received[i] {
        DriverEvent::Goal(Some((request, query))) => {
            &&& turns[i].action is Start
            &&& turns[i].action->Start_0.goal@.info.goal_id == request.goal_id
            &&& turns[i].action->Start_0.goal@.goal == request.goal
            &&& turns[i].action->Start_0.reply is Some
            &&& turns[i].action->Start_0.reply->0.query == query
        },
        DriverEvent::Cancel(Some(_)) => turns[i].action is ReplyCancel,
        DriverEvent::Result(Some(_)) => turns[i].action is ReplyResult,
        _ => turns[i].action is Wait,
    } by {
        assert(!shutdowns[i]);
        assert(turns[i].is_taken());
    }
}

/// A goal request is answered under its own query, and no other event is answered so.
pub proof fn goal_requests_are_answered<A: ZAction>(
    request: GoalRequest<A>,
    query: QueryId,
    other: DriverEvent<A>,
    at: Reading,
)
    ensures
        DriverEvent::Goal(Some((request, query))).brings_goal(),
        DriverEvent::Goal(Some((request, query))).spec_goal_reply(at) is Some,
        DriverEvent::Goal(Some((request, query))).spec_goal_reply(at)->0.query == query,
        DriverEvent::Goal(Some((request, query))).spec_goal_reply(at)->0.response.accepted,
        DriverEvent::Goal(Some((request, query))).spec_goal_reply(at)->0.response.stamp == at.stamp,
        !(other is Goal) || other->Goal_0 is None ==> !other.brings_goal()
            && other.spec_goal_reply(at) is None,
{
}

/// A goal request sets its goal running, under its own id and with the data that the client sent. The
/// client is told under its own query; the first status shows the goal accepted and the second shows
/// it executing, and both show every other goal in its state. The handle watches the flag of the
/// execution. Every other goal, every other flag, the timeouts, the mode and the tokens are as they
/// were.
pub proof fn goal_request_starts_its_goal<A: ZAction>(
    before: ServerView<A>,
    after: ServerView<A>,
    request: GoalRequest<A>,
    query: QueryId,
    at: Reading,
    start: GoalStart<A>,
)
    requires
        before.table.goal_timeout is Some ==> at.now.nanos + before.table.goal_timeout->0.nanos
            <= u128::MAX,
        before.table.next_flag < u64::MAX,
        crate::driver::goal_started(before, after, request, query, at, start),
    ensures
        after.table.goals.contains_key(request.goal_id),
        after.table.goals[request.goal_id] is Executing,
        cloned(request.goal, after.table.goals[request.goal_id]->Executing_goal),
        after.table.goals[request.goal_id]->cancel_flag == before.table.next_flag,
        is_deadline(
            after.table.goals[request.goal_id]->Executing_expires_at,
            at.now,
            before.table.goal_timeout,
        ),
        others_are_kept(before.table, after.table, request.goal_id),
        !after.table.raised.contains(before.table.next_flag),
        forall|flag: FlagId|
            flag != before.table.next_flag ==> (#[trigger] after.table.raised.contains(flag)
                <==> before.table.raised.contains(flag)),
        after.table.next_flag == before.table.next_flag + 1,
        timeouts_are_same(before.table, after.table),
        after.mode == before.mode,
        after.shutdown == before.shutdown,
        after.result_handler == before.result_handler,
        start.reply == Some(
            GoalReply { query, response: GoalResponse { accepted: true, stamp: at.stamp } },
        ),
        start.goal@.goal == request.goal,
        start.goal@.info == (GoalInfo { goal_id: request.goal_id, stamp: at.stamp }),
        start.goal@.server == before.shutdown.token,
        start.goal@.query is None,
        start.goal@.cancel_flag == Some(before.table.next_flag),
        crate::laws::reports(start.accepted_status.status_list@, request.goal_id, GoalStatus::Accepted),
        crate::laws::reports(start.executing_status.status_list@, request.goal_id, GoalStatus::Executing),
        forall|id: GoalId|
            id != request.goal_id && #[trigger] before.table.goals.contains_key(id) ==> {
                &&& shows_state(start.accepted_status.status_list@, id, before.table.goals[id])
                &&& shows_state(start.executing_status.status_list@, id, before.table.goals[id])
            },
{
    let between = choose|between: GoalTable<A>|
        {
            &&& #[trigger] crate::server::accepted(
                before.table,
                between,
                request.goal_id,
                request.goal,
                at.now,
            )
            &&& between.is_reported_by(start.accepted_status.status_list@, at.stamp)
            &&& crate::server::executed(
                between,
                after.table,
                request.goal_id,
                request.goal,
                at.now,
            )
        };
    acceptance_registers_the_goal(
        before.table,
        between,
        request.goal_id,
        request.goal,
        at.now,
    );
    execution_sets_the_goal_running(
        between,
        after.table,
        request.goal_id,
        request.goal,
        at.now,
    );
    goals_are_replaced_alone(before, after.table);
    status_shows_each_state(between, start.accepted_status.status_list@, at.stamp);
    status_shows_each_state(after.table, start.executing_status.status_list@, at.stamp);
    assert forall|id: GoalId|
        id != request.goal_id && #[trigger] before.table.goals.contains_key(id) implies {
        &&& shows_state(start.accepted_status.status_list@, id, before.table.goals[id])
        &&& shows_state(start.executing_status.status_list@, id, before.table.goals[id])
    } by {
        assert(between.goals.contains_key(id));
        assert(after.table.goals.contains_key(id));
    }
}

/// Tells whether a status list shows a goal as its state asks for.
pub open spec fn shows_state<A: ZAction>(
    list: Seq<GoalStatusInfo>,
    goal_id: GoalId,
    state: ServerGoalState<A>,
) -> bool {
    match state {
        ServerGoalState::Accepted { .. } => crate::laws::reports(list, goal_id, GoalStatus::Accepted),
        ServerGoalState::Executing { .. } => crate::laws::reports(list, goal_id, GoalStatus::Executing),
        ServerGoalState::Canceling { .. } => crate::laws::reports(list, goal_id, GoalStatus::Canceling),
        ServerGoalState::Terminated { status, .. } => crate::laws::reports(list, goal_id, status),
    }
}

/// A cancel request is granted just when the goal that it names runs: the answer then has the code
/// one and names that goal alone, with the stamp of the request. Otherwise it has the code zero and
/// names none.
pub proof fn cancel_answers_tell_of_running_goals<A: ZAction>(
    table: GoalTable<A>,
    request: CancelGoalRequest,
    response: CancelGoalResponse,
)
    requires
        crate::driver::answers_cancel(table, request, response),
    ensures
        ({
            let id = request.goal_info.goal_id;
            if table.goals.contains_key(id) && table.goals[id] is Executing {
                &&& response.return_code == 1
                &&& response.goals_canceling@.len() == 1
                &&& response.goals_canceling@[0] == request.goal_info
            } else {
                &&& response.return_code == 0
                &&& response.goals_canceling@.len() == 0
            }
        }),
{
}

/// A turn of the driver on a cancel request raises the flag of the goal that is named, if that goal
/// runs, and answers so. Every other running goal is told to cancel after the turn just if it was
/// before. No goal changes its state, and nothing else about the server changes.
pub proof fn driver_cancels_the_named_goal_alone<A: ZAction>(
    before: Driver,
    after: Driver,
    server_before: ServerView<A>,
    server_after: ServerView<A>,
    request: CancelGoalRequest,
    at: Reading,
    action: DriverAction<A>,
    handle: HandleView<A>,
)
    requires
        before.running,
        server_before.table.is_sound(),
        Driver::turned(
            before,
            after,
            server_before,
            server_after,
            DriverEvent::Cancel(Some(request)),
            at,
            action,
        ),
    ensures
        after.running,
        ({
            let id = request.goal_info.goal_id;
            let table = server_before.table;
            let runs = table.goals.contains_key(id) && table.goals[id] is Executing;
            &&& action is ReplyCancel
            &&& action->ReplyCancel_0.return_code == if runs { 1i8 } else { 0i8 }
            &&& action->ReplyCancel_0.goals_canceling@ == if runs {
                seq![request.goal_info]
            } else {
                Seq::empty()
            }
            &&& runs ==> server_after.table.raised.contains(table.goals[id]->cancel_flag)
            &&& runs && handle.cancel_flag == Some(table.goals[id]->cancel_flag)
                ==> handle.is_cancel_requested(server_after.table)
            &&& forall|other: GoalId|
                other != id && #[trigger] table.goals.contains_key(other)
                    && table.goals[other] is Executing ==> (server_after.table.raised.contains(
                    table.goals[other]->cancel_flag,
                ) <==> table.raised.contains(table.goals[other]->cancel_flag)) && (
                handle.cancel_flag == Some(table.goals[other]->cancel_flag) ==> (
                handle.is_cancel_requested(server_after.table) <==> handle.is_cancel_requested(
                    table,
                )))
            &&& forall|flag: FlagId|
                !(runs && flag == table.goals[id]->cancel_flag) ==> (
                #[trigger] server_after.table.raised.contains(flag) <==> table.raised.contains(
                    flag,
                ))
        }),
        server_after.table.goals == server_before.table.goals,
        server_after.table.next_flag == server_before.table.next_flag,
        timeouts_are_same(server_before.table, server_after.table),
        server_after.mode == server_before.mode,
        server_after.shutdown == server_before.shutdown,
        server_after.result_handler == server_before.result_handler,
{
    let id = request.goal_info.goal_id;
    let table = server_before.table;
    cancel_raises_one_flag(table, id);
    sound_tables_keep_goals_apart(table);
    goals_are_replaced_alone(server_before, table.after_cancel(id));
    cancel_answers_tell_of_running_goals(table, request, action->ReplyCancel_0);
    let runs = table.goals.contains_key(id) && table.goals[id] is Executing;
    assert(action->ReplyCancel_0.goals_canceling@ == if runs {
        seq![request.goal_info]
    } else {
        Seq::empty()
    });
}

/// A turn of the driver on a goal request starts that goal and goes on.
pub proof fn driver_starts_the_requested_goal<A: ZAction>(
    before: Driver,
    after: Driver,
    server_before: ServerView<A>,
    server_after: ServerView<A>,
    request: GoalRequest<A>,
    query: QueryId,
    at: Reading,
    action: DriverAction<A>,
)
    requires
        before.running,
        server_before.table.goal_timeout is Some ==> at.now.nanos
            + server_before.table.goal_timeout->0.nanos <= u128::MAX,
        server_before.table.next_flag < u64::MAX,
        Driver::turned(
            before,
            after,
            server_before,
            server_after,
            DriverEvent::Goal(Some((request, query))),
            at,
            action,
        ),
    ensures
        after.running,
        action is Start,
        crate::driver::goal_started(
            server_before,
            server_after,
            request,
            query,
            at,
            action->Start_0,
        ),
        action->Start_0.reply == Some(
            GoalReply { query, response: GoalResponse { accepted: true, stamp: at.stamp } },
        ),
        action->Start_0.goal@.goal == request.goal,
        action->Start_0.goal@.info == (GoalInfo { goal_id: request.goal_id, stamp: at.stamp }),
        action->Start_0.goal@.server == server_before.shutdown.token,
        action->Start_0.goal@.cancel_flag == Some(server_before.table.next_flag),
        crate::laws::reports(
            action->Start_0.accepted_status.status_list@,
            request.goal_id,
            GoalStatus::Accepted,
        ),
        crate::laws::reports(
            action->Start_0.executing_status.status_list@,
            request.goal_id,
            GoalStatus::Executing,
        ),
        server_after.table.goals.contains_key(request.goal_id),
        server_after.table.goals[request.goal_id] is Executing,
        server_after.table.goals[request.goal_id]->cancel_flag == server_before.table.next_flag,
        others_are_kept(server_before.table, server_after.table, request.goal_id),
        !server_after.table.raised.contains(server_before.table.next_flag),
        forall|flag: FlagId|
            flag != server_before.table.next_flag ==> (
            #[trigger] server_after.table.raised.contains(flag)
                <==> server_before.table.raised.contains(flag)),
        timeouts_are_same(server_before.table, server_after.table),
        server_after.mode == server_before.mode,
        server_after.shutdown == server_before.shutdown,
        server_after.result_handler == server_before.result_handler,
{
    goal_request_starts_its_goal(
        server_before,
        server_after,
        request,
        query,
        at,
        action->Start_0,
    );
}

/// A turn of the driver on a result request answers it from the goal that it names, and changes
/// nothing.
pub proof fn driver_answers_result_requests<A: ZAction>(
    before: Driver,
    after: Driver,
    server_before: ServerView<A>,
    server_after: ServerView<A>,
    request: ResultRequest,
    at: Reading,
    action: DriverAction<A>,
)
    requires
        before.running,
        Driver::turned(
            before,
            after,
            server_before,
            server_after,
            DriverEvent::Result(Some(request)),
            at,
            action,
        ),
    ensures
        after.running,
        server_after == server_before,
        action is ReplyResult,
        ({
            let table = server_before.table;
            let response = action->ReplyResult_0;
            &&& !table.goals.contains_key(request.goal_id) ==> response is None
            &&& table.goals.contains_key(request.goal_id) ==> match table.goals[request.goal_id] {
                ServerGoalState::Terminated { result, status, .. } => {
                    &&& response is Some
                    &&& response->0.status == status
                    &&& cloned(result, response->0.result)
                },
                _ => response is None,
            }
        }),
{
    results_are_those_of_terminated_goals(
        server_before.table,
        request.goal_id,
        action->ReplyResult_0,
    );
}

/// A running driver stops at a shutdown and at nothing else, and does nothing when a channel cannot
/// be read; a driver that has stopped does nothing any more.
pub proof fn driver_stops_only_at_shutdown<A: ZAction>(
    before: Driver,
    after: Driver,
    server_before: ServerView<A>,
    server_after: ServerView<A>,
    event: DriverEvent<A>,
    at: Reading,
    action: DriverAction<A>,
)
    requires
        Driver::turned(before, after, server_before, server_after, event, at, action),
    ensures
        after.running <==> before.running && !(event is Shutdown),
        action is Stop <==> !after.running,
        !after.running ==> server_after == server_before,
        event is Goal && event->Goal_0 is None && before.running ==> action is Wait && server_after
            == server_before,
        event is Cancel && event->Cancel_0 is None && before.running ==> action is Wait
            && server_after == server_before,
        event is Result && event->Result_0 is None && before.running ==> action is Wait
            && server_after == server_before,
{
}

/// A result handler stops when it is told to, and at nothing else. While it goes on it answers the
/// requests that it gets from the goals that they name; else it answers nothing.
pub proof fn result_handler_answers_until_stopped<A: ZAction>(
    before: ResultHandler,
    after: ResultHandler,
    table: GoalTable<A>,
    event: ResultHandlerEvent,
    response: Option<ResultResponse<A>>,
)
    requires
        ResultHandler::turned(before, after, table, event, response),
    ensures
        after.running <==> before.running && event is Request,
        !(before.running && event is Request && event->Request_0 is Some) ==> response is None,
        before.running && event is Request && event->Request_0 is Some ==> {
            let id = event->Request_0->0.goal_id;
            &&& !table.goals.contains_key(id) ==> response is None
            &&& table.goals.contains_key(id) ==> match table.goals[id] {
                ServerGoalState::Terminated { result, status, .. } => {
                    &&& response is Some
                    &&& response->0.status == status
                    &&& cloned(result, response->0.result)
                },
                _ => response is None,
            }
        },
{
    if before.running && event is Request && event->Request_0 is Some {
        results_are_those_of_terminated_goals(table, event->Request_0->0.goal_id, response);
    }
}

/// Each endpoint is asked for with the profile that was set for it on the builder, and to set the
/// profile of one endpoint changes that of no other.
pub proof fn profiles_go_to_their_endpoints<'a, A: ZAction>(
    builder: ZActionServerBuilder<'a, A>,
    qos: QosProfile,
    endpoint: Endpoint,
)
    ensures
        (ZActionServerBuilder { goal_service_qos: Some(qos), ..builder }).spec_qos(endpoint)
            == if endpoint == Endpoint::Goal { Some(qos) } else { builder.spec_qos(endpoint) },
        (ZActionServerBuilder { result_service_qos: Some(qos), ..builder }).spec_qos(endpoint)
            == if endpoint == Endpoint::Result { Some(qos) } else { builder.spec_qos(endpoint) },
        (ZActionServerBuilder { cancel_service_qos: Some(qos), ..builder }).spec_qos(endpoint)
            == if endpoint == Endpoint::Cancel { Some(qos) } else { builder.spec_qos(endpoint) },
        (ZActionServerBuilder { feedback_topic_qos: Some(qos), ..builder }).spec_qos(endpoint)
            == if endpoint == Endpoint::Feedback { Some(qos) } else { builder.spec_qos(endpoint) },
        (ZActionServerBuilder { status_topic_qos: Some(qos), ..builder }).spec_qos(endpoint)
            == if endpoint == Endpoint::Status { Some(qos) } else { builder.spec_qos(endpoint) },
{
}

/// An endpoint whose profile was never set is asked for with none, and nothing but the profiles has a
/// say in them.
pub proof fn profiles_are_missing_until_set<'a, A: ZAction>(
    builder: ZActionServerBuilder<'a, A>,
    other: ZActionServerBuilder<'a, A>,
    endpoint: Endpoint,
)
    requires
        builder.goal_service_qos == other.goal_service_qos,
        builder.result_service_qos == other.result_service_qos,
        builder.cancel_service_qos == other.cancel_service_qos,
        builder.feedback_topic_qos == other.feedback_topic_qos,
        builder.status_topic_qos == other.status_topic_qos,
    ensures
        builder.spec_qos(endpoint) == other.spec_qos(endpoint),
        builder.goal_service_qos is None && builder.result_service_qos is None
            && builder.cancel_service_qos is None && builder.feedback_topic_qos is None
            && builder.status_topic_qos is None ==> builder.spec_qos(endpoint) is None,
{
}

/// The endpoints of an action are named after it as action clients expect, whatever its name.
pub proof fn endpoints_are_named_as_clients_expect(action: Seq<char>, action_type: Seq<char>)
    ensures
        crate::naming::spec_endpoint_name(action, Endpoint::Goal) == action
            + "/_action/send_goal"@,
        crate::naming::spec_endpoint_name(action, Endpoint::Result) == action
            + "/_action/get_result"@,
        crate::naming::spec_endpoint_name(action, Endpoint::Cancel) == action
            + "/_action/cancel_goal"@,
        crate::naming::spec_endpoint_name(action, Endpoint::Feedback) == action
            + "/_action/feedback"@,
        crate::naming::spec_endpoint_name(action, Endpoint::Status) == action
            + "/_action/status"@,
        action_type + crate::naming::feedback_type_suffix() == action_type + "/_FeedbackMessage"@,
{
}

/// The three services come first and the two topics last, and a topic is what is not a service.
pub proof fn services_come_before_topics(endpoint: Endpoint)
    ensures
        endpoint.is_topic() <==> endpoint != Endpoint::Goal && endpoint != Endpoint::Result
            && endpoint != Endpoint::Cancel,
        endpoint.spec_following() is None <==> endpoint == Endpoint::Status,
        endpoint.spec_following() is Some && endpoint.is_topic()
            ==> endpoint.spec_following()->0.is_topic(),
        Endpoint::Goal.spec_following() == Some(Endpoint::Result),
        Endpoint::Result.spec_following() == Some(Endpoint::Cancel),
        Endpoint::Cancel.spec_following() == Some(Endpoint::Feedback),
        Endpoint::Feedback.spec_following() == Some(Endpoint::Status),
{
}

/// A node that refuses an endpoint ends the build with its own error, whichever endpoint it is. A
/// node that creates it is asked for the next one, and after the last the build is complete.
pub proof fn refusals_end_the_build<E>(endpoint: Endpoint, error: E)
    ensures
        crate::builder::creation_step(endpoint, Err(error)) == CreationStep::Refused(error),
        crate::builder::creation_step::<E>(Endpoint::Status, Ok(())) == CreationStep::<E>::Complete,
        endpoint != Endpoint::Status ==> crate::builder::creation_step::<E>(endpoint, Ok(()))
            == CreationStep::<E>::Next(endpoint.spec_following()->0),
        endpoint != Endpoint::Status ==> endpoint.spec_following() is Some,
{
}

} // verus!
