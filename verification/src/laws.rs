//! What holds of a server across its operations.

use vstd::prelude::*;

use crate::action::{GoalId, GoalStatus, ZAction};
use crate::builder::CreationStep;
use crate::driver::{
    Driver, DriverAction, DriverEvent, GoalStart, ResultHandler, ResultHandlerEvent,
};
use crate::messages::{
    CancelGoalRequest, CancelGoalResponse, GoalRequest, GoalStatusInfo, ResultRequest,
    ResultResponse,
};
use crate::naming::Endpoint;
use crate::server::{HandleView, QueryId, ServerView};
use crate::state::{FlagId, GoalTable, ServerGoalState};
use crate::time::{Duration, Instant, Reading};

verus! {

/// What one operation makes of a table.
pub enum Transition<A: ZAction> {
    Accept { goal_id: GoalId, goal: A::Goal, now: Instant },
    Execute { goal_id: GoalId, goal: A::Goal, now: Instant },
    Terminate {
        goal_id: GoalId,
        cancel_flag: Option<FlagId>,
        result: A::Result,
        status: GoalStatus,
        now: Instant,
    },
    Cancel { goal_id: GoalId },
    Expire { now: Instant, max_age: Duration },
    SetResultTimeout { timeout: Duration },
}

impl<A: ZAction> Transition<A> {
    /// The table after the operation.
    pub open spec fn apply(self, table: GoalTable<A>) -> GoalTable<A> {
        match self {
            Transition::Accept { goal_id, goal, now } => table.after_accept(goal_id, goal, now),
            Transition::Execute { goal_id, goal, now } => table.after_execute(goal_id, goal, now),
            Transition::Terminate { goal_id, cancel_flag, result, status, now } => {
                table.after_terminate(goal_id, cancel_flag, result, status, now)
            },
            Transition::Cancel { goal_id } => table.after_cancel(goal_id),
            Transition::Expire { now, max_age } => table.after_expire(now, max_age),
            Transition::SetResultTimeout { timeout } => {
                GoalTable { result_timeout: timeout, ..table }
            },
        }
    }

    /// Tells whether the operation can be performed. A goal that sets out gets a deadline that the
    /// clock can represent, an execution takes a flag, and a goal ends succeeded, aborted or
    /// canceled.
    pub open spec fn applies_to(self, table: GoalTable<A>) -> bool {
        match self {
            Transition::Accept { now, .. } => table.deadline_fits(now),
            Transition::Execute { now, .. } => table.deadline_fits(now) && table.has_free_flag(),
            Transition::Terminate { status, .. } => status.is_terminal(),
            _ => true,
        }
    }

    /// Tells whether the operation is about the given goal alone, and gives it a new state.
    pub open spec fn writes(self, goal_id: GoalId) -> bool {
        match self {
            Transition::Accept { goal_id: id, .. } => id == goal_id,
            Transition::Execute { goal_id: id, .. } => id == goal_id,
            Transition::Terminate { goal_id: id, .. } => id == goal_id,
            _ => false,
        }
    }
}

/// The table after a series of operations.
pub open spec fn apply_all<A: ZAction>(
    table: GoalTable<A>,
    transitions: Seq<Transition<A>>,
) -> GoalTable<A>
    decreases transitions.len(),
{
    if transitions.len() == 0 {
        table
    } else {
        transitions.last().apply(apply_all(table, transitions.drop_last()))
    }
}

/// Tells whether each operation of a series can be performed when its turn comes.
pub open spec fn all_apply<A: ZAction>(
    table: GoalTable<A>,
    transitions: Seq<Transition<A>>,
) -> bool {
    forall|i: int|
        0 <= i < transitions.len() ==> (#[trigger] transitions[i]).applies_to(
            apply_all(table, transitions.take(i)),
        )
}

/// The table of a new server is sound.
pub proof fn new_tables_are_sound<A: ZAction>(
    result_timeout: Duration,
    goal_timeout: Option<Duration>,
)
    ensures
        GoalTable::<A>::initial(result_timeout, goal_timeout).is_sound(),
{
}

/// Every operation keeps the flags sound, and lets goals end with a terminal status only.
pub proof fn tables_stay_sound<A: ZAction>(table: GoalTable<A>, transition: Transition<A>)
    requires
        transition.applies_to(table),
    ensures
        table.flags_are_sound() ==> transition.apply(table).flags_are_sound(),
        table.ends_are_terminal() ==> transition.apply(table).ends_are_terminal(),
{
    if table.flags_are_sound() {
        let after = transition.apply(table);
        assert forall|id: GoalId| #[trigger] after.is_executing(id) implies {
            ||| table.is_executing(id) && after.goals[id] == table.goals[id]
            ||| transition is Execute && transition.writes(id) && after.goals[id]->cancel_flag
                == table.next_flag
        } by {}
        assert forall|id: GoalId, other: GoalId|
            #[trigger] after.is_executing(id) && #[trigger] after.is_executing(other) && id
                != other implies after.goals[id]->cancel_flag
            != after.goals[other]->cancel_flag by {
            assert(table.is_executing(id) || table.is_executing(other));
        }
    }
}

/// In every state that a server can reach the flags are sound, and every terminated goal succeeded,
/// was aborted or was canceled.
pub proof fn reachable_tables_are_sound<A: ZAction>(
    result_timeout: Duration,
    goal_timeout: Option<Duration>,
    transitions: Seq<Transition<A>>,
)
    requires
        all_apply(GoalTable::initial(result_timeout, goal_timeout), transitions),
    ensures
        apply_all(GoalTable::initial(result_timeout, goal_timeout), transitions).is_sound(),
    decreases transitions.len(),
{
    let table = GoalTable::initial(result_timeout, goal_timeout);
    if transitions.len() > 0 {
        let front = transitions.drop_last();
        front_applies(table, transitions);
        reachable_tables_are_sound(result_timeout, goal_timeout, front);
        tables_stay_sound(apply_all(table, front), transitions.last());
    }
}

/// What can be performed as a whole can be performed up to its last operation, and then that one.
proof fn front_applies<A: ZAction>(table: GoalTable<A>, transitions: Seq<Transition<A>>)
    requires
        transitions.len() > 0,
        all_apply(table, transitions),
    ensures
        all_apply(table, transitions.drop_last()),
        transitions.last().applies_to(apply_all(table, transitions.drop_last())),
{
    let front = transitions.drop_last();
    assert forall|i: int| 0 <= i < front.len() implies (#[trigger] front[i]).applies_to(
        apply_all(table, front.take(i)),
    ) by {
        assert(front.take(i) == transitions.take(i));
        assert(front[i] == transitions[i]);
    }
    assert(front == transitions.take(transitions.len() - 1));
    assert(transitions[transitions.len() - 1].applies_to(apply_all(table, front)));
}

/// Tells whether the operation neither gives the goal a new state nor expires it.
pub open spec fn spares<A: ZAction>(
    transition: Transition<A>,
    table: GoalTable<A>,
    goal_id: GoalId,
) -> bool {
    &&& !transition.writes(goal_id)
    &&& transition matches Transition::Expire { now, max_age } ==> !table.has_expired(
        goal_id,
        now,
        max_age,
    )
}

/// An operation leaves every goal alone that it is not about and that it does not expire.
pub proof fn other_goals_are_untouched<A: ZAction>(
    table: GoalTable<A>,
    transition: Transition<A>,
    goal_id: GoalId,
)
    requires
        spares(transition, table, goal_id),
    ensures
        transition.apply(table).goals.contains_key(goal_id) == table.goals.contains_key(goal_id),
        table.goals.contains_key(goal_id) ==> transition.apply(table).goals[goal_id]
            == table.goals[goal_id],
{
}

/// A client that asks for the result of a goal that was just terminated gets the result and the
/// status that the goal was terminated with.
pub proof fn result_reads_back<A: ZAction>(
    table: GoalTable<A>,
    goal_id: GoalId,
    cancel_flag: Option<FlagId>,
    result: A::Result,
    status: GoalStatus,
    now: Instant,
    response: Option<ResultResponse<A>>,
)
    requires
        table.after_terminate(goal_id, cancel_flag, result, status, now).answers(goal_id, response),
    ensures
        response matches Some(r) && r.status == status && cloned(result, r.result),
{
}

/// The result of a goal reads back until the goal is given a new state or is expired: whatever else
/// happens after its end, a client that asks for the result gets what the goal was terminated with.
pub proof fn result_reads_back_later<A: ZAction>(
    table: GoalTable<A>,
    goal_id: GoalId,
    cancel_flag: Option<FlagId>,
    result: A::Result,
    status: GoalStatus,
    now: Instant,
    later: Seq<Transition<A>>,
    response: Option<ResultResponse<A>>,
)
    requires
        forall|i: int|
            0 <= i < later.len() ==> !(#[trigger] later[i]).writes(goal_id) && (
            later[i] matches Transition::Expire { now: then, max_age } ==> Instant::elapsed(
                then,
                now,
            ) <= max_age@),
        apply_all(
            table.after_terminate(goal_id, cancel_flag, result, status, now),
            later,
        ).answers(goal_id, response),
    ensures
        response matches Some(r) && r.status == status && cloned(result, r.result),
{
    terminated_state_stays(
        table.after_terminate(goal_id, cancel_flag, result, status, now),
        goal_id,
        result,
        status,
        now,
        later,
    );
}

pub(crate) proof fn terminated_state_stays<A: ZAction>(
    table: GoalTable<A>,
    goal_id: GoalId,
    result: A::Result,
    status: GoalStatus,
    now: Instant,
    later: Seq<Transition<A>>,
)
    requires
        table.goals.contains_key(goal_id),
        table.goals[goal_id] == (ServerGoalState::<A>::Terminated {
            result,
            status,
            timestamp: now,
        }),
        forall|i: int|
            0 <= i < later.len() ==> !(#[trigger] later[i]).writes(goal_id) && (
            later[i] matches Transition::Expire { now: then, max_age } ==> Instant::elapsed(
                then,
                now,
            ) <= max_age@),
    ensures
        apply_all(table, later).goals.contains_key(goal_id),
        apply_all(table, later).goals[goal_id] == table.goals[goal_id],
    decreases later.len(),
{
    if later.len() > 0 {
        let front = later.drop_last();
        assert forall|i: int| 0 <= i < front.len() implies !(#[trigger] front[i]).writes(goal_id)
            && (front[i] matches Transition::Expire { now: then, max_age } ==> Instant::elapsed(
            then,
            now,
        ) <= max_age@) by {
            assert(front[i] == later[i]);
        }
        terminated_state_stays(table, goal_id, result, status, now, front);
        assert(later[later.len() - 1] == later.last());
        other_goals_are_untouched(apply_all(table, front), later.last(), goal_id);
    }
}

/// There is no answer to a request for the result of a goal that is not known, or that has been
/// accepted, runs or is being canceled.
pub proof fn unfinished_goals_have_no_result<A: ZAction>(
    table: GoalTable<A>,
    goal_id: GoalId,
    response: Option<ResultResponse<A>>,
)
    requires
        table.goals.contains_key(goal_id) ==> !(table.goals[goal_id] is Terminated),
        table.answers(goal_id, response),
    ensures
        response is None,
{
}

/// The life of a goal as its status shows it: accepted, executing, and then the status that it was
/// terminated with.
pub proof fn status_follows_the_life_of_a_goal<A: ZAction>(
    table: GoalTable<A>,
    goal_id: GoalId,
    goal: A::Goal,
    result: A::Result,
    status: GoalStatus,
    cancel_flag: Option<FlagId>,
    now: Instant,
    list: Seq<GoalStatusInfo>,
    stamp: i64,
)
    ensures
        table.after_accept(goal_id, goal, now).is_reported_by(list, stamp) ==> reports(
            list,
            goal_id,
            GoalStatus::Accepted,
        ),
        table.after_execute(goal_id, goal, now).is_reported_by(list, stamp) ==> reports(
            list,
            goal_id,
            GoalStatus::Executing,
        ),
        table.after_terminate(goal_id, cancel_flag, result, status, now).is_reported_by(list, stamp)
            ==> reports(list, goal_id, status),
{
    let accepted = table.after_accept(goal_id, goal, now);
    let executing = table.after_execute(goal_id, goal, now);
    let terminated = table.after_terminate(goal_id, cancel_flag, result, status, now);
    assert(accepted.goals.contains_key(goal_id));
    assert(executing.goals.contains_key(goal_id));
    assert(terminated.goals.contains_key(goal_id));
}

/// Tells whether a status list reports the given status for a goal, and no other.
pub open spec fn reports(list: Seq<GoalStatusInfo>, goal_id: GoalId, status: GoalStatus) -> bool {
    &&& exists|i: int| 0 <= i < list.len() && (#[trigger] list[i]).goal_info.goal_id == goal_id
    &&& forall|i: int|
        0 <= i < list.len() && (#[trigger] list[i]).goal_info.goal_id == goal_id ==> list[i].status
            == status
}

/// Two status messages about the same goals differ at most in the order of their entries.
pub proof fn status_messages_agree<A: ZAction>(
    table: GoalTable<A>,
    list: Seq<GoalStatusInfo>,
    other: Seq<GoalStatusInfo>,
    stamp: i64,
)
    requires
        table.is_reported_by(list, stamp),
        table.is_reported_by(other, stamp),
    ensures
        list.no_duplicates(),
        other.no_duplicates(),
        list.to_set() == other.to_set(),
        list.len() == other.len(),
{
    assert forall|entry: GoalStatusInfo| list.contains(entry) == other.contains(entry) by {
        if list.contains(entry) {
            reported_entry(table, list, other, stamp, entry);
        }
        if other.contains(entry) {
            reported_entry(table, other, list, stamp, entry);
        }
    }
    assert(list.to_set() =~= other.to_set());
    list.unique_seq_to_set();
    other.unique_seq_to_set();
}

proof fn reported_entry<A: ZAction>(
    table: GoalTable<A>,
    list: Seq<GoalStatusInfo>,
    other: Seq<GoalStatusInfo>,
    stamp: i64,
    entry: GoalStatusInfo,
)
    requires
        table.is_reported_by(list, stamp),
        table.is_reported_by(other, stamp),
        list.contains(entry),
    ensures
        other.contains(entry),
{
    let i = list.index_of(entry);
    let id = entry.goal_info.goal_id;
    assert(list[i] == entry);
    assert(table.goals.contains_key(id));
    let j = choose|j: int| 0 <= j < other.len() && (#[trigger] other[j]).goal_info.goal_id == id;
    assert(other[j] == entry);
}

/// The cancel flag of an execution is down when the execution begins, and a cancel request for the
/// goal raises it.
pub proof fn cancel_reaches_the_execution<A: ZAction>(
    table: GoalTable<A>,
    goal_id: GoalId,
    goal: A::Goal,
    now: Instant,
)
    ensures
        !table.after_execute(goal_id, goal, now).raised.contains(table.next_flag),
        table.after_execute(goal_id, goal, now).after_cancel(goal_id).raised.contains(
            table.next_flag,
        ),
{
}

/// A cancel flag that is up stays up, whatever happens, until the execution it belongs to is
/// terminated.
pub proof fn cancel_is_not_forgotten<A: ZAction>(
    table: GoalTable<A>,
    flag: FlagId,
    later: Seq<Transition<A>>,
)
    requires
        table.flags_are_sound(),
        table.raised.contains(flag),
        all_apply(table, later),
        no_end_of(later, flag),
    ensures
        apply_all(table, later).raised.contains(flag),
        apply_all(table, later).flags_are_sound(),
    decreases later.len(),
{
    if later.len() > 0 {
        let front = later.drop_last();
        front_applies(table, later);
        cancel_is_not_forgotten(table, flag, front);
        tables_stay_sound(apply_all(table, front), later.last());
    }
}

/// Operations that give a goal no new state leave it running, with the same flag, or leave it not
/// running.
proof fn running_is_kept<A: ZAction>(
    table: GoalTable<A>,
    goal_id: GoalId,
    later: Seq<Transition<A>>,
)
    requires
        no_writes(later, goal_id),
    ensures
        apply_all(table, later).is_executing(goal_id) == table.is_executing(goal_id),
        table.is_executing(goal_id) ==> apply_all(table, later).goals[goal_id]
            == table.goals[goal_id],
    decreases later.len(),
{
    if later.len() > 0 {
        let front = later.drop_last();
        assert forall|i: int| 0 <= i < front.len() implies !(#[trigger] front[i]).writes(
            goal_id,
        ) by {
            assert(front[i] == later[i]);
        }
        running_is_kept(table, goal_id, front);
        assert(later[later.len() - 1] == later.last());
    }
}

/// Tells whether no operation of a series gives the goal a new state.
pub open spec fn no_writes<A: ZAction>(transitions: Seq<Transition<A>>, goal_id: GoalId) -> bool {
    forall|i: int| 0 <= i < transitions.len() ==> !(#[trigger] transitions[i]).writes(goal_id)
}

/// Tells whether no operation of a series gives up the flag.
pub open spec fn no_end_of<A: ZAction>(transitions: Seq<Transition<A>>, flag: FlagId) -> bool {
    forall|i: int|
        0 <= i < transitions.len() ==> !((#[trigger] transitions[i]) matches Transition::Terminate {
            cancel_flag,
            ..
        } && cancel_flag == Some(flag))
}

/// Tells whether a series holds a request to cancel the goal.
pub open spec fn asks_to_cancel<A: ZAction>(
    transitions: Seq<Transition<A>>,
    goal_id: GoalId,
) -> bool {
    exists|i: int|
        0 <= i < transitions.len() && #[trigger] transitions[i] == (Transition::<A>::Cancel {
            goal_id,
        })
}

/// While a goal runs its flag tells of the cancel requests for it, and of nothing else: whatever
/// happens, a flag that was down is up just when there was a request to cancel the goal since.
pub proof fn flag_tells_of_cancel_requests<A: ZAction>(
    table: GoalTable<A>,
    goal_id: GoalId,
    flag: FlagId,
    later: Seq<Transition<A>>,
)
    requires
        table.flags_are_sound(),
        table.is_executing(goal_id),
        table.goals[goal_id]->cancel_flag == flag,
        !table.raised.contains(flag),
        all_apply(table, later),
        no_writes(later, goal_id),
        no_end_of(later, flag),
    ensures
        apply_all(table, later).flags_are_sound(),
        apply_all(table, later).is_executing(goal_id),
        apply_all(table, later).goals[goal_id]->cancel_flag == flag,
        apply_all(table, later).raised.contains(flag) <==> asks_to_cancel(later, goal_id),
    decreases later.len(),
{
    running_is_kept(table, goal_id, later);
    if later.len() > 0 {
        let front = later.drop_last();
        front_applies(table, later);
        assert(no_writes(front, goal_id) && no_end_of(front, flag)) by {
            assert forall|i: int| 0 <= i < front.len() implies #[trigger] front[i] == later[i] by {}
        }
        assert(no_end_of(seq![later.last()], flag)) by {
            assert(later[later.len() - 1] == later.last());
        }
        flag_tells_of_cancel_requests(table, goal_id, flag, front);
        flag_follows_one_operation(apply_all(table, front), goal_id, later.last());
        tables_stay_sound(apply_all(table, front), later.last());
        last_may_ask_to_cancel(later, goal_id);
    }
}

/// One operation raises the flag of a running goal if it asks to cancel the goal, and else leaves it.
proof fn flag_follows_one_operation<A: ZAction>(
    table: GoalTable<A>,
    goal_id: GoalId,
    transition: Transition<A>,
)
    requires
        table.flags_are_sound(),
        table.is_executing(goal_id),
        transition.applies_to(table),
        no_end_of(seq![transition], table.goals[goal_id]->cancel_flag),
    ensures
        transition.apply(table).raised.contains(table.goals[goal_id]->cancel_flag) <==> transition
            == (Transition::<A>::Cancel { goal_id }) || table.raised.contains(
            table.goals[goal_id]->cancel_flag,
        ),
{
    assert(seq![transition][0] == transition);
    if let Transition::Cancel { goal_id: id } = transition {
        if id != goal_id {
            cancel_spares_other_goals(table, id, goal_id);
        }
    }
}

/// A series asks to cancel a goal if its last operation does or what comes before it.
proof fn last_may_ask_to_cancel<A: ZAction>(transitions: Seq<Transition<A>>, goal_id: GoalId)
    requires
        transitions.len() > 0,
    ensures
        asks_to_cancel(transitions, goal_id) <==> asks_to_cancel(transitions.drop_last(), goal_id)
            || transitions.last() == (Transition::<A>::Cancel { goal_id }),
{
    let front = transitions.drop_last();
    let cancel = Transition::<A>::Cancel { goal_id };
    if asks_to_cancel(front, goal_id) {
        let i = choose|i: int| 0 <= i < front.len() && #[trigger] front[i] == cancel;
        assert(transitions[i] == cancel);
    }
    if transitions.last() == cancel {
        assert(transitions[transitions.len() - 1] == cancel);
    }
    if asks_to_cancel(transitions, goal_id) && transitions.last() != cancel {
        let i = choose|i: int| 0 <= i < transitions.len() && #[trigger] transitions[i] == cancel;
        assert(front[i] == cancel);
    }
}

/// The handle of an execution tells that cancellation is requested just when there was a request to
/// cancel the goal since the execution began, whatever else happened, as long as the goal is given
/// no new state and the execution is not ended.
pub proof fn handle_tells_of_cancel_requests<A: ZAction>(
    table: GoalTable<A>,
    handle: HandleView<A>,
    stored: A::Goal,
    now: Instant,
    later: Seq<Transition<A>>,
)
    requires
        table.flags_are_sound(),
        table.has_free_flag(),
        table.deadline_fits(now),
        all_apply(table.after_execute(handle.info.goal_id, stored, now), later),
        no_writes(later, handle.info.goal_id),
        no_end_of(later, table.next_flag),
    ensures
        handle.executing(table.next_flag).is_cancel_requested(
            apply_all(table.after_execute(handle.info.goal_id, stored, now), later),
        ) <==> asks_to_cancel(later, handle.info.goal_id),
{
    let goal_id = handle.info.goal_id;
    tables_stay_sound(table, Transition::Execute { goal_id, goal: stored, now });
    flag_tells_of_cancel_requests(
        table.after_execute(goal_id, stored, now),
        goal_id,
        table.next_flag,
        later,
    );
}

/// No flag is handed out twice: the flag of an execution is not the next one to be handed out,
/// however much later.
pub proof fn flags_are_never_reused<A: ZAction>(
    table: GoalTable<A>,
    goal_id: GoalId,
    goal: A::Goal,
    now: Instant,
    later: Seq<Transition<A>>,
)
    requires
        table.has_free_flag(),
        all_apply(table.after_execute(goal_id, goal, now), later),
    ensures
        table.next_flag < apply_all(table.after_execute(goal_id, goal, now), later).next_flag,
    decreases later.len(),
{
    if later.len() > 0 {
        front_applies(table.after_execute(goal_id, goal, now), later);
        flags_are_never_reused(table, goal_id, goal, now, later.drop_last());
    }
}

/// The life of a goal as cancel requests see it. A request to cancel a goal with a fresh id is
/// refused and leaves no trace before the goal is accepted and until it is executed. The execution
/// begins with its flag down. From then on every request is granted, until the goal is terminated;
/// after that requests are refused again and leave no trace. Other operations may come at any point.
pub proof fn cancel_requests_over_the_life_of_a_goal<A: ZAction>(
    table: GoalTable<A>,
    goal_id: GoalId,
    before: Seq<Transition<A>>,
    accepted_goal: A::Goal,
    accepted_at: Instant,
    waiting: Seq<Transition<A>>,
    executed_goal: A::Goal,
    executed_at: Instant,
    running: Seq<Transition<A>>,
    cancel_flag: Option<FlagId>,
    result: A::Result,
    status: GoalStatus,
    ended_at: Instant,
    after: Seq<Transition<A>>,
)
    requires
        !table.goals.contains_key(goal_id),
        no_writes(before, goal_id),
        no_writes(waiting, goal_id),
        no_writes(running, goal_id),
        no_writes(after, goal_id),
    ensures
        ({
            let requested = apply_all(table, before);
            let accepted = apply_all(
                requested.after_accept(goal_id, accepted_goal, accepted_at),
                waiting,
            );
            let begun = accepted.after_execute(goal_id, executed_goal, executed_at);
            let executing = apply_all(begun, running);
            let ended = apply_all(
                executing.after_terminate(goal_id, cancel_flag, result, status, ended_at),
                after,
            );
            &&& !requested.is_executing(goal_id) && requested.after_cancel(goal_id) == requested
            &&& !accepted.is_executing(goal_id) && accepted.after_cancel(goal_id) == accepted
            &&& !begun.raised.contains(accepted.next_flag)
            &&& executing.is_executing(goal_id)
            &&& executing.goals[goal_id]->cancel_flag == accepted.next_flag
            &&& executing.after_cancel(goal_id).is_executing(goal_id)
            &&& executing.after_cancel(goal_id).raised.contains(accepted.next_flag)
            &&& !ended.is_executing(goal_id) && ended.after_cancel(goal_id) == ended
        }),
{
    running_is_kept(table, goal_id, before);
    let requested = apply_all(table, before);
    let accepting = requested.after_accept(goal_id, accepted_goal, accepted_at);
    running_is_kept(accepting, goal_id, waiting);
    let accepted = apply_all(accepting, waiting);
    let begun = accepted.after_execute(goal_id, executed_goal, executed_at);
    running_is_kept(begun, goal_id, running);
    let executing = apply_all(begun, running);
    running_is_kept(
        executing.after_terminate(goal_id, cancel_flag, result, status, ended_at),
        goal_id,
        after,
    );
}

/// A cancel request for one goal raises no flag of another goal that runs.
pub proof fn cancel_spares_other_goals<A: ZAction>(
    table: GoalTable<A>,
    goal_id: GoalId,
    other: GoalId,
)
    requires
        table.flags_are_sound(),
        goal_id != other,
        table.is_executing(other),
    ensures
        table.after_cancel(goal_id).raised.contains(table.goals[other]->cancel_flag)
            == table.raised.contains(table.goals[other]->cancel_flag),
{
}

/// A cancel request changes no goal's state: a goal that is asked to cancel goes on executing until
/// its executor ends it.
pub proof fn cancel_changes_no_state<A: ZAction>(table: GoalTable<A>, goal_id: GoalId)
    ensures
        table.after_cancel(goal_id).goals == table.goals,
{
}

/// To ask twice for a goal to be canceled is to ask once.
pub proof fn cancel_is_idempotent<A: ZAction>(table: GoalTable<A>, goal_id: GoalId)
    ensures
        table.after_cancel(goal_id).after_cancel(goal_id) == table.after_cancel(goal_id),
{
    assert(table.after_cancel(goal_id).after_cancel(goal_id) =~= table.after_cancel(goal_id));
}

/// A client is told that a goal is canceling just when the flag of its execution is raised: the
/// response then names the goal alone. Otherwise the request changes nothing.
pub proof fn cancel_response_is_truthful<A: ZAction>(
    table: GoalTable<A>,
    request: CancelGoalRequest,
    response: CancelGoalResponse,
)
    requires
        crate::driver::answers_cancel(table, request, response),
    ensures
        response.return_code == crate::driver::CANCEL_GRANTED <==> response.goals_canceling@
            == seq![request.goal_info],
        response.return_code == crate::driver::CANCEL_GRANTED ==> {
            let id = request.goal_info.goal_id;
            table.is_executing(id) && table.after_cancel(id).raised.contains(
                table.goals[id]->cancel_flag,
            )
        },
        response.return_code != crate::driver::CANCEL_GRANTED ==> table.after_cancel(
            request.goal_info.goal_id,
        ) == table,
{
}

/// Expiry forgets no goal that is not terminated, whatever its age.
pub proof fn expiry_spares_unfinished_goals<A: ZAction>(
    table: GoalTable<A>,
    goal_id: GoalId,
    now: Instant,
    max_age: Duration,
)
    requires
        table.goals.contains_key(goal_id),
        !(table.goals[goal_id] is Terminated),
    ensures
        table.after_expire(now, max_age).goals.contains_key(goal_id),
        table.after_expire(now, max_age).goals[goal_id] == table.goals[goal_id],
{
}

/// Expiry is thorough: right after it no goal is left to expire, and to expire again changes nothing.
pub proof fn expiry_is_thorough<A: ZAction>(table: GoalTable<A>, now: Instant, max_age: Duration)
    ensures
        forall|id: GoalId| !#[trigger] table.after_expire(now, max_age).has_expired(
            id,
            now,
            max_age,
        ),
        table.after_expire(now, max_age).after_expire(now, max_age) == table.after_expire(
            now,
            max_age,
        ),
{
    assert(table.after_expire(now, max_age).after_expire(now, max_age) =~= table.after_expire(
        now,
        max_age,
    ));
}

/// A goal that has expired is still expired later, and for every smaller age.
pub proof fn expiry_is_monotone<A: ZAction>(
    table: GoalTable<A>,
    goal_id: GoalId,
    now: Instant,
    max_age: Duration,
    later: Instant,
    smaller: Duration,
)
    requires
        table.has_expired(goal_id, now, max_age),
        now@ <= later@,
        smaller@ <= max_age@,
    ensures
        table.has_expired(goal_id, later, smaller),
{
}

/// A client that asks for the result of an expired goal gets no answer.
pub proof fn expired_results_are_gone<A: ZAction>(
    table: GoalTable<A>,
    goal_id: GoalId,
    now: Instant,
    max_age: Duration,
    response: Option<ResultResponse<A>>,
)
    requires
        table.has_expired(goal_id, now, max_age),
        table.after_expire(now, max_age).answers(goal_id, response),
    ensures
        response is None,
{
}

/// The result timeout is what it was last set to, and nothing changes the goal timeout.
pub proof fn timeouts_are_kept<A: ZAction>(table: GoalTable<A>, transition: Transition<A>)
    ensures
        transition.apply(table).result_timeout == match transition {
            Transition::SetResultTimeout { timeout } => timeout,
            _ => table.result_timeout,
        },
        transition.apply(table).goal_timeout == table.goal_timeout,
{
}

/// The result timeout reads back: whatever happens after it was set, it is what it was set to, until
/// it is set again.
pub proof fn result_timeout_reads_back<A: ZAction>(
    table: GoalTable<A>,
    timeout: Duration,
    later: Seq<Transition<A>>,
)
    requires
        sets_no_timeout(later),
    ensures
        apply_all((Transition::SetResultTimeout { timeout }).apply(table), later).result_timeout
            == timeout,
{
    result_timeout_stays((Transition::SetResultTimeout { timeout }).apply(table), later);
}

/// A server whose result timeout was never set has that of its builder.
pub proof fn result_timeout_comes_from_the_builder<A: ZAction>(
    result_timeout: Duration,
    goal_timeout: Option<Duration>,
    later: Seq<Transition<A>>,
)
    requires
        sets_no_timeout(later),
    ensures
        apply_all(
            GoalTable::<A>::initial(result_timeout, goal_timeout),
            later,
        ).result_timeout == result_timeout,
{
    result_timeout_stays(GoalTable::<A>::initial(result_timeout, goal_timeout), later);
}

/// Tells whether no operation of a series sets the result timeout.
pub open spec fn sets_no_timeout<A: ZAction>(transitions: Seq<Transition<A>>) -> bool {
    forall|i: int|
        0 <= i < transitions.len() ==> !((#[trigger] transitions[i]) is SetResultTimeout)
}

proof fn result_timeout_stays<A: ZAction>(table: GoalTable<A>, later: Seq<Transition<A>>)
    requires
        sets_no_timeout(later),
    ensures
        apply_all(table, later).result_timeout == table.result_timeout,
    decreases later.len(),
{
    if later.len() > 0 {
        let front = later.drop_last();
        assert forall|i: int| 0 <= i < front.len() implies !((
        #[trigger] front[i]) is SetResultTimeout) by {
            assert(front[i] == later[i]);
        }
        result_timeout_stays(table, front);
        assert(later[later.len() - 1] == later.last());
    }
}

/// The goal data of a handle is what the client sent, in every state of the goal's life.
pub proof fn goal_data_is_kept<A: ZAction>(
    request: GoalRequest<A>,
    query: QueryId,
    stamp: i64,
    server: ServerView<A>,
    cancel_flag: FlagId,
)
    ensures
        ({
            let requested = HandleView::received(request, query, stamp, server);
            &&& requested.goal == request.goal
            &&& requested.accepted().goal == request.goal
            &&& requested.accepted().executing(cancel_flag).goal == request.goal
        }),
{
}

/// The info of a handle has the id that the client sent and the stamp of the goal's receipt, in every
/// state of the goal's life, and the goal belongs to one server throughout.
pub proof fn goal_info_is_kept<A: ZAction>(
    request: GoalRequest<A>,
    query: QueryId,
    stamp: i64,
    server: ServerView<A>,
    cancel_flag: FlagId,
)
    ensures
        ({
            let requested = HandleView::received(request, query, stamp, server);
            &&& requested.info.goal_id == request.goal_id
            &&& requested.info.stamp == stamp
            &&& requested.accepted().info == requested.info
            &&& requested.accepted().executing(cancel_flag).info == requested.info
            &&& requested.belongs_to(server)
            &&& requested.accepted().belongs_to(server)
            &&& requested.accepted().executing(cancel_flag).belongs_to(server)
        }),
{
}

/// A goal that the driver starts runs and belongs to the server, its executor watches the flag that
/// a cancel request for the goal raises, that flag is down, and every other goal is as it was.
pub proof fn started_goal_can_be_canceled<A: ZAction>(
    before: ServerView<A>,
    after: ServerView<A>,
    request: GoalRequest<A>,
    query: QueryId,
    at: Reading,
    start: GoalStart<A>,
)
    requires
        crate::driver::goal_started(before, after, request, query, at, start),
    ensures
        start.goal@.belongs_to(after),
        after.table.is_executing(request.goal_id),
        start.goal@.cancel_flag == Some(after.table.goals[request.goal_id]->cancel_flag),
        !start.goal@.is_cancel_requested(after.table),
        start.goal@.is_cancel_requested(after.table.after_cancel(request.goal_id)),
        forall|id: GoalId|
            id != request.goal_id ==> (#[trigger] after.table.goals.contains_key(id)
                <==> before.table.goals.contains_key(id)) && after.table.goals[id]
                == before.table.goals[id],
{
}

/// A driver that has stopped stays stopped, and no event that reaches it has any effect.
pub proof fn stopped_driver_has_no_effect<A: ZAction>(
    before: Driver,
    after: Driver,
    server_before: ServerView<A>,
    server_after: ServerView<A>,
    event: DriverEvent<A>,
    at: Reading,
    action: DriverAction<A>,
)
    requires
        !before.running,
        Driver::turned(before, after, server_before, server_after, event, at, action),
    ensures
        !after.running,
        action is Stop,
        server_after == server_before,
{
}

/// Only a shutdown stops a driver.
pub proof fn only_shutdown_stops_a_driver<A: ZAction>(
    before: Driver,
    after: Driver,
    server_before: ServerView<A>,
    server_after: ServerView<A>,
    event: DriverEvent<A>,
    at: Reading,
    action: DriverAction<A>,
)
    requires
        before.running,
        Driver::turned(before, after, server_before, server_after, event, at, action),
    ensures
        after.running <==> !(event is Shutdown),
        action is Stop <==> event is Shutdown,
{
}

/// Shutdown has priority: once it is under way a driver stops, whatever request waits, and does
/// nothing about that request.
pub proof fn shutdown_goes_first<A: ZAction>(
    waiting: Option<DriverEvent<A>>,
    before: Driver,
    after: Driver,
    server_before: ServerView<A>,
    server_after: ServerView<A>,
    event: DriverEvent<A>,
    at: Reading,
    action: DriverAction<A>,
)
    requires
        Some(event) == crate::driver::spec_next_event(true, waiting),
        Driver::turned(before, after, server_before, server_after, event, at, action),
    ensures
        !after.running,
        action is Stop,
        server_after == server_before,
{
}

/// The answer that a client is sent before its goal is set running is the one that comes of setting
/// it running.
pub proof fn goal_reply_can_be_sent_first<A: ZAction>(
    before: Driver,
    after: Driver,
    server_before: ServerView<A>,
    server_after: ServerView<A>,
    event: DriverEvent<A>,
    at: Reading,
    action: DriverAction<A>,
)
    requires
        before.running,
        Driver::turned(before, after, server_before, server_after, event, at, action),
    ensures
        match action {
            DriverAction::Start(start) => start.reply == event.spec_goal_reply(at),
            _ => event.spec_goal_reply(at) is None,
        },
{
}

/// One turn of a driver.
pub struct DriverTurn<A: ZAction> {
    pub before: Driver,
    pub after: Driver,
    pub server_before: ServerView<A>,
    pub server_after: ServerView<A>,
    pub event: DriverEvent<A>,
    pub at: Reading,
    pub action: DriverAction<A>,
}

/// A request that a driver has to deal with. A goal request is known by its goal and its query.
pub enum RequestKind {
    Goal { goal_id: GoalId, query: QueryId },
    Cancel,
    Result,
}

impl<A: ZAction> DriverTurn<A> {
    /// Tells whether the turn is one that a driver can take.
    pub open spec fn is_taken(self) -> bool {
        Driver::turned(
            self.before,
            self.after,
            self.server_before,
            self.server_after,
            self.event,
            self.at,
            self.action,
        )
    }

    /// The request that the loop takes from a channel in this turn. A loop that has stopped takes
    /// none.
    pub open spec fn request(self) -> Option<RequestKind> {
        if !self.before.running {
            None
        } else {
            match self.event {
                DriverEvent::Goal(Some((request, query))) => Some(
                    RequestKind::Goal { goal_id: request.goal_id, query },
                ),
                DriverEvent::Cancel(Some(_)) => Some(RequestKind::Cancel),
                DriverEvent::Result(Some(_)) => Some(RequestKind::Result),
                _ => None,
            }
        }
    }

    /// The request that is dealt with by the action of this turn.
    pub open spec fn service(self) -> Option<RequestKind> {
        match self.action {
            DriverAction::Start(start) => Some(
                RequestKind::Goal {
                    goal_id: start.goal@.info.goal_id,
                    query: start.reply->0.query,
                },
            ),
            DriverAction::ReplyCancel(_) => Some(RequestKind::Cancel),
            DriverAction::ReplyResult(_) => Some(RequestKind::Result),
            DriverAction::Stop | DriverAction::Wait => None,
        }
    }

    /// Tells whether the action of this turn is the right answer to its request, if it has one.
    pub open spec fn is_answered(self) -> bool {
        match self.event {
            DriverEvent::Goal(Some((request, query))) => {
                &&& self.action matches DriverAction::Start(start)
                &&& crate::driver::goal_started(
                    self.server_before,
                    self.server_after,
                    request,
                    query,
                    self.at,
                    start,
                )
            },
            DriverEvent::Cancel(Some(request)) => {
                &&& self.action matches DriverAction::ReplyCancel(response)
                &&& crate::driver::answers_cancel(self.server_before.table, request, response)
            },
            DriverEvent::Result(Some(request)) => {
                &&& self.action matches DriverAction::ReplyResult(response)
                &&& self.server_before.table.answers(request.goal_id, response)
            },
            _ => true,
        }
    }
}

/// Tells whether `turns` is a run of a driver that sets out: each turn begins with the driver that
/// the turn before has left. Between two turns others may have worked on the server.
pub open spec fn is_driver_run<A: ZAction>(turns: Seq<DriverTurn<A>>) -> bool {
    &&& forall|i: int| 0 <= i < turns.len() ==> (#[trigger] turns[i]).is_taken()
    &&& turns.len() > 0 ==> turns[0].before.running
    &&& forall|i: int, j: int|
        0 <= i < j < turns.len() && j == i + 1 ==> (#[trigger] turns[i]).after == (
        #[trigger] turns[j]).before
}

/// Tells whether there is a shutdown among the first `n` turns of a run.
pub open spec fn shut_down_within<A: ZAction>(turns: Seq<DriverTurn<A>>, n: int) -> bool {
    exists|i: int| 0 <= i < n && i < turns.len() && (#[trigger] turns[i]).event is Shutdown
}

/// A driver goes on until the first shutdown and no longer. Up to it no event makes it stop, and a
/// channel that cannot be read makes it do nothing; after it no event has any effect.
pub proof fn driver_runs_until_shutdown<A: ZAction>(turns: Seq<DriverTurn<A>>)
    requires
        is_driver_run(turns),
    ensures
        forall|i: int|
            0 <= i < turns.len() ==> {
                let turn = #[trigger] turns[i];
                &&& turn.before.running <==> !shut_down_within(turns, i)
                &&& turn.after.running <==> !shut_down_within(turns, i + 1)
                &&& turn.action is Stop <==> shut_down_within(turns, i + 1)
                &&& shut_down_within(turns, i + 1) ==> turn.server_after == turn.server_before
                &&& turn.request() is None ==> turn.action is Stop || turn.action is Wait
                &&& turn.request() is None ==> turn.server_after == turn.server_before
            },
{
    assert forall|i: int| 0 <= i < turns.len() implies {
        let turn = #[trigger] turns[i];
        &&& turn.before.running <==> !shut_down_within(turns, i)
        &&& turn.after.running <==> !shut_down_within(turns, i + 1)
    } by {
        driver_runs_up_to(turns, i);
    }
}

proof fn driver_runs_up_to<A: ZAction>(turns: Seq<DriverTurn<A>>, i: int)
    requires
        is_driver_run(turns),
        0 <= i < turns.len(),
    ensures
        turns[i].before.running <==> !shut_down_within(turns, i),
        turns[i].after.running <==> !shut_down_within(turns, i + 1),
    decreases i,
{
    assert(turns[i].is_taken());
    if i > 0 {
        driver_runs_up_to(turns, i - 1);
        assert(turns[i - 1].after == turns[i].before);
    }
    if turns[i].event is Shutdown {
        assert(shut_down_within(turns, i + 1));
    }
    if shut_down_within(turns, i) {
        let j = choose|j: int|
            0 <= j < i && j < turns.len() && (#[trigger] turns[j]).event is Shutdown;
        assert(turns[j].event is Shutdown);
        assert(shut_down_within(turns, i + 1));
    }
}

/// The requests that a run takes, in order.
pub open spec fn requests<A: ZAction>(turns: Seq<DriverTurn<A>>) -> Seq<RequestKind>
    decreases turns.len(),
{
    if turns.len() == 0 {
        Seq::empty()
    } else {
        match turns.last().request() {
            Some(request) => requests(turns.drop_last()).push(request),
            None => requests(turns.drop_last()),
        }
    }
}

/// The requests that are dealt with by the actions of a run, in order.
pub open spec fn services<A: ZAction>(turns: Seq<DriverTurn<A>>) -> Seq<RequestKind>
    decreases turns.len(),
{
    if turns.len() == 0 {
        Seq::empty()
    } else {
        match turns.last().service() {
            Some(service) => services(turns.drop_last()).push(service),
            None => services(turns.drop_last()),
        }
    }
}

/// A driver deals with every request that it takes, with each of them once, in the order in which it
/// takes them and one at a time: in its own turn, and as its kind asks for.
pub proof fn driver_serves_each_request_once<A: ZAction>(turns: Seq<DriverTurn<A>>)
    requires
        is_driver_run(turns),
    ensures
        services(turns) == requests(turns),
        forall|i: int|
            0 <= i < turns.len() ==> {
                let turn = #[trigger] turns[i];
                &&& turn.service() == turn.request()
                &&& turn.request() is Some ==> turn.is_answered()
            },
{
    assert forall|i: int| 0 <= i < turns.len() implies {
        let turn = #[trigger] turns[i];
        &&& turn.service() == turn.request()
        &&& turn.request() is Some ==> turn.is_answered()
    } by {
        assert(turns[i].is_taken());
    }
    services_match(turns);
}

proof fn services_match<A: ZAction>(turns: Seq<DriverTurn<A>>)
    requires
        forall|i: int|
            0 <= i < turns.len() ==> (#[trigger] turns[i]).service() == turns[i].request(),
    ensures
        services(turns) == requests(turns),
    decreases turns.len(),
{
    if turns.len() > 0 {
        let front = turns.drop_last();
        assert forall|i: int| 0 <= i < front.len() implies (#[trigger] front[i]).service()
            == front[i].request() by {
            assert(front[i] == turns[i]);
        }
        services_match(front);
        assert(turns[turns.len() - 1] == turns.last());
    }
}

/// Only a shutdown or a driver that takes over stops a result handler.
pub proof fn result_handler_goes_on_until_told<A: ZAction>(
    before: ResultHandler,
    after: ResultHandler,
    table: GoalTable<A>,
    event: ResultHandlerEvent,
    response: Option<ResultResponse<A>>,
)
    requires
        before.running,
        ResultHandler::turned(before, after, table, event, response),
    ensures
        after.running <==> event is Request,
{
}

/// A result handler that has stopped stays stopped and answers nothing.
pub proof fn stopped_result_handler_is_silent<A: ZAction>(
    before: ResultHandler,
    after: ResultHandler,
    table: GoalTable<A>,
    event: ResultHandlerEvent,
    response: Option<ResultResponse<A>>,
)
    requires
        !before.running,
        ResultHandler::turned(before, after, table, event, response),
    ensures
        !after.running,
        response is None,
{
}

/// A result request is answered alike in manual and in automatic mode: in both or in neither, with
/// the same status, and with clones of the same result.
pub proof fn both_modes_answer_alike<A: ZAction>(
    handler: ResultHandler,
    handler_after: ResultHandler,
    driver: Driver,
    driver_after: Driver,
    server_before: ServerView<A>,
    server_after: ServerView<A>,
    request: ResultRequest,
    at: Reading,
    response: Option<ResultResponse<A>>,
    action: DriverAction<A>,
)
    requires
        handler.running,
        driver.running,
        ResultHandler::turned(
            handler,
            handler_after,
            server_before.table,
            ResultHandlerEvent::Request(Some(request)),
            response,
        ),
        Driver::turned(
            driver,
            driver_after,
            server_before,
            server_after,
            DriverEvent::Result(Some(request)),
            at,
            action,
        ),
    ensures
        match response {
            Some(manual) => {
                &&& action matches DriverAction::ReplyResult(Some(automatic))
                &&& manual.status == automatic.status
                &&& exists|result: A::Result|
                    cloned(result, manual.result) && #[trigger] cloned(result, automatic.result)
            },
            None => action matches DriverAction::ReplyResult(None),
        },
{
}

/// How a build that has come to `next` ends, if the node answers as in `created` and the build is
/// left alone after that.
pub open spec fn build_end<E>(next: Endpoint, created: Seq<Result<(), E>>) -> CreationStep<E>
    decreases created.len(),
{
    if created.len() == 0 {
        CreationStep::Next(next)
    } else {
        match crate::builder::creation_step(next, created[0]) {
            CreationStep::Next(after) => build_end(after, created.drop_first()),
            end => end,
        }
    }
}

/// A server is built just when the node creates all five endpoints, and the first refusal ends the
/// build with its error, whatever would come after it.
pub proof fn build_needs_every_endpoint<E>(created: Seq<Result<(), E>>)
    requires
        created.len() == crate::naming::creation_order().len(),
    ensures
        build_end(Endpoint::Goal, created) is Complete <==> forall|i: int|
            0 <= i < created.len() ==> #[trigger] created[i] is Ok,
        forall|i: int|
            0 <= i < created.len() && #[trigger] created[i] is Err && (forall|j: int|
                0 <= j < i ==> #[trigger] created[j] is Ok) ==> build_end(Endpoint::Goal, created)
                == CreationStep::Refused(created[i]->Err_0),
{
    reveal_with_fuel(build_end, 6);
    let second = created.drop_first();
    let third = second.drop_first();
    let fourth = third.drop_first();
    let fifth = fourth.drop_first();
    assert(second[0] == created[1]);
    assert(third[0] == created[2]);
    assert(fourth[0] == created[3]);
    assert(fifth[0] == created[4]);
}

} // verus!
