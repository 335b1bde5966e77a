//! The goals that a server knows, and the state of each.

use std::collections::{HashMap, HashSet};
use vstd::prelude::*;

use crate::action::{GoalId, GoalInfo, GoalStatus, ZAction};
use crate::messages::{GoalStatusInfo, ResultResponse, StatusMessage};
use crate::time::{Duration, Instant};

verus! {

/// Identifies the cancel flag of one execution of a goal.
pub type FlagId = u64;

/// Where a goal stands.
pub enum ServerGoalState<A: ZAction> {
    /// The goal was accepted and does not run yet.
    Accepted { goal: A::Goal, timestamp: Instant, expires_at: Option<Instant> },
    /// The goal runs. Its executor watches the cancel flag.
    Executing { goal: A::Goal, cancel_flag: FlagId, expires_at: Option<Instant> },
    /// The goal is being canceled.
    Canceling { goal: A::Goal },
    /// The goal has come to its end, at `timestamp`.
    Terminated { result: A::Result, status: GoalStatus, timestamp: Instant },
}

impl<A: ZAction> ServerGoalState<A> {
    /// The status that is reported for a goal in this state.
    pub open spec fn spec_status(self) -> GoalStatus {
        match self {
            ServerGoalState::Accepted { .. } => GoalStatus::Accepted,
            ServerGoalState::Executing { .. } => GoalStatus::Executing,
            ServerGoalState::Canceling { .. } => GoalStatus::Canceling,
            ServerGoalState::Terminated { status, .. } => status,
        }
    }

    /// A goal has expired once it has been terminated for longer than `max_age`.
    pub open spec fn spec_has_expired(self, now: Instant, max_age: Duration) -> bool {
        self matches ServerGoalState::Terminated { timestamp, .. } && Instant::elapsed(
            now,
            timestamp,
        ) > max_age@
    }

    /// The status that is reported for a goal in this state.
    pub fn status(&self) -> (status: GoalStatus)
        ensures
            status == self.spec_status(),
            self is Accepted ==> status == GoalStatus::Accepted,
            self is Executing ==> status == GoalStatus::Executing,
            self is Canceling ==> status == GoalStatus::Canceling,
            self is Terminated ==> status == self->status,
    {
        match self {
            ServerGoalState::Accepted { .. } => GoalStatus::Accepted,
            ServerGoalState::Executing { .. } => GoalStatus::Executing,
            ServerGoalState::Canceling { .. } => GoalStatus::Canceling,
            ServerGoalState::Terminated { status, .. } => *status,
        }
    }

    /// Tells whether the goal has been terminated for longer than `max_age`.
    pub fn has_expired(&self, now: Instant, max_age: Duration) -> (expired: bool)
        ensures
            expired == self.spec_has_expired(now, max_age),
            expired <==> self is Terminated && self->Terminated_timestamp.nanos + max_age.nanos
                < now.nanos,
    {
        match self {
            ServerGoalState::Terminated { timestamp, .. } => {
                now.duration_since(*timestamp).nanos > max_age.nanos
            },
            _ => false,
        }
    }
}

/// The mathematical content of a [`GoalManager`].
#[verifier::ext_equal]
pub struct GoalTable<A: ZAction> {
    /// The state of each goal that the server knows.
    pub goals: Map<GoalId, ServerGoalState<A>>,
    /// The cancel flags that are up.
    pub raised: Set<FlagId>,
    /// The flag that the next execution gets.
    pub next_flag: FlagId,
    pub result_timeout: Duration,
    pub goal_timeout: Option<Duration>,
}

impl<A: ZAction> GoalTable<A> {
    /// The table of a server that has seen no goal.
    pub open spec fn initial(result_timeout: Duration, goal_timeout: Option<Duration>) -> Self {
        GoalTable {
            goals: Map::empty(),
            raised: Set::empty(),
            next_flag: 0,
            result_timeout,
            goal_timeout,
        }
    }

    /// Tells whether the clock can represent the deadline of a goal that sets out at `now`.
    pub open spec fn deadline_fits(self, now: Instant) -> bool {
        self.goal_timeout matches Some(timeout) ==> now.can_add(timeout)
    }

    /// The deadline of a goal that sets out at `now`.
    pub open spec fn deadline(self, now: Instant) -> Option<Instant> {
        match self.goal_timeout {
            Some(timeout) => Some(now.plus(timeout)),
            None => None,
        }
    }

    /// Tells whether a flag is left for one more execution.
    pub open spec fn has_free_flag(self) -> bool {
        self.next_flag < FlagId::MAX
    }

    /// The table after `goal` was accepted.
    pub open spec fn after_accept(self, goal_id: GoalId, goal: A::Goal, now: Instant) -> Self {
        GoalTable {
            goals: self.goals.insert(
                goal_id,
                ServerGoalState::Accepted {
                    goal,
                    timestamp: now,
                    expires_at: self.deadline(now),
                },
            ),
            ..self
        }
    }

    /// The table after `goal` set out to run, with a cancel flag of its own that is down.
    pub open spec fn after_execute(self, goal_id: GoalId, goal: A::Goal, now: Instant) -> Self {
        GoalTable {
            goals: self.goals.insert(
                goal_id,
                ServerGoalState::Executing {
                    goal,
                    cancel_flag: self.next_flag,
                    expires_at: self.deadline(now),
                },
            ),
            raised: self.raised.remove(self.next_flag),
            next_flag: (self.next_flag + 1) as FlagId,
            ..self
        }
    }

    /// The table after a goal came to its end. The flag of its execution is given up.
    pub open spec fn after_terminate(
        self,
        goal_id: GoalId,
        cancel_flag: Option<FlagId>,
        result: A::Result,
        status: GoalStatus,
        now: Instant,
    ) -> Self {
        GoalTable {
            goals: self.goals.insert(
                goal_id,
                ServerGoalState::Terminated { result, status, timestamp: now },
            ),
            raised: match cancel_flag {
                Some(flag) => self.raised.remove(flag),
                None => self.raised,
            },
            ..self
        }
    }

    /// Tells whether a goal runs.
    pub open spec fn is_executing(self, goal_id: GoalId) -> bool {
        self.goals.contains_key(goal_id) && self.goals[goal_id] is Executing
    }

    /// The table after a request to cancel a goal: the flag of a running goal goes up, and nothing
    /// else changes.
    pub open spec fn after_cancel(self, goal_id: GoalId) -> Self {
        if self.is_executing(goal_id) {
            GoalTable {
                raised: self.raised.insert(self.goals[goal_id]->cancel_flag),
                ..self
            }
        } else {
            self
        }
    }

    /// Tells whether a goal is known and has expired.
    pub open spec fn has_expired(self, goal_id: GoalId, now: Instant, max_age: Duration) -> bool {
        self.goals.contains_key(goal_id) && self.goals[goal_id].spec_has_expired(now, max_age)
    }

    /// The table without the goals that have expired.
    pub open spec fn after_expire(self, now: Instant, max_age: Duration) -> Self {
        GoalTable {
            goals: Map::new(
                |id: GoalId| self.goals.contains_key(id) && !self.has_expired(id, now, max_age),
                |id: GoalId| self.goals[id],
            ),
            ..self
        }
    }

    /// Every flag that is up, and every flag of a running goal, was handed out before, and no two
    /// running goals share a flag.
    pub open spec fn flags_are_sound(self) -> bool {
        &&& forall|flag: FlagId| #[trigger] self.raised.contains(flag) ==> flag < self.next_flag
        &&& forall|id: GoalId| #[trigger]
            self.is_executing(id) ==> self.goals[id]->cancel_flag < self.next_flag
        &&& forall|id: GoalId, other: GoalId|
            #[trigger] self.is_executing(id) && #[trigger] self.is_executing(other) && id != other
                ==> self.goals[id]->cancel_flag != self.goals[other]->cancel_flag
    }

    /// The status of every terminated goal is that of a goal which succeeded, was aborted or was
    /// canceled.
    pub open spec fn ends_are_terminal(self) -> bool {
        forall|id: GoalId| #[trigger]
            self.goals.contains_key(id) && self.goals[id] is Terminated
                ==> self.goals[id].spec_status().is_terminal()
    }

    /// What holds of the goals of every server at all times.
    pub open spec fn is_sound(self) -> bool {
        self.flags_are_sound() && self.ends_are_terminal()
    }

    /// Tells whether `list` reports every known goal, each of them once, with its status.
    pub open spec fn is_reported_by(self, list: Seq<GoalStatusInfo>, stamp: i64) -> bool {
        &&& forall|i: int|
            0 <= i < list.len() ==> {
                let info = (#[trigger] list[i]).goal_info;
                &&& info.stamp == stamp
                &&& self.goals.contains_key(info.goal_id)
                &&& list[i].status == self.goals[info.goal_id].spec_status()
            }
        &&& forall|i: int, j: int|
            0 <= i < j < list.len() ==> (#[trigger] list[i]).goal_info.goal_id != (
            #[trigger] list[j]).goal_info.goal_id
        &&& forall|id: GoalId| #[trigger]
            self.goals.contains_key(id) ==> exists|i: int|
                0 <= i < list.len() && (#[trigger] list[i]).goal_info.goal_id == id
    }

    /// Tells whether `response` is what a client is told that asks for the result of a goal: its
    /// result and status once it is terminated, and nothing before.
    pub open spec fn answers(self, goal_id: GoalId, response: Option<ResultResponse<A>>) -> bool {
        if self.goals.contains_key(goal_id) && self.goals[goal_id] is Terminated {
            response matches Some(r) && r.status == self.goals[goal_id]->status && cloned(
                self.goals[goal_id]->result,
                r.result,
            )
        } else {
            response is None
        }
    }
}

/// Keeps track of the goals of a server.
pub struct GoalManager<A: ZAction> {
    goals: HashMap<GoalId, ServerGoalState<A>>,
    raised: HashSet<FlagId>,
    next_flag: FlagId,
    result_timeout: Duration,
    goal_timeout: Option<Duration>,
}

impl<A: ZAction> View for GoalManager<A> {
    type V = GoalTable<A>;

    closed spec fn view(&self) -> GoalTable<A> {
        GoalTable {
            goals: self.goals@,
            raised: self.raised@,
            next_flag: self.next_flag,
            result_timeout: self.result_timeout,
            goal_timeout: self.goal_timeout,
        }
    }
}

impl<A: ZAction> GoalManager<A> {
    #[verifier::type_invariant]
    spec fn is_well_formed(self) -> bool {
        self@.is_sound()
    }

    /// A manager that knows no goal.
    pub(crate) fn new(result_timeout: Duration, goal_timeout: Option<Duration>) -> (manager: Self)
        ensures
            manager@ == GoalTable::<A>::initial(result_timeout, goal_timeout),
            manager@.is_sound(),
    {
        GoalManager {
            goals: HashMap::new(),
            raised: HashSet::new(),
            next_flag: 0,
            result_timeout,
            goal_timeout,
        }
    }

    /// Tells whether the clock can represent the deadline of a goal that sets out at `now`.
    pub(crate) fn deadline_fits(&self, now: Instant) -> (fits: bool)
        ensures
            fits == self@.deadline_fits(now),
    {
        match self.goal_timeout {
            Some(timeout) => now.has_room_for(timeout),
            None => true,
        }
    }

    /// Tells whether a flag is left for one more execution.
    pub(crate) fn has_free_flag(&self) -> (free: bool)
        ensures
            free == self@.has_free_flag(),
    {
        self.next_flag < FlagId::MAX
    }

    fn deadline(&self, now: Instant) -> (deadline: Option<Instant>)
        requires
            self@.deadline_fits(now),
        ensures
            deadline == self@.deadline(now),
    {
        match self.goal_timeout {
            Some(timeout) => Some(now.after(timeout)),
            None => None,
        }
    }

    /// Takes the goals out, to be put back changed.
    fn take_goals(&mut self) -> (goals: HashMap<GoalId, ServerGoalState<A>>)
        ensures
            goals@ == old(self)@.goals,
            final(self)@ == (GoalTable { goals: Map::empty(), ..old(self)@ }),
            old(self)@.is_sound(),
    {
        proof {
            use_type_invariant(&*self);
        }
        let mut goals = HashMap::new();
        std::mem::swap(&mut goals, &mut self.goals);
        goals
    }

    /// Takes the raised flags out, to be put back changed.
    fn take_raised(&mut self) -> (raised: HashSet<FlagId>)
        ensures
            raised@ == old(self)@.raised,
            final(self)@ == (GoalTable { raised: Set::empty(), ..old(self)@ }),
            old(self)@.is_sound(),
    {
        proof {
            use_type_invariant(&*self);
            let lowered = GoalTable { raised: Set::empty(), ..self@ };
            assert forall|id: GoalId| #[trigger] lowered.is_executing(id) implies self@.is_executing(
                id,
            ) by {}
            assert(lowered.is_sound());
        }
        let mut raised = HashSet::new();
        std::mem::swap(&mut raised, &mut self.raised);
        raised
    }

    /// Notes that a goal was accepted.
    pub(crate) fn accept(&mut self, goal_id: GoalId, goal: A::Goal, now: Instant)
        requires
            old(self)@.deadline_fits(now),
        ensures
            final(self)@ == old(self)@.after_accept(goal_id, goal, now),
            final(self)@.is_sound(),
    {
        let expires_at = self.deadline(now);
        let mut goals = self.take_goals();
        goals.insert(goal_id, ServerGoalState::Accepted { goal, timestamp: now, expires_at });
        proof {
            crate::laws::tables_stay_sound(old(self)@, crate::laws::Transition::Accept { goal_id, goal, now });
        }
        self.goals = goals;
    }

    /// Notes that a goal sets out to run, and returns the flag by which it can be canceled.
    pub(crate) fn execute(&mut self, goal_id: GoalId, goal: A::Goal, now: Instant) -> (flag: FlagId)
        requires
            old(self)@.deadline_fits(now),
            old(self)@.has_free_flag(),
        ensures
            flag == old(self)@.next_flag,
            final(self)@ == old(self)@.after_execute(goal_id, goal, now),
            old(self)@.is_sound(),
            final(self)@.is_sound(),
    {
        let cancel_flag: FlagId = self.next_flag;
        let expires_at = self.deadline(now);
        let mut goals = self.take_goals();
        let mut raised = self.take_raised();
        self.next_flag = self.next_flag + 1;
        raised.remove(&cancel_flag);
        self.raised = raised;
        goals.insert(goal_id, ServerGoalState::Executing { goal, cancel_flag, expires_at });
        proof {
            crate::laws::tables_stay_sound(old(self)@, crate::laws::Transition::Execute { goal_id, goal, now });
        }
        self.goals = goals;
        cancel_flag
    }

    /// Notes that a goal has come to its end, and gives up the flag of its execution.
    pub(crate) fn terminate(
        &mut self,
        goal_id: GoalId,
        cancel_flag: Option<FlagId>,
        result: A::Result,
        status: GoalStatus,
        now: Instant,
    )
        requires
            status.is_terminal(),
        ensures
            final(self)@ == old(self)@.after_terminate(goal_id, cancel_flag, result, status, now),
            final(self)@.is_sound(),
    {
        let mut goals = self.take_goals();
        if let Some(flag) = cancel_flag {
            let mut raised = self.take_raised();
            raised.remove(&flag);
            self.raised = raised;
        }
        goals.insert(goal_id, ServerGoalState::Terminated { result, status, timestamp: now });
        proof {
            crate::laws::tables_stay_sound(
                old(self)@,
                crate::laws::Transition::Terminate { goal_id, cancel_flag, result, status, now },
            );
        }
        self.goals = goals;
    }

    /// Raises the cancel flag of a goal, if the goal runs.
    pub(crate) fn request_cancel(&mut self, goal_id: GoalId) -> (raised: bool)
        ensures
            raised == old(self)@.is_executing(goal_id),
            final(self)@ == old(self)@.after_cancel(goal_id),
            final(self)@.is_sound(),
    {
        proof {
            use_type_invariant(&*self);
            crate::laws::tables_stay_sound(self@, crate::laws::Transition::Cancel { goal_id });
        }
        let flag: FlagId = match self.goals.get(&goal_id) {
            Some(ServerGoalState::Executing { cancel_flag, .. }) => *cancel_flag,
            _ => {
                return false;
            },
        };
        let mut raised = self.take_raised();
        raised.insert(flag);
        self.raised = raised;
        true
    }

    /// Tells whether a cancel flag is up.
    pub(crate) fn is_raised(&self, flag: FlagId) -> (raised: bool)
        ensures
            raised == self@.raised.contains(flag),
    {
        self.raised.contains(&flag)
    }

    /// The result and status of a goal, once it is terminated.
    pub(crate) fn result(&self, goal_id: GoalId) -> (response: Option<ResultResponse<A>>)
        ensures
            self@.answers(goal_id, response),
    {
        match self.goals.get(&goal_id) {
            Some(ServerGoalState::Terminated { result, status, .. }) => {
                Some(ResultResponse { status: *status, result: result.clone() })
            },
            _ => None,
        }
    }

    /// Sets the result timeout.
    pub(crate) fn set_result_timeout(&mut self, timeout: Duration)
        ensures
            final(self)@ == (GoalTable { result_timeout: timeout, ..old(self)@ }),
            final(self)@.is_sound(),
    {
        proof {
            use_type_invariant(&*self);
            crate::laws::tables_stay_sound(self@, crate::laws::Transition::SetResultTimeout { timeout });
        }
        self.result_timeout = timeout;
    }

    /// The result timeout.
    pub(crate) fn result_timeout(&self) -> (timeout: Duration)
        ensures
            timeout == self@.result_timeout,
    {
        self.result_timeout
    }

    /// The ids of all goals, in no particular order.
    fn goal_ids(&self) -> (ids: Vec<GoalId>)
        ensures
            ids@.no_duplicates(),
            forall|id: GoalId| #[trigger] ids@.contains(id) <==> self@.goals.contains_key(id),
    {
        let mut ids: Vec<GoalId> = Vec::new();
        for goal_id in it: self.goals.keys()
            invariant
                it.seq().no_duplicates(),
                it.seq().unref().to_set() == self.goals@.dom(),
                ids@ == it.seq().unref().take(it.index()),
                it.index() == it.seq().len() ==> ids@ == it.seq().unref(),
        {
            ids.push(*goal_id);
        }
        assert forall|id: GoalId| #[trigger] ids@.contains(id) <==> self@.goals.contains_key(id) by {
            assert(ids@.to_set().contains(id) == self.goals@.dom().contains(id));
        }
        ids
    }

    /// The status of every goal, in no particular order, each stamped with `stamp`.
    pub(crate) fn status_message(&self, stamp: i64) -> (message: StatusMessage)
        ensures
            self@.is_reported_by(message.status_list@, stamp),
    {
        let ids = self.goal_ids();
        let mut status_list: Vec<GoalStatusInfo> = Vec::new();
        for i in 0..ids.len()
            invariant
                forall|id: GoalId| #[trigger] ids@.contains(id) <==> self.goals@.contains_key(id),
                status_list@.len() == i,
                forall|k: int|
                    0 <= k < i ==> #[trigger] status_list@[k] == (GoalStatusInfo {
                        goal_info: GoalInfo { goal_id: ids@[k], stamp },
                        status: self.goals@[ids@[k]].spec_status(),
                    }),
        {
            assert(ids@.contains(ids@[i as int]));
            if let Some(state) = self.goals.get(&ids[i]) {
                status_list.push(
                    GoalStatusInfo {
                        goal_info: GoalInfo::new(ids[i], stamp),
                        status: state.status(),
                    },
                );
            }
        }
        assert forall|k: int| 0 <= k < status_list@.len() implies self@.goals.contains_key(
            (#[trigger] status_list@[k]).goal_info.goal_id,
        ) by {
            assert(ids@.contains(ids@[k]));
        }
        assert forall|id: GoalId| #[trigger] self@.goals.contains_key(id) implies exists|k: int|
            0 <= k < status_list@.len() && (#[trigger] status_list@[k]).goal_info.goal_id == id by {
            let k = ids@.index_of(id);
            assert(ids@.contains(id));
            assert(status_list@[k].goal_info.goal_id == id);
        }
        StatusMessage { status_list }
    }

    /// Forgets the goals that have been terminated for longer than `max_age`, and returns their
    /// ids, in no particular order.
    pub(crate) fn expire(&mut self, max_age: Duration, now: Instant) -> (expired: Vec<GoalId>)
        ensures
            expired@.no_duplicates(),
            forall|id: GoalId| #[trigger]
                expired@.contains(id) <==> old(self)@.has_expired(id, now, max_age),
            final(self)@ == old(self)@.after_expire(now, max_age),
            final(self)@.is_sound(),
    {
        let ids = self.goal_ids();
        let mut goals = self.take_goals();
        let mut expired: Vec<GoalId> = Vec::new();
        for i in 0..ids.len()
            invariant
                ids@.no_duplicates(),
                forall|id: GoalId| #[trigger]
                    ids@.contains(id) <==> old(self)@.goals.contains_key(id),
                expired@.no_duplicates(),
                forall|id: GoalId| #[trigger]
                    expired@.contains(id) <==> ids@.take(i as int).contains(id)
                        && old(self)@.has_expired(id, now, max_age),
                forall|id: GoalId| #[trigger]
                    goals@.contains_key(id) <==> old(self)@.goals.contains_key(id)
                        && !expired@.contains(id),
                forall|id: GoalId|
                    goals@.contains_key(id) ==> #[trigger] goals@[id] == old(self)@.goals[id],
        {
            broadcast use vstd::seq_lib::group_seq_properties;

            let goal_id: GoalId = ids[i];
            assert(ids@.take(i + 1) == ids@.take(i as int).push(goal_id));
            assert(!ids@.take(i as int).contains(goal_id));
            assert(ids@.contains(goal_id));
            let expires: bool = match goals.get(&goal_id) {
                Some(state) => state.has_expired(now, max_age),
                None => false,
            };
            if expires {
                goals.remove(&goal_id);
                expired.push(goal_id);
            }
        }
        assert(ids@.take(ids@.len() as int) == ids@);
        proof {
            assert(goals@ == old(self)@.after_expire(now, max_age).goals);
            crate::laws::tables_stay_sound(old(self)@, crate::laws::Transition::Expire { now, max_age });
        }
        self.goals = goals;
        expired
    }
}

} // verus!
