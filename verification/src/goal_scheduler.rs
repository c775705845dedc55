//! Adaptive goal scheduling driven by event subscriptions and review timers.

use vstd::prelude::*;

use crate::clock::{now_millis, Timestamp};
use crate::text::{is_prefix, str_eq, str_starts_with};

verus! {

/// Identifier of a goal (the 128-bit value of its UUID).
pub type GoalId = u128;

/// Priority of a goal.
#[derive(Debug, Clone, Copy, PartialEq, Eq, Structural)]
pub enum GoalPriority {
    Critical,
    High,
    Normal,
    Low,
}

/// A subscription ties a goal to the event types that should wake it.
#[derive(Debug)]
pub struct EventSubscription {
    /// Exact or prefix event type string (e.g. "brain.goal.completed", "runtime.task.").
    pub pattern: String,
    /// If true, `pattern` is treated as a prefix match.
    pub prefix_match: bool,
}

/// Does `sub` match the event type `ev`?
pub open spec fn sub_matches(sub: EventSubscription, ev: Seq<char>) -> bool {
    if sub.prefix_match {
        is_prefix(sub.pattern@, ev)
    } else {
        sub.pattern@ == ev
    }
}

impl EventSubscription {
    pub fn exact(pattern: &str) -> (s: Self)
        ensures
            s.pattern@ == pattern@,
            !s.prefix_match,
    {
        EventSubscription { pattern: String::from_str(pattern), prefix_match: false }
    }

    pub fn prefix(pattern: &str) -> (s: Self)
        ensures
            s.pattern@ == pattern@,
            s.prefix_match,
    {
        EventSubscription { pattern: String::from_str(pattern), prefix_match: true }
    }

    pub fn matches(&self, event_type: &str) -> (b: bool)
        ensures
            b == sub_matches(*self, event_type@),
    {
        if self.prefix_match {
            str_starts_with(event_type, self.pattern.as_str())
        } else {
            str_eq(event_type, self.pattern.as_str())
        }
    }
}

/// Scheduling metadata for a single goal.
#[derive(Debug)]
pub struct GoalSchedule {
    pub goal_id: GoalId,
    pub priority: GoalPriority,
    pub subscriptions: Vec<EventSubscription>,
    pub review_interval_ms: u64,
    pub next_review: Timestamp,
    pub last_event_wake: Option<Timestamp>,
}

/// Some subscription of `s` matches `ev`.
pub open spec fn schedule_matches(s: GoalSchedule, ev: Seq<char>) -> bool {
    exists|i: int| 0 <= i < s.subscriptions@.len() && sub_matches(s.subscriptions@[i], ev)
}

/// The goals of `s`, in order, that some subscription of theirs wakes for `ev`.
pub open spec fn matched_ids(s: Seq<GoalSchedule>, ev: Seq<char>) -> Seq<GoalId>
    decreases s.len(),
{
    if s.len() == 0 {
        Seq::empty()
    } else {
        let rest = matched_ids(s.drop_last(), ev);
        if schedule_matches(s.last(), ev) {
            rest.push(s.last().goal_id)
        } else {
            rest
        }
    }
}

/// The goals of `s`, in order, whose review time is at or before `now`.
pub open spec fn due_ids(s: Seq<GoalSchedule>, now: Timestamp) -> Seq<GoalId>
    decreases s.len(),
{
    if s.len() == 0 {
        Seq::empty()
    } else {
        let rest = due_ids(s.drop_last(), now);
        if s.last().next_review <= now {
            rest.push(s.last().goal_id)
        } else {
            rest
        }
    }
}

/// The review interval a priority starts with.
pub open spec fn default_interval_spec(p: GoalPriority) -> u64 {
    match p {
        GoalPriority::Critical => 500,
        GoalPriority::High => 2000,
        GoalPriority::Normal => 10_000,
        GoalPriority::Low => 60_000,
    }
}

/// The interval after processing: high-priority goals are reviewed sooner,
/// sooner still when many events are flowing; never below 100 ms.
pub open spec fn adaptive_interval_spec(p: GoalPriority, base: u64, events: u64) -> u64 {
    let v = if p == GoalPriority::Critical && events > 50 {
        base / 4
    } else if p == GoalPriority::High && events > 50 {
        base / 2
    } else if p == GoalPriority::Critical {
        base / 2
    } else {
        base
    };
    if v < 100 {
        100
    } else {
        v
    }
}

/// `now + ms`, saturating at the largest timestamp.
pub open spec fn add_ms(now: Timestamp, ms: u64) -> Timestamp {
    if now + ms > i64::MAX {
        i64::MAX
    } else {
        (now + ms) as i64
    }
}

/// `n` is `o` with the review of `goal` postponed from `now`.
pub open spec fn timer_reset(
    o: Seq<GoalSchedule>,
    n: Seq<GoalSchedule>,
    goal: GoalId,
    now: Timestamp,
    events: u64,
) -> bool {
    &&& n.len() == o.len()
    &&& forall|i: int|
        0 <= i < o.len() ==> {
            let a = o[i];
            let b = #[trigger] n[i];
            if a.goal_id == goal {
                &&& b.goal_id == a.goal_id
                &&& b.priority == a.priority
                &&& b.review_interval_ms == a.review_interval_ms
                &&& b.subscriptions@ == a.subscriptions@
                &&& b.next_review == add_ms(
                    now,
                    adaptive_interval_spec(a.priority, a.review_interval_ms, events),
                )
                &&& b.last_event_wake == Some(now)
            } else {
                b == a
            }
        }
}

/// `goal` has a schedule in `s`.
pub open spec fn has_goal(s: Seq<GoalSchedule>, goal: GoalId) -> bool {
    exists|i: int| 0 <= i < s.len() && s[i].goal_id == goal
}

/// Adaptive goal scheduler driven by event subscriptions and review timers.
///
/// Goals are woken up when a matching event arrives (`match_event`) or
/// when their review timer expires (`due_goals`).
#[derive(Debug)]
pub struct GoalScheduler {
    schedules: Vec<GoalSchedule>,
    event_count: u64,
}

impl GoalScheduler {
    /// The schedules, in registration order.
    pub closed spec fn schedules(self) -> Seq<GoalSchedule> {
        self.schedules@
    }

    /// Number of events seen so far (saturating).
    pub closed spec fn events_seen(self) -> u64 {
        self.event_count
    }

    /// No goal is scheduled twice.
    pub open spec fn wf(self) -> bool {
        forall|i: int, j: int|
            0 <= i < j < self.schedules().len() ==> self.schedules()[i].goal_id
                != self.schedules()[j].goal_id
    }

    pub fn new() -> (s: Self)
        ensures
            s.schedules().len() == 0,
            s.events_seen() == 0,
            s.wf(),
    {
        GoalScheduler { schedules: Vec::new(), event_count: 0 }
    }

    fn find(&self, goal_id: GoalId) -> (r: Option<usize>)
        ensures
            match r {
                Some(i) => i < self.schedules@.len() && self.schedules@[i as int].goal_id
                    == goal_id,
                None => !has_goal(self.schedules@, goal_id),
            },
    {
        let mut i: usize = 0;
        while i < self.schedules.len()
            invariant
                i <= self.schedules@.len(),
                forall|k: int| 0 <= k < i ==> self.schedules@[k].goal_id != goal_id,
            decreases self.schedules@.len() - i,
        {
            if self.schedules[i].goal_id == goal_id {
                return Some(i);
            }
            i = i + 1;
        }
        None
    }

    /// The review interval a priority starts with.
    pub fn default_interval(priority: &GoalPriority) -> (ms: u64)
        ensures
            ms == default_interval_spec(*priority),
    {
        match priority {
            GoalPriority::Critical => 500,
            GoalPriority::High => 2000,
            GoalPriority::Normal => 10_000,
            GoalPriority::Low => 60_000,
        }
    }

    /// Schedule `goal_id` with `priority` and `subscriptions`, due for review
    /// at `now`. A goal that is already scheduled is replaced in place.
    pub fn register_at(
        &mut self,
        goal_id: GoalId,
        priority: GoalPriority,
        subscriptions: Vec<EventSubscription>,
        now: Timestamp,
    )
        requires
            old(self).wf(),
        ensures
            final(self).wf(),
            final(self).events_seen() == old(self).events_seen(),
            has_goal(final(self).schedules(), goal_id),
            forall|i: int|
                0 <= i < final(self).schedules().len() && final(self).schedules()[i].goal_id
                    == goal_id ==> {
                    let s = #[trigger] final(self).schedules()[i];
                    &&& s.priority == priority
                    &&& s.subscriptions@ == subscriptions@
                    &&& s.review_interval_ms == default_interval_spec(priority)
                    &&& s.next_review == now
                    &&& s.last_event_wake.is_none()
                },
            has_goal(old(self).schedules(), goal_id) ==> final(self).schedules().len()
                == old(self).schedules().len(),
            !has_goal(old(self).schedules(), goal_id) ==> final(self).schedules()
                == old(self).schedules().push(final(self).schedules().last()),
            forall|i: int|
                0 <= i < old(self).schedules().len() && old(self).schedules()[i].goal_id
                    != goal_id ==> final(self).schedules()[i] == old(self).schedules()[i],
    {
        let interval = Self::default_interval(&priority);
        let sched = GoalSchedule {
            goal_id,
            priority,
            subscriptions,
            review_interval_ms: interval,
            next_review: now,
            last_event_wake: None,
        };
        match self.find(goal_id) {
            Some(i) => {
                self.schedules.set(i, sched);
                assert(self.schedules@[i as int].goal_id == goal_id);
            },
            None => {
                self.schedules.push(sched);
                assert(self.schedules@[self.schedules@.len() - 1].goal_id == goal_id);
            },
        }
    }

    /// Schedule a goal, due for review now.
    pub fn register(
        &mut self,
        goal_id: GoalId,
        priority: GoalPriority,
        subscriptions: Vec<EventSubscription>,
    )
        requires
            old(self).wf(),
        ensures
            final(self).wf(),
            has_goal(final(self).schedules(), goal_id),
            forall|i: int|
                0 <= i < final(self).schedules().len() && final(self).schedules()[i].goal_id
                    == goal_id ==> {
                    let s = #[trigger] final(self).schedules()[i];
                    &&& s.priority == priority
                    &&& s.subscriptions@ == subscriptions@
                    &&& s.review_interval_ms == default_interval_spec(priority)
                },
            forall|g: GoalId|
                g != goal_id ==> (has_goal(final(self).schedules(), g) == has_goal(
                    old(self).schedules(),
                    g,
                )),
    {
        let now = now_millis();
        self.register_at(goal_id, priority, subscriptions, now);
        proof {
            assert forall|g: GoalId| g != goal_id implies (has_goal(self.schedules(), g)
                == has_goal(old(self).schedules(), g)) by {
                if has_goal(old(self).schedules(), g) {
                    let i = choose|i: int|
                        0 <= i < old(self).schedules().len() && old(self).schedules()[i].goal_id
                            == g;
                    assert(self.schedules()[i].goal_id == g);
                }
                if has_goal(self.schedules(), g) {
                    let i = choose|i: int|
                        0 <= i < self.schedules().len() && self.schedules()[i].goal_id == g;
                    if i < old(self).schedules().len() {
                        assert(old(self).schedules()[i].goal_id == g);
                    }
                }
            }
        }
    }

    /// Stop scheduling `goal_id`.
    pub fn unregister(&mut self, goal_id: &GoalId)
        requires
            old(self).wf(),
        ensures
            final(self).wf(),
            !has_goal(final(self).schedules(), *goal_id),
            forall|g: GoalId|
                g != *goal_id ==> (has_goal(final(self).schedules(), g) == has_goal(
                    old(self).schedules(),
                    g,
                )),
            final(self).events_seen() == old(self).events_seen(),
    {
        match self.find(*goal_id) {
            Some(i) => {
                let ghost old_s = self.schedules@;
                self.schedules.remove(i);
                proof {
                    assert forall|g: GoalId| g != *goal_id implies (has_goal(self.schedules@, g)
                        == has_goal(old_s, g)) by {
                        if has_goal(old_s, g) {
                            let k = choose|k: int| 0 <= k < old_s.len() && old_s[k].goal_id == g;
                            if k < i {
                                assert(self.schedules@[k].goal_id == g);
                            } else {
                                assert(k != i);
                                assert(self.schedules@[k - 1].goal_id == g);
                            }
                        }
                        if has_goal(self.schedules@, g) {
                            let k = choose|k: int|
                                0 <= k < self.schedules@.len() && self.schedules@[k].goal_id == g;
                            if k < i {
                                assert(old_s[k].goal_id == g);
                            } else {
                                assert(old_s[k + 1].goal_id == g);
                            }
                        }
                    }
                    if has_goal(self.schedules@, *goal_id) {
                        let k = choose|k: int|
                            0 <= k < self.schedules@.len() && self.schedules@[k].goal_id
                                == *goal_id;
                        if k < i {
                            assert(old_s[k].goal_id == *goal_id);
                        } else {
                            assert(old_s[k + 1].goal_id == *goal_id);
                        }
                    }
                }
            },
            None => {},
        }
    }

    /// Update a goal's priority; its review interval follows.
    pub fn update_priority(&mut self, goal_id: &GoalId, new_priority: GoalPriority)
        requires
            old(self).wf(),
        ensures
            final(self).wf(),
            final(self).schedules().len() == old(self).schedules().len(),
            forall|i: int|
                0 <= i < old(self).schedules().len() ==> {
                    let o = old(self).schedules()[i];
                    let n = #[trigger] final(self).schedules()[i];
                    if o.goal_id == *goal_id {
                        &&& n.goal_id == o.goal_id
                        &&& n.priority == new_priority
                        &&& n.review_interval_ms == default_interval_spec(new_priority)
                        &&& n.subscriptions@ == o.subscriptions@
                        &&& n.next_review == o.next_review
                        &&& n.last_event_wake == o.last_event_wake
                    } else {
                        n == o
                    }
                },
    {
        match self.find(*goal_id) {
            Some(i) => {
                let mut s = self.schedules.remove(i);
                s.priority = new_priority;
                s.review_interval_ms = Self::default_interval(&new_priority);
                self.schedules.insert(i, s);
            },
            None => {},
        }
    }

    /// Add a subscription to an existing goal.
    pub fn add_subscription(&mut self, goal_id: &GoalId, sub: EventSubscription)
        requires
            old(self).wf(),
        ensures
            final(self).wf(),
            final(self).schedules().len() == old(self).schedules().len(),
            forall|i: int|
                0 <= i < old(self).schedules().len() ==> {
                    let o = old(self).schedules()[i];
                    let n = #[trigger] final(self).schedules()[i];
                    if o.goal_id == *goal_id {
                        &&& n.goal_id == o.goal_id
                        &&& n.priority == o.priority
                        &&& n.review_interval_ms == o.review_interval_ms
                        &&& n.subscriptions@ == o.subscriptions@.push(sub)
                        &&& n.next_review == o.next_review
                        &&& n.last_event_wake == o.last_event_wake
                    } else {
                        n == o
                    }
                },
    {
        match self.find(*goal_id) {
            Some(i) => {
                let mut s = self.schedules.remove(i);
                s.subscriptions.push(sub);
                self.schedules.insert(i, s);
            },
            None => {},
        }
    }

    fn schedule_matches_exec(s: &GoalSchedule, event_type: &str) -> (b: bool)
        ensures
            b == schedule_matches(*s, event_type@),
    {
        let mut j: usize = 0;
        while j < s.subscriptions.len()
            invariant
                j <= s.subscriptions@.len(),
                forall|k: int| 0 <= k < j ==> !sub_matches(s.subscriptions@[k], event_type@),
            decreases s.subscriptions@.len() - j,
        {
            if s.subscriptions[j].matches(event_type) {
                return true;
            }
            j = j + 1;
        }
        false
    }

    /// The goals whose subscriptions match `event_type`, in registration
    /// order. Also counts the event for adaptive interval tuning.
    pub fn match_event(&mut self, event_type: &str) -> (matched: Vec<GoalId>)
        ensures
            matched@ == matched_ids(old(self).schedules(), event_type@),
            final(self).schedules() == old(self).schedules(),
            final(self).events_seen() == (if old(self).events_seen() == u64::MAX {
                u64::MAX
            } else {
                (old(self).events_seen() + 1) as u64
            }),
    {
        self.event_count = self.event_count.saturating_add(1);
        let mut matched: Vec<GoalId> = Vec::new();
        let mut i: usize = 0;
        while i < self.schedules.len()
            invariant
                i <= self.schedules@.len(),
                matched@ == matched_ids(self.schedules@.subrange(0, i as int), event_type@),
            decreases self.schedules@.len() - i,
        {
            let ghost pre = self.schedules@.subrange(0, i as int);
            if Self::schedule_matches_exec(&self.schedules[i], event_type) {
                matched.push(self.schedules[i].goal_id);
            }
            i = i + 1;
            assert(self.schedules@.subrange(0, i as int).drop_last() =~= pre);
        }
        assert(self.schedules@.subrange(0, i as int) =~= self.schedules@);
        matched
    }

    /// The goals whose review time is at or before `now`.
    pub fn due_goals_at(&self, now: Timestamp) -> (due: Vec<GoalId>)
        ensures
            due@ == due_ids(self.schedules(), now),
    {
        let mut due: Vec<GoalId> = Vec::new();
        let mut i: usize = 0;
        while i < self.schedules.len()
            invariant
                i <= self.schedules@.len(),
                due@ == due_ids(self.schedules@.subrange(0, i as int), now),
            decreases self.schedules@.len() - i,
        {
            let ghost pre = self.schedules@.subrange(0, i as int);
            if self.schedules[i].next_review <= now {
                due.push(self.schedules[i].goal_id);
            }
            i = i + 1;
            assert(self.schedules@.subrange(0, i as int).drop_last() =~= pre);
        }
        assert(self.schedules@.subrange(0, i as int) =~= self.schedules@);
        due
    }

    /// The goals whose review timer has expired, by the wall clock.
    pub fn due_goals(&self) -> (due: Vec<GoalId>)
        ensures
            exists|now: Timestamp| due@ == due_ids(self.schedules(), now),
    {
        let now = now_millis();
        self.due_goals_at(now)
    }

    /// The interval after processing `schedule`.
    pub fn adaptive_interval(&self, schedule: &GoalSchedule) -> (ms: u64)
        ensures
            ms == adaptive_interval_spec(
                schedule.priority,
                schedule.review_interval_ms,
                self.events_seen(),
            ),
    {
        let base = schedule.review_interval_ms;
        let freq = self.event_count;
        let v = match schedule.priority {
            GoalPriority::Critical => {
                if freq > 50 {
                    base / 4
                } else {
                    base / 2
                }
            },
            GoalPriority::High => {
                if freq > 50 {
                    base / 2
                } else {
                    base
                }
            },
            _ => base,
        };
        if v < 100 {
            100
        } else {
            v
        }
    }

    /// Postpone a goal's review: next review at `now` plus its adaptive
    /// interval; the wake time is recorded.
    pub fn reset_timer_at(&mut self, goal_id: &GoalId, now: Timestamp)
        requires
            old(self).wf(),
        ensures
            final(self).wf(),
            final(self).events_seen() == old(self).events_seen(),
            timer_reset(
                old(self).schedules(),
                final(self).schedules(),
                *goal_id,
                now,
                old(self).events_seen(),
            ),
    {
        match self.find(*goal_id) {
            Some(i) => {
                let adaptive = self.adaptive_interval(&self.schedules[i]);
                let mut s = self.schedules.remove(i);
                let next: i64 = if adaptive as i128 + now as i128 > i64::MAX as i128 {
                    i64::MAX
                } else {
                    (now as i128 + adaptive as i128) as i64
                };
                s.next_review = next;
                s.last_event_wake = Some(now);
                self.schedules.insert(i, s);
            },
            None => {},
        }
    }

    /// Postpone a goal's review, by the wall clock.
    pub fn reset_timer(&mut self, goal_id: &GoalId)
        requires
            old(self).wf(),
        ensures
            final(self).wf(),
            final(self).schedules().len() == old(self).schedules().len(),
            exists|now: Timestamp|
                #[trigger] timer_reset(
                    old(self).schedules(),
                    final(self).schedules(),
                    *goal_id,
                    now,
                    old(self).events_seen(),
                ),
    {
        let now = now_millis();
        self.reset_timer_at(goal_id, now);
        assert(timer_reset(
            old(self).schedules(),
            self.schedules(),
            *goal_id,
            now,
            old(self).events_seen(),
        ));
    }

    /// Number of scheduled goals.
    pub fn len(&self) -> (n: usize)
        ensures
            n == self.schedules().len(),
    {
        self.schedules.len()
    }

    pub fn is_empty(&self) -> (b: bool)
        ensures
            b == (self.schedules().len() == 0),
    {
        self.schedules.len() == 0
    }

    /// The review interval currently configured for `goal_id`.
    pub fn review_interval(&self, goal_id: &GoalId) -> (r: Option<u64>)
        ensures
            match r {
                Some(ms) => exists|i: int|
                    0 <= i < self.schedules().len() && self.schedules()[i].goal_id == *goal_id
                        && self.schedules()[i].review_interval_ms == ms,
                None => !has_goal(self.schedules(), *goal_id),
            },
    {
        match self.find(*goal_id) {
            Some(i) => {
                assert(self.schedules()[i as int].goal_id == *goal_id && self.schedules()[i as int].review_interval_ms == self.schedules[i as int].review_interval_ms);
                Some(self.schedules[i].review_interval_ms)
            },
            None => None,
        }
    }
}

/// A goal that is registered is due for review at its registration time.
pub proof fn lemma_registered_goal_due(s: Seq<GoalSchedule>, now: Timestamp, i: int)
    requires
        0 <= i < s.len(),
        s[i].next_review <= now,
    ensures
        due_ids(s, now).contains(s[i].goal_id),
    decreases s.len(),
{
    if i == s.len() - 1 {
        assert(due_ids(s, now).last() == s[i].goal_id);
    } else {
        lemma_registered_goal_due(s.drop_last(), now, i);
        let r = due_ids(s.drop_last(), now);
        let k = choose|k: int| 0 <= k < r.len() && r[k] == s[i].goal_id;
        if s.last().next_review <= now {
            assert(due_ids(s, now)[k] == s[i].goal_id);
        } else {
            assert(due_ids(s, now)[k] == s[i].goal_id);
        }
    }
}

/// Membership in `matched_ids`: a goal is matched exactly when some
/// schedule of that goal has a subscription matching the event.
pub proof fn lemma_matched_ids_members(s: Seq<GoalSchedule>, ev: Seq<char>, g: GoalId)
    ensures
        matched_ids(s, ev).contains(g) <==> exists|i: int|
            0 <= i < s.len() && s[i].goal_id == g && schedule_matches(s[i], ev),
    decreases s.len(),
{
    if s.len() > 0 {
        lemma_matched_ids_members(s.drop_last(), ev, g);
        let r = matched_ids(s.drop_last(), ev);
        if matched_ids(s, ev).contains(g) {
            let k = choose|k: int| 0 <= k < matched_ids(s, ev).len() && matched_ids(s, ev)[k] == g;
            if k < r.len() {
                assert(r[k] == g);
                let i = choose|i: int|
                    0 <= i < s.drop_last().len() && s.drop_last()[i].goal_id == g
                        && schedule_matches(s.drop_last()[i], ev);
                assert(s[i] == s.drop_last()[i]);
            } else {
                assert(s[s.len() - 1].goal_id == g);
            }
        }
        if exists|i: int| 0 <= i < s.len() && s[i].goal_id == g && schedule_matches(s[i], ev) {
            let i = choose|i: int| 0 <= i < s.len() && s[i].goal_id == g && schedule_matches(s[i], ev);
            if i < s.len() - 1 {
                assert(s.drop_last()[i] == s[i]);
                let k = choose|k: int| 0 <= k < r.len() && r[k] == g;
                assert(matched_ids(s, ev)[k] == g);
            } else {
                assert(matched_ids(s, ev).last() == g);
            }
        }
    }
}

/// With no goal scheduled twice, the goals an event wakes are listed once
/// each.
pub proof fn lemma_matched_ids_unique(s: Seq<GoalSchedule>, ev: Seq<char>)
    requires
        forall|i: int, j: int| 0 <= i < j < s.len() ==> s[i].goal_id != s[j].goal_id,
    ensures
        matched_ids(s, ev).no_duplicates(),
    decreases s.len(),
{
    if s.len() > 0 {
        let init = s.drop_last();
        assert forall|i: int, j: int| 0 <= i < j < init.len() implies init[i].goal_id
            != init[j].goal_id by {
            assert(init[i] == s[i] && init[j] == s[j]);
        }
        lemma_matched_ids_unique(init, ev);
        let rest = matched_ids(init, ev);
        if schedule_matches(s.last(), ev) {
            let g = s.last().goal_id;
            lemma_matched_ids_members(init, ev, g);
            if rest.contains(g) {
                let i = choose|i: int|
                    0 <= i < init.len() && init[i].goal_id == g && schedule_matches(init[i], ev);
                assert(s[i].goal_id == s[s.len() - 1].goal_id);
            }
            assert forall|a: int, b: int| 0 <= a < b < rest.push(g).len() implies rest.push(g)[a]
                != rest.push(g)[b] by {
                if b == rest.len() {
                    assert(rest[a] == rest.push(g)[a]);
                }
            }
        }
    }
}

/// The goals an event wakes (what `match_event` returns): each scheduled
/// goal with a subscription matching the event, listed once.
pub proof fn lemma_match_event_law(scheduler: GoalScheduler, event_type: Seq<char>)
    requires
        scheduler.wf(),
    ensures
        matched_ids(scheduler.schedules(), event_type).no_duplicates(),
        forall|g: GoalId| #[trigger]
            matched_ids(scheduler.schedules(), event_type).contains(g) <==> exists|i: int|
                0 <= i < scheduler.schedules().len() && scheduler.schedules()[i].goal_id == g
                    && schedule_matches(scheduler.schedules()[i], event_type),
{
    lemma_matched_ids_unique(scheduler.schedules(), event_type);
    assert forall|g: GoalId| #[trigger]
        matched_ids(scheduler.schedules(), event_type).contains(g) <==> exists|i: int|
            0 <= i < scheduler.schedules().len() && scheduler.schedules()[i].goal_id == g
                && schedule_matches(scheduler.schedules()[i], event_type) by {
        lemma_matched_ids_members(scheduler.schedules(), event_type, g);
    }
}

/// The adaptive review interval never drops below 100 ms, and never
/// exceeds a base of at least 100 ms. Normal and low goals keep their
/// base. Once more than 50 events have been seen, a high-priority goal is
/// reviewed after half its base and a critical one after a quarter, so
/// both strictly sooner than their base when it is at least 200 ms; with
/// fewer events a critical goal gets half its base and a high one keeps it.
pub proof fn lemma_adaptive_interval_law(p: GoalPriority, base: u64, events: u64)
    ensures
        adaptive_interval_spec(p, base, events) >= 100,
        base >= 100 ==> adaptive_interval_spec(p, base, events) <= base,
        (p == GoalPriority::Normal || p == GoalPriority::Low) ==> adaptive_interval_spec(
            p,
            base,
            events,
        ) == (if base < 100 { 100 } else { base }),
        p == GoalPriority::High && events > 50 ==> adaptive_interval_spec(p, base, events) == (if base
            / 2 < 100 {
            100
        } else {
            base / 2
        }),
        p == GoalPriority::High && events <= 50 ==> adaptive_interval_spec(p, base, events) == (
        if base < 100 {
            100
        } else {
            base
        }),
        p == GoalPriority::Critical && events > 50 ==> adaptive_interval_spec(p, base, events) == (
        if base / 4 < 100 {
            100
        } else {
            base / 4
        }),
        p == GoalPriority::Critical && events <= 50 ==> adaptive_interval_spec(p, base, events) == (
        if base / 2 < 100 {
            100
        } else {
            base / 2
        }),
        (p == GoalPriority::High || p == GoalPriority::Critical) && events > 50 && base >= 200
            ==> adaptive_interval_spec(p, base, events) < base,
{
}

/// More events never lengthen a goal's review interval.
pub proof fn lemma_adaptive_interval_monotone(p: GoalPriority, base: u64, e1: u64, e2: u64)
    requires
        e1 <= e2,
    ensures
        adaptive_interval_spec(p, base, e2) <= adaptive_interval_spec(p, base, e1),
{
}

} // verus!
