//! Events that drive the runtime, and which goals an event wakes. The
//! channel, the timers and the cognitive ticks run outside.

use vstd::prelude::*;

use crate::goal_scheduler::GoalId;
use crate::text::{is_prefix, owned, str_starts_with};

verus! {

/// An event from the orchestrator or an outside source.
#[derive(Debug)]
pub struct RuntimeEvent {
    pub event_type: String,
    pub payload: Option<String>,
    pub goal_id: Option<GoalId>,
}

impl RuntimeEvent {
    /// An event of `event_type` with no payload and no goal.
    pub fn new(event_type: &str) -> (e: Self)
        ensures
            e.event_type@ == event_type@,
            e.payload is None,
            e.goal_id is None,
    {
        RuntimeEvent { event_type: owned(event_type), payload: None, goal_id: None }
    }

    /// The event with `payload`.
    pub fn with_payload(self, payload: &str) -> (e: Self)
        ensures
            e.event_type@ == self.event_type@,
            e.payload matches Some(p) && p@ == payload@,
            e.goal_id == self.goal_id,
    {
        RuntimeEvent { event_type: self.event_type, payload: Some(owned(payload)), goal_id: self.goal_id }
    }

    /// The event concerning `goal_id`.
    pub fn for_goal(self, goal_id: GoalId) -> (e: Self)
        ensures
            e.event_type@ == self.event_type@,
            e.goal_id == Some(goal_id),
            opt_string_view(e.payload) == opt_string_view(self.payload),
    {
        RuntimeEvent { event_type: self.event_type, payload: self.payload, goal_id: Some(goal_id) }
    }
}

pub open spec fn opt_string_view(o: Option<String>) -> Option<Seq<char>> {
    match o {
        Some(s) => Some(s@),
        None => None,
    }
}

/// The event types the brain emits.
pub const BRAIN_EVENT_TYPES: [&'static str; 20] = [
    "brain.goal.created",
    "brain.goal.activated",
    "brain.goal.completed",
    "brain.goal.failed",
    "brain.goal.cancelled",
    "brain.goal.blocked",
    "brain.goal.deferred",
    "brain.goal.paused",
    "brain.goal.retried",
    "brain.goal.dependency.violation",
    "brain.model.world.updated",
    "brain.model.resource.changed",
    "brain.plan.created",
    "brain.plan.updated",
    "brain.plan.rejected",
    "brain.reflection.completed",
    "brain.learning.cycle.completed",
    "brain.workflow.completed",
    "brain.workflow.failed",
    "brain.decision.escalation.required",
];

/// Maintenance events wake no goal on their own and trigger no global
/// tick.
pub open spec fn is_maintenance(event_type: Seq<char>) -> bool {
    is_prefix("runtime.maintenance"@, event_type)
}

/// Whether `event_type` is a maintenance event.
pub fn is_maintenance_event(event_type: &str) -> (b: bool)
    ensures
        b == is_maintenance(event_type@),
{
    str_starts_with(event_type, "runtime.maintenance")
}

/// The goals woken by subscription, with the event's own goal added at
/// the end when it is not among them.
pub open spec fn affected_spec(matched: Seq<GoalId>, own: Option<GoalId>) -> Seq<GoalId> {
    match own {
        Some(g) => if matched.contains(g) { matched } else { matched.push(g) },
        None => matched,
    }
}

/// The goals an event affects before falling back to all active goals.
pub fn affected_goals(matched: Vec<GoalId>, own: Option<GoalId>) -> (r: Vec<GoalId>)
    ensures
        r@ == affected_spec(matched@, own),
{
    match own {
        Some(g) => {
            let mut found = false;
            let mut i: usize = 0;
            while i < matched.len()
                invariant
                    i <= matched@.len(),
                    found == matched@.subrange(0, i as int).contains(g),
                decreases matched@.len() - i,
            {
                if matched[i] == g {
                    found = true;
                }
                proof {
                    let pre = matched@.subrange(0, i as int);
                    let next = matched@.subrange(0, i + 1);
                    assert(next =~= pre.push(matched@[i as int]));
                    if next.contains(g) {
                        let k = choose|k: int| 0 <= k < next.len() && next[k] == g;
                        if k < i {
                            assert(pre[k] == g);
                        }
                    }
                    if pre.contains(g) {
                        let k = choose|k: int| 0 <= k < pre.len() && pre[k] == g;
                        assert(next[k] == g);
                    }
                    if matched@[i as int] == g {
                        assert(next[i as int] == g);
                    }
                }
                i = i + 1;
            }
            assert(matched@.subrange(0, matched@.len() as int) =~= matched@);
            if found {
                matched
            } else {
                let mut m = matched;
                m.push(g);
                m
            }
        },
        None => matched,
    }
}

/// When no goal is affected by a non-maintenance event, every active goal
/// is.
pub open spec fn needs_all_active(affected: Seq<GoalId>, event_type: Seq<char>) -> bool {
    affected.len() == 0 && !is_maintenance(event_type)
}

/// Whether the event falls back to all active goals.
pub fn falls_back_to_active(affected: &Vec<GoalId>, event_type: &str) -> (b: bool)
    ensures
        b == needs_all_active(affected@, event_type@),
{
    affected.len() == 0 && !is_maintenance_event(event_type)
}

/// The goals whose deferral has passed at `now`, in order.
pub open spec fn deferred_ready_spec(gs: Seq<(GoalId, Option<i64>)>, now: i64) -> Seq<GoalId>
    decreases gs.len(),
{
    if gs.len() == 0 {
        Seq::empty()
    } else {
        let rest = deferred_ready_spec(gs.drop_last(), now);
        match gs.last().1 {
            Some(t) => if t <= now { rest.push(gs.last().0) } else { rest },
            None => rest,
        }
    }
}

/// The goals whose deferred time has passed.
pub fn deferred_ready(goals: &Vec<(GoalId, Option<i64>)>, now: i64) -> (r: Vec<GoalId>)
    ensures
        r@ == deferred_ready_spec(goals@, now),
{
    let mut r: Vec<GoalId> = Vec::new();
    let mut i: usize = 0;
    while i < goals.len()
        invariant
            i <= goals@.len(),
            r@ == deferred_ready_spec(goals@.subrange(0, i as int), now),
        decreases goals@.len() - i,
    {
        assert(goals@.subrange(0, i + 1).drop_last() =~= goals@.subrange(0, i as int));
        let (id, d) = goals[i];
        match d {
            Some(t) => {
                if t <= now {
                    r.push(id);
                }
            },
            None => {},
        }
        i = i + 1;
    }
    assert(goals@.subrange(0, goals@.len() as int) =~= goals@);
    r
}

} // verus!
