//! Recovery after a restart: which goals were interrupted, which were
//! paused, and the order in which they are reported resumed. Reading and
//! recovering goals in the goal store happens outside.

use vstd::prelude::*;

use crate::goal_scheduler::GoalId;

verus! {

/// Lifecycle status of a goal.
#[derive(Debug, Clone, Copy, PartialEq, Eq, Structural)]
pub enum GoalStatus {
    Pending,
    Active,
    Planning,
    Executing,
    Evaluating,
    Recovering,
    Paused,
    Blocked,
    Completed,
    Failed,
    Cancelled,
}

/// A goal was running when the process stopped.
pub open spec fn interrupted(s: GoalStatus) -> bool {
    s == GoalStatus::Active || s == GoalStatus::Planning || s == GoalStatus::Executing || s
        == GoalStatus::Evaluating || s == GoalStatus::Recovering
}

/// A goal was waiting when the process stopped.
pub open spec fn waiting(s: GoalStatus) -> bool {
    s == GoalStatus::Paused || s == GoalStatus::Blocked
}

/// The ids of the goals whose status satisfies `p`, in order.
pub open spec fn ids_where(gs: Seq<(GoalId, GoalStatus)>, p: spec_fn(GoalStatus) -> bool) -> Seq<GoalId>
    decreases gs.len(),
{
    if gs.len() == 0 {
        Seq::empty()
    } else if p(gs.last().1) {
        ids_where(gs.drop_last(), p).push(gs.last().0)
    } else {
        ids_where(gs.drop_last(), p)
    }
}

/// Finds goals to recover after a restart.
pub struct RecoveryManager;

impl RecoveryManager {
    pub fn new() -> (r: Self) {
        RecoveryManager
    }

    fn select(goals: &Vec<(GoalId, GoalStatus)>, want_interrupted: bool) -> (r: Vec<GoalId>)
        ensures
            want_interrupted ==> r@ == ids_where(goals@, |s: GoalStatus| interrupted(s)),
            !want_interrupted ==> r@ == ids_where(goals@, |s: GoalStatus| waiting(s)),
    {
        let ghost p: spec_fn(GoalStatus) -> bool = if want_interrupted {
            |s: GoalStatus| interrupted(s)
        } else {
            |s: GoalStatus| waiting(s)
        };
        let mut r: Vec<GoalId> = Vec::new();
        let mut i: usize = 0;
        while i < goals.len()
            invariant
                i <= goals@.len(),
                p == (if want_interrupted {
                    |s: GoalStatus| interrupted(s)
                } else {
                    |s: GoalStatus| waiting(s)
                }),
                r@ == ids_where(goals@.subrange(0, i as int), p),
            decreases goals@.len() - i,
        {
            let ghost pre = goals@.subrange(0, i as int);
            assert(goals@.subrange(0, i + 1).drop_last() =~= pre);
            let (id, st) = goals[i];
            let hit = if want_interrupted {
                match st {
                    GoalStatus::Active | GoalStatus::Planning | GoalStatus::Executing
                    | GoalStatus::Evaluating | GoalStatus::Recovering => true,
                    _ => false,
                }
            } else {
                match st {
                    GoalStatus::Paused | GoalStatus::Blocked => true,
                    _ => false,
                }
            };
            if hit {
                r.push(id);
            }
            i = i + 1;
        }
        assert(goals@.subrange(0, goals@.len() as int) =~= goals@);
        r
    }

    /// Goals that were running (active, planning, executing, evaluating
    /// or recovering), in store order.
    pub fn find_interrupted_goals(goals: &Vec<(GoalId, GoalStatus)>) -> (r: Vec<GoalId>)
        ensures
            r@ == ids_where(goals@, |s: GoalStatus| interrupted(s)),
    {
        Self::select(goals, true)
    }

    /// Goals that were paused or blocked, in store order.
    pub fn find_paused_goals(goals: &Vec<(GoalId, GoalStatus)>) -> (r: Vec<GoalId>)
        ensures
            r@ == ids_where(goals@, |s: GoalStatus| waiting(s)),
    {
        Self::select(goals, false)
    }

    /// The goals reported resumed: the interrupted goals that recovered,
    /// then all paused or blocked goals.
    pub fn resumed(recovered: Vec<GoalId>, paused: Vec<GoalId>) -> (r: Vec<GoalId>)
        ensures
            r@ == recovered@ + paused@,
    {
        let mut r = recovered;
        let mut p = paused;
        r.append(&mut p);
        r
    }
}

} // verus!
