//! Bookkeeping of delegations to other agents: a delegation that failed
//! stays active until it is cancelled or succeeds on a later attempt. The
//! agents themselves are reached outside.

use std::collections::HashMap;

use vstd::prelude::*;

verus! {

/// Status of a delegation.
#[derive(Debug, Clone, Copy, PartialEq, Eq, Structural)]
pub enum DelegationStatus {
    InProgress,
    Completed,
}

/// The active delegations: delegation id to the agent handling it.
pub struct ActiveDelegations {
    entries: HashMap<u128, u128>,
}

impl ActiveDelegations {
    /// The agent handling each active delegation.
    pub closed spec fn map(self) -> Map<u128, u128> {
        self.entries@
    }

    /// No active delegation.
    pub fn new() -> (a: Self)
        ensures
            a.map() == Map::<u128, u128>::empty(),
    {
        broadcast use vstd::std_specs::hash::group_hash_axioms;
        ActiveDelegations { entries: HashMap::new() }
    }

    /// Records the result of a delegation to `agent_id`: a success ends
    /// it, a failure keeps it active.
    pub fn record(&mut self, delegation_id: u128, agent_id: u128, success: bool)
        ensures
            success ==> final(self).map() == old(self).map().remove(delegation_id),
            !success ==> final(self).map() == old(self).map().insert(delegation_id, agent_id),
    {
        broadcast use vstd::std_specs::hash::group_hash_axioms;
        if success {
            let _ = self.entries.remove(&delegation_id);
        } else {
            let _ = self.entries.insert(delegation_id, agent_id);
        }
    }

    /// Ends a delegation; returns the agent that was handling it, so that
    /// it can be told to cancel.
    pub fn cancel(&mut self, delegation_id: u128) -> (agent: Option<u128>)
        ensures
            final(self).map() == old(self).map().remove(delegation_id),
            agent == (if old(self).map().dom().contains(delegation_id) {
                Some(old(self).map()[delegation_id])
            } else {
                None
            }),
    {
        broadcast use vstd::std_specs::hash::group_hash_axioms;
        self.entries.remove(&delegation_id)
    }

    /// A delegation still active is in progress; any other is completed.
    pub fn status(&self, delegation_id: u128) -> (s: DelegationStatus)
        ensures
            s == (if self.map().dom().contains(delegation_id) {
                DelegationStatus::InProgress
            } else {
                DelegationStatus::Completed
            }),
    {
        broadcast use vstd::std_specs::hash::group_hash_axioms;
        if self.entries.contains_key(&delegation_id) {
            DelegationStatus::InProgress
        } else {
            DelegationStatus::Completed
        }
    }
}

} // verus!
