//! The agents the brain can delegate to: who is registered, under which
//! role and with which capabilities, keyed by agent id. The agents
//! themselves are reached outside; each registration holds what they
//! declared.

use vstd::prelude::*;

use std::collections::HashMap;
use vstd::std_specs::iter::IteratorSpec;

use crate::clock::fresh_id;
use crate::text::{owned, str_eq};

verus! {

/// What an agent declared about itself.
#[derive(Debug)]
pub struct AgentEntry {
    pub id: u128,
    pub name: String,
    pub role: String,
    pub capabilities: Vec<String>,
}

pub struct AgentView {
    pub id: u128,
    pub name: Seq<char>,
    pub role: Seq<char>,
    pub capabilities: Seq<Seq<char>>,
}

impl View for AgentEntry {
    type V = AgentView;

    open spec fn view(&self) -> AgentView {
        AgentView {
            id: self.id,
            name: self.name@,
            role: self.role@,
            capabilities: self.capabilities@.map_values(|c: String| c@),
        }
    }
}

/// An agent as listed: always available, up to five tasks at a time, none
/// running yet.
#[derive(Debug)]
pub struct AgentRegistration {
    pub agent_id: u128,
    pub name: String,
    pub role: String,
    pub is_available: bool,
    pub max_concurrent_tasks: u32,
    pub current_tasks: u32,
}

/// The registration of an agent with these declarations.
pub open spec fn entry_view(id: u128, name: Seq<char>, role: Seq<char>, capabilities: Seq<String>) -> AgentView {
    AgentView { id, name, role, capabilities: capabilities.map_values(|c: String| c@) }
}

/// The registered agents, keyed by id.
pub struct AgentDirectory {
    agents: HashMap<u128, AgentEntry>,
}

impl AgentDirectory {
    /// Each registered agent by id.
    pub closed spec fn agents(self) -> Map<u128, AgentView> {
        self.agents@.map_values(|a: AgentEntry| a@)
    }

    /// Every agent is stored under its own id.
    pub closed spec fn wf(self) -> bool {
        forall|k: u128| #[trigger] self.agents@.contains_key(k) ==> self.agents@[k].id == k
    }

    /// `id` is registered.
    pub open spec fn has(self, id: u128) -> bool {
        self.agents().contains_key(id)
    }

    /// No agent registered.
    pub fn new() -> (d: Self)
        ensures
            d.wf(),
            d.agents() == Map::<u128, AgentView>::empty(),
    {
        broadcast use vstd::std_specs::hash::group_hash_axioms;
        let d = AgentDirectory { agents: HashMap::new() };
        assert(d.agents() =~= Map::<u128, AgentView>::empty());
        d
    }

    /// Registers an agent under `entry.id`, replacing one already
    /// registered under that id.
    pub fn register_entry(&mut self, entry: AgentEntry)
        requires
            old(self).wf(),
        ensures
            final(self).wf(),
            final(self).agents() == old(self).agents().insert(entry.id, entry@),
    {
        broadcast use vstd::std_specs::hash::group_hash_axioms;
        let ghost before = self.agents@;
        let ghost ev = entry@;
        let id = entry.id;
        self.agents.insert(id, entry);
        assert(self.agents() =~= before.map_values(|a: AgentEntry| a@).insert(id, ev));
    }

    /// Registers an agent under a fresh random id and returns the id.
    pub fn register(&mut self, name: &str, role: &str, capabilities: Vec<String>) -> (id: u128)
        requires
            old(self).wf(),
        ensures
            final(self).wf(),
            final(self).agents() == old(self).agents().insert(
                id,
                entry_view(id, name@, role@, capabilities@),
            ),
    {
        let id = fresh_id();
        let entry = AgentEntry { id, name: owned(name), role: owned(role), capabilities };
        self.register_entry(entry);
        id
    }

    /// Removes an agent; whether it was registered.
    pub fn unregister(&mut self, id: u128) -> (removed: bool)
        requires
            old(self).wf(),
        ensures
            final(self).wf(),
            removed == old(self).has(id),
            final(self).agents() == old(self).agents().remove(id),
    {
        broadcast use vstd::std_specs::hash::group_hash_axioms;
        let ghost before = self.agents@;
        let r = self.agents.remove(&id);
        assert(self.agents() =~= before.map_values(|a: AgentEntry| a@).remove(id));
        r.is_some()
    }

    /// Whether `id` is registered.
    pub fn has_agent(&self, id: u128) -> (b: bool)
        ensures
            b == self.has(id),
    {
        broadcast use vstd::std_specs::hash::group_hash_axioms;
        self.agents.contains_key(&id)
    }

    /// Some agent with `role`; `None` when there is none.
    pub fn find_by_role(&self, role: &str) -> (r: Option<u128>)
        ensures
            match r {
                Some(id) => self.has(id) && self.agents()[id].role == role@,
                None => forall|k: u128| #[trigger] self.has(k) ==> self.agents()[k].role != role@,
            },
    {
        broadcast use vstd::std_specs::hash::group_hash_axioms;
        for (k, a) in it: self.agents.iter()
            invariant
                forall|j: int| 0 <= j < it.index() ==> (*it.seq()[j].1).role@ != role@,
        {
            if str_eq(a.role.as_str(), role) {
                return Some(*k);
            }
        }
        proof {
            assert forall|k: u128| #[trigger] self.has(k) implies self.agents()[k].role != role@ by {
                let v = self.agents.iter().remaining();
                assert(v.contains((&k, &self.agents@[k])));
            }
        }
        None
    }

    /// Some agent that declared `capability`, with its role; `None` when
    /// no agent did.
    pub fn find_by_capability(&self, capability: &str) -> (r: Option<(u128, String)>)
        ensures
            match r {
                Some((id, role)) => self.has(id) && self.agents()[id].role == role@
                    && self.agents()[id].capabilities.contains(capability@),
                None => forall|k: u128|
                    #[trigger] self.has(k) ==> !self.agents()[k].capabilities.contains(capability@),
            },
    {
        broadcast use vstd::std_specs::hash::group_hash_axioms;
        for (k, a) in it: self.agents.iter()
            invariant
                forall|j: int|
                    0 <= j < it.index() ==> !(*it.seq()[j].1)@.capabilities.contains(capability@),
        {
            let ghost caps = a@.capabilities;
            assert(self.agents@.contains_key(*k) && self.agents@[*k] == *a);
            let mut j: usize = 0;
            while j < a.capabilities.len()
                invariant
                    self.agents@.contains_key(*k),
                    self.agents@[*k] == *a,
                    j <= a.capabilities@.len(),
                    caps == a.capabilities@.map_values(|c: String| c@),
                    forall|q: int| 0 <= q < j ==> caps[q] != capability@,
                decreases a.capabilities@.len() - j,
            {
                if str_eq(a.capabilities[j].as_str(), capability) {
                    let role = a.role.clone();
                    proof {
                        assert(caps[j as int] == capability@);
                        assert(self.agents()[*k] == a@);
                        assert(self.agents()[*k].capabilities.contains(capability@));
                    }
                    return Some((*k, role));
                }
                j = j + 1;
            }
        }
        proof {
            assert forall|k: u128| #[trigger] self.has(k) implies !self.agents()[
                k
            ].capabilities.contains(capability@) by {
                let v = self.agents.iter().remaining();
                assert(v.contains((&k, &self.agents@[k])));
            }
        }
        None
    }

    /// Every agent, each once, in the map's iteration order.
    pub fn list_agents(&self) -> (r: Vec<AgentRegistration>)
        ensures
            r@.len() == self.agents().len(),
            forall|i: int|
                0 <= i < r@.len() ==> {
                    &&& self.has((#[trigger] r@[i]).agent_id)
                    &&& r@[i].name@ == self.agents()[r@[i].agent_id].name
                    &&& r@[i].role@ == self.agents()[r@[i].agent_id].role
                    &&& r@[i].is_available
                    &&& r@[i].max_concurrent_tasks == 5
                    &&& r@[i].current_tasks == 0
                },
            forall|k: u128| #[trigger] self.has(k) ==> exists|i: int| 0 <= i < r@.len() && r@[i].agent_id == k,
            forall|i: int, j: int| 0 <= i < j < r@.len() ==> r@[i].agent_id != r@[j].agent_id,
    {
        broadcast use vstd::std_specs::hash::group_hash_axioms;
        let mut r: Vec<AgentRegistration> = Vec::new();
        for (k, a) in it: self.agents.iter()
            invariant
                r@.len() == it.index(),
                forall|i: int| 0 <= i < r@.len() ==> {
                    &&& (#[trigger] r@[i]).agent_id == *it.seq()[i].0
                    &&& r@[i].name@ == (*it.seq()[i].1).name@
                    &&& r@[i].role@ == (*it.seq()[i].1).role@
                    &&& r@[i].is_available
                    &&& r@[i].max_concurrent_tasks == 5
                    &&& r@[i].current_tasks == 0
                },
        {
            r.push(
                AgentRegistration {
                    agent_id: *k,
                    name: a.name.clone(),
                    role: a.role.clone(),
                    is_available: true,
                    max_concurrent_tasks: 5,
                    current_tasks: 0,
                },
            );
        }
        proof {
            let v = self.agents.iter().remaining();
            assert(self.agents().dom() =~= self.agents@.dom());
            assert(r@.len() == v.len());
            assert forall|k: u128| #[trigger] self.has(k) implies exists|i: int|
                0 <= i < r@.len() && r@[i].agent_id == k by {
                assert(self.agents@.contains_key(k));
                assert(v.contains((&k, &self.agents@[k])));
                let i = choose|i: int| 0 <= i < v.len() && v[i] == (&k, &self.agents@[k]);
                assert(r@[i].agent_id == k);
            }
            assert forall|i: int, j: int| 0 <= i < j < r@.len() implies r@[i].agent_id
                != r@[j].agent_id by {
                if r@[i].agent_id == r@[j].agent_id {
                    assert(self.agents@.contains_key(*v[i].0));
                    assert(self.agents@.contains_key(*v[j].0));
                    assert(v[i] == v[j]);
                }
            }
        }
        r
    }
}

} // verus!
