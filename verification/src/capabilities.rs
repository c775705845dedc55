//! Registry of the capabilities the planner may use.

use vstd::prelude::*;
use vstd::seq_lib::{to_multiset_build, to_multiset_insert};

use crate::text::{chars_of, owned, str_eq};

verus! {

/// A declared capability the system can execute.
#[derive(Debug)]
pub struct Capability {
    pub name: String,
    pub description: String,
}

impl View for Capability {
    type V = (Seq<char>, Seq<char>);

    open spec fn view(&self) -> (Seq<char>, Seq<char>) {
        (self.name@, self.description@)
    }
}

impl Clone for Capability {
    fn clone(&self) -> (r: Self)
        ensures
            r@ == self@,
    {
        Capability { name: self.name.clone(), description: self.description.clone() }
    }
}

pub open spec fn cviews(s: Seq<Capability>) -> Seq<(Seq<char>, Seq<char>)> {
    s.map_values(|c: Capability| c@)
}

/// Lexicographic order of strings by code point (the order of `str`).
pub open spec fn seq_le(a: Seq<char>, b: Seq<char>) -> bool
    decreases a.len(),
{
    if a.len() == 0 {
        true
    } else if b.len() == 0 {
        false
    } else if (a[0] as u32) < (b[0] as u32) {
        true
    } else if (a[0] as u32) > (b[0] as u32) {
        false
    } else {
        seq_le(a.drop_first(), b.drop_first())
    }
}

pub proof fn lemma_seq_le_total(a: Seq<char>, b: Seq<char>)
    ensures
        seq_le(a, b) || seq_le(b, a),
    decreases a.len(),
{
    if a.len() > 0 && b.len() > 0 && a[0] as u32 == b[0] as u32 {
        lemma_seq_le_total(a.drop_first(), b.drop_first());
    }
}

pub proof fn lemma_seq_le_trans(a: Seq<char>, b: Seq<char>, c: Seq<char>)
    requires
        seq_le(a, b),
        seq_le(b, c),
    ensures
        seq_le(a, c),
    decreases a.len(),
{
    if a.len() > 0 && b.len() > 0 && c.len() > 0 {
        if a[0] as u32 == b[0] as u32 && b[0] as u32 == c[0] as u32 {
            lemma_seq_le_trans(a.drop_first(), b.drop_first(), c.drop_first());
        }
    }
}

/// The names of `s` appear in non-decreasing order.
pub open spec fn sorted_by_name(s: Seq<(Seq<char>, Seq<char>)>) -> bool {
    forall|i: int, j: int| 0 <= i < j < s.len() ==> seq_le(s[i].0, s[j].0)
}

fn chars_le(a: &Vec<char>, b: &Vec<char>) -> (r: bool)
    ensures
        r == seq_le(a@, b@),
{
    proof {
        assert(a@.skip(0) =~= a@);
        assert(b@.skip(0) =~= b@);
    }
    let mut i: usize = 0;
    while i < a.len() && i < b.len() && (a[i] as u32) == (b[i] as u32)
        invariant
            i <= a@.len(),
            i <= b@.len(),
            seq_le(a@, b@) == seq_le(a@.skip(i as int), b@.skip(i as int)),
        decreases a@.len() - i,
    {
        proof {
            let x = a@.skip(i as int);
            let y = b@.skip(i as int);
            assert(x.drop_first() =~= a@.skip(i + 1));
            assert(y.drop_first() =~= b@.skip(i + 1));
            assert(x[0] == a@[i as int]);
            assert(y[0] == b@[i as int]);
        }
        i = i + 1;
    }
    proof {
        assert(a@.skip(0) =~= a@);
        assert(b@.skip(0) =~= b@);
    }
    if i == a.len() {
        assert(a@.skip(i as int).len() == 0);
        true
    } else if i == b.len() {
        assert(b@.skip(i as int).len() == 0);
        false
    } else {
        assert(a@.skip(i as int)[0] == a@[i as int]);
        assert(b@.skip(i as int)[0] == b@[i as int]);
        (a[i] as u32) < (b[i] as u32)
    }
}

/// `a` is at most `b` in the order of `str`.
pub fn name_le_pub(a: &str, b: &str) -> (r: bool)
    ensures
        r == seq_le(a@, b@),
{
    name_le(a, b)
}

pub proof fn lemma_seq_le_refl(a: Seq<char>)
    ensures
        seq_le(a, a),
    decreases a.len(),
{
    if a.len() > 0 {
        lemma_seq_le_refl(a.drop_first());
    }
}

fn name_le(a: &str, b: &str) -> (r: bool)
    ensures
        r == seq_le(a@, b@),
{
    let x = chars_of(a);
    let y = chars_of(b);
    chars_le(&x, &y)
}

/// The description registered under `name`, if any.
pub open spec fn lookup(entries: Seq<(Seq<char>, Seq<char>)>, name: Seq<char>) -> Option<Seq<char>> {
    if exists|i: int| 0 <= i < entries.len() && entries[i].0 == name {
        let i = choose|i: int| 0 <= i < entries.len() && entries[i].0 == name;
        Some(entries[i].1)
    } else {
        None
    }
}

/// Registry of every capability the planner may propose.
#[derive(Debug)]
pub struct CapabilityRegistry {
    capabilities: Vec<Capability>,
}

impl CapabilityRegistry {
    /// The registered capabilities, in registration order.
    pub closed spec fn entries(self) -> Seq<(Seq<char>, Seq<char>)> {
        cviews(self.capabilities@)
    }

    /// No two capabilities share a name.
    pub open spec fn wf(self) -> bool {
        forall|i: int, j: int|
            0 <= i < j < self.entries().len() ==> self.entries()[i].0 != self.entries()[j].0
    }

    pub open spec fn described(self, name: Seq<char>) -> Option<Seq<char>> {
        lookup(self.entries(), name)
    }

    pub fn new() -> (r: Self)
        ensures
            r.wf(),
            r.entries().len() == 0,
    {
        CapabilityRegistry { capabilities: Vec::new() }
    }

    fn find(&self, name: &str) -> (r: Option<usize>)
        ensures
            match r {
                Some(i) => i < self.entries().len() && self.entries()[i as int].0 == name@,
                None => forall|k: int| 0 <= k < self.entries().len() ==> self.entries()[k].0 != name@,
            },
    {
        let mut i: usize = 0;
        while i < self.capabilities.len()
            invariant
                i <= self.capabilities@.len(),
                forall|k: int| 0 <= k < i ==> self.capabilities@[k].name@ != name@,
            decreases self.capabilities@.len() - i,
        {
            if str_eq(self.capabilities[i].name.as_str(), name) {
                return Some(i);
            }
            i = i + 1;
        }
        None
    }

    /// Register a capability; one with the same name is replaced.
    pub fn register(&mut self, capability: Capability)
        requires
            old(self).wf(),
        ensures
            final(self).wf(),
            final(self).described(capability.name@) == Some(capability.description@),
            forall|n: Seq<char>| n != capability.name@ ==> final(self).described(n) == old(self).described(n),
            final(self).entries().len() == old(self).entries().len() + (if old(self).described(
                capability.name@,
            ).is_some() {
                0int
            } else {
                1int
            }),
    {
        let ghost before = self.entries();
        let ghost c = capability@;
        let ghost mut idx: int = 0;
        match self.find(capability.name.as_str()) {
            Some(i) => {
                self.capabilities.set(i, capability);
                assert(self.entries() =~= before.update(i as int, c));
                proof { idx = i as int; }
            },
            None => {
                self.capabilities.push(capability);
                assert(self.entries() =~= before.push(c));
                proof { idx = before.len() as int; }
            },
        }
        let ghost after = self.entries();
        proof {
            assert forall|a: int, b: int| 0 <= a < b < after.len() implies after[a].0 != after[b].0 by {
                if a < before.len() && b < before.len() && after[a] == before[a] && after[b] == before[b] {
                    assert(before[a].0 != before[b].0);
                }
            }
            assert(after[idx] == c);
            let k = choose|k: int| 0 <= k < after.len() && after[k].0 == c.0;
            assert(k == idx);
            assert(lookup(after, c.0) == Some(c.1));
            assert forall|n: Seq<char>| n != c.0 implies lookup(after, n) == lookup(before, n) by {
                if exists|k: int| 0 <= k < before.len() && before[k].0 == n {
                    let k = choose|k: int| 0 <= k < before.len() && before[k].0 == n;
                    assert(after[k] == before[k]);
                }
                if exists|k: int| 0 <= k < after.len() && after[k].0 == n {
                    let k = choose|k: int| 0 <= k < after.len() && after[k].0 == n;
                    assert(before[k] == after[k]);
                }
            }
        }
    }

    /// The capability registered under `name`.
    pub fn get(&self, name: &str) -> (r: Option<&Capability>)
        requires
            self.wf(),
        ensures
            match r {
                Some(c) => c.name@ == name@ && self.described(name@) == Some(c.description@),
                None => self.described(name@).is_none(),
            },
    {
        match self.find(name) {
            Some(i) => {
                proof {
                    let e = self.entries();
                    assert(e[i as int].0 == name@);
                    let k = choose|k: int| 0 <= k < e.len() && e[k].0 == name@;
                    assert(k == i);
                }
                Some(&self.capabilities[i])
            },
            None => None,
        }
    }

    /// Every capability, sorted by name.
    pub fn list(&self) -> (r: Vec<Capability>)
        ensures
            sorted_by_name(cviews(r@)),
            cviews(r@).to_multiset() == self.entries().to_multiset(),
            self.wf() ==> forall|a: int, b: int|
                0 <= a < b < r@.len() ==> cviews(r@)[a].0 != cviews(r@)[b].0,
            self.wf() ==> forall|k: int|
                0 <= k < r@.len() ==> self.described(#[trigger] cviews(r@)[k].0) == Some(
                    cviews(r@)[k].1,
                ),
    {
        let mut r: Vec<Capability> = Vec::new();
        let mut i: usize = 0;
        assert(cviews(r@) =~= Seq::<(Seq<char>, Seq<char>)>::empty());
        assert(cviews(self.capabilities@.subrange(0, 0)) =~= Seq::<(Seq<char>, Seq<char>)>::empty());
        while i < self.capabilities.len()
            invariant
                i <= self.capabilities@.len(),
                sorted_by_name(cviews(r@)),
                cviews(r@).to_multiset() == cviews(self.capabilities@.subrange(0, i as int)).to_multiset(),
                forall|k: int|
                    0 <= k < r@.len() ==> exists|m: int|
                        0 <= m < i && #[trigger] cviews(r@)[k] == self.entries()[m],
                self.wf() ==> forall|a: int, b: int|
                    0 <= a < b < r@.len() ==> cviews(r@)[a].0 != cviews(r@)[b].0,
            decreases self.capabilities@.len() - i,
        {
            let c = self.capabilities[i].clone();
            let mut j: usize = 0;
            while j < r.len() && name_le(r[j].name.as_str(), c.name.as_str())
                invariant
                    j <= r@.len(),
                    forall|k: int| 0 <= k < j ==> seq_le(r@[k].name@, c.name@),
                decreases r@.len() - j,
            {
                j = j + 1;
            }
            let ghost before = cviews(r@);
            proof {
                if j < r@.len() {
                    lemma_seq_le_total(r@[j as int].name@, c.name@);
                }
            }
            r.insert(j, c);
            proof {
                let after = cviews(r@);
                assert(after =~= before.insert(j as int, c@));
                to_multiset_insert(before, j as int, c@);
                assert forall|a: int, b: int| 0 <= a < b < after.len() implies seq_le(after[a].0, after[b].0) by {
                    if b < j {
                        assert(after[a] == before[a] && after[b] == before[b]);
                    } else if b == j {
                        assert(after[a] == before[a]);
                    } else if a < j {
                        assert(after[a] == before[a] && after[b] == before[b - 1]);
                        if j < before.len() {
                            lemma_seq_le_trans(before[a].0, c.name@, before[j as int].0);
                            if b - 1 > j {
                                lemma_seq_le_trans(before[a].0, before[j as int].0, before[b - 1].0);
                            }
                        }
                    } else if a == j {
                        assert(after[b] == before[b - 1]);
                        if b - 1 > j {
                            lemma_seq_le_trans(c.name@, before[j as int].0, before[b - 1].0);
                        }
                    } else {
                        assert(after[a] == before[a - 1] && after[b] == before[b - 1]);
                    }
                }
                assert(c@ == self.entries()[i as int]);
                assert forall|k: int| 0 <= k < after.len() implies exists|m: int|
                    0 <= m < i + 1 && #[trigger] after[k] == self.entries()[m] by {
                    if k < j {
                        assert(after[k] == before[k]);
                    } else if k == j {
                        assert(after[k] == self.entries()[i as int]);
                    } else {
                        assert(after[k] == before[k - 1]);
                    }
                }
                if self.wf() {
                    assert forall|k: int| 0 <= k < before.len() implies before[k].0 != c@.0 by {
                        let m = choose|m: int| 0 <= m < i && #[trigger] before[k] == self.entries()[m];
                        assert(self.entries()[m].0 != self.entries()[i as int].0);
                    }
                    assert forall|a: int, b: int| 0 <= a < b < after.len() implies after[a].0
                        != after[b].0 by {
                        let pa = if a < j { a } else { a - 1 };
                        let pb = if b < j { b } else { b - 1 };
                        if a == j {
                            assert(after[b] == before[pb]);
                        } else if b == j {
                            assert(after[a] == before[pa]);
                        } else {
                            assert(after[a] == before[pa] && after[b] == before[pb]);
                        }
                    }
                }
                let src = self.capabilities@;
                assert(src.subrange(0, i + 1) =~= src.subrange(0, i as int).push(src[i as int]));
                assert(cviews(src.subrange(0, i + 1)) =~= cviews(src.subrange(0, i as int)).push(c@));
                to_multiset_build(cviews(src.subrange(0, i as int)), c@);
            }
            i = i + 1;
        }
        assert(self.capabilities@.subrange(0, i as int) =~= self.capabilities@);
        proof {
            if self.wf() {
                assert forall|k: int| 0 <= k < r@.len() implies self.described(
                    #[trigger] cviews(r@)[k].0,
                ) == Some(cviews(r@)[k].1) by {
                    let m = choose|m: int| 0 <= m < i && #[trigger] cviews(r@)[k] == self.entries()[m];
                    let e = self.entries();
                    let q = choose|q: int| 0 <= q < e.len() && e[q].0 == e[m].0;
                    assert(q == m);
                }
            }
        }
        r
    }
}

/// The description of a standard capability among the first `k` of them;
/// `None` for any other name.
pub open spec fn standard_prefix(k: int, name: Seq<char>) -> Option<Seq<char>> {
    if k > 0 && name == "search_memory"@ {
        Some("Search stored knowledge about the user — their projects, interests, preferences, and past conversations. Use when the user asks about what you know, remember, or should know about them."@)
    } else if k > 1 && name == "search_recent_conversation"@ {
        Some("Review recent conversation history for context about what was just discussed."@)
    } else if k > 2 && name == "respond"@ {
        Some("Generate a natural language response to the user's message."@)
    } else if k > 3 && name == "ask_clarification"@ {
        Some("Ask the user a clarifying question when their intent is ambiguous."@)
    } else if k > 4 && name == "ignore"@ {
        Some("Do nothing. Use when the message is empty, trivial, or requires no action."@)
    } else if k > 5 && name == "observe"@ {
        Some("Silently record the observation without responding. Use for factual updates the user provides."@)
    } else if k > 6 && name == "schedule"@ {
        Some("Schedule a future action or reminder."@)
    } else {
        None
    }
}

/// The description of a standard capability; `None` for any other name.
pub open spec fn standard_description(name: Seq<char>) -> Option<Seq<char>> {
    standard_prefix(7, name)
}

impl Default for CapabilityRegistry {
    /// The standard capabilities: memory search, recent-conversation
    /// search, respond, ask for clarification, ignore, observe, schedule.
    fn default() -> (reg: Self)
        ensures
            reg.wf(),
            reg.entries().len() == 7,
            forall|n: Seq<char>| #[trigger] reg.described(n) == standard_description(n),
    {
        proof {
            reveal_strlit("search_memory");
            reveal_strlit("search_recent_conversation");
            reveal_strlit("respond");
            reveal_strlit("ask_clarification");
            reveal_strlit("ignore");
            reveal_strlit("observe");
            reveal_strlit("schedule");
        }
        let mut reg = Self::new();
        assert forall|n: Seq<char>| #[trigger] reg.described(n) == standard_prefix(0, n) by {}
        assert(reg.described("search_memory"@) is None);
        reg.register(Capability { name: owned("search_memory"), description: owned("Search stored knowledge about the user — their projects, interests, preferences, and past conversations. Use when the user asks about what you know, remember, or should know about them.") });
        assert forall|n: Seq<char>| #[trigger] reg.described(n) == standard_prefix(1, n) by {}
        assert("search_recent_conversation"@.len() != "search_memory"@.len());
        assert(reg.described("search_recent_conversation"@) is None);
        reg.register(Capability { name: owned("search_recent_conversation"), description: owned("Review recent conversation history for context about what was just discussed.") });
        assert forall|n: Seq<char>| #[trigger] reg.described(n) == standard_prefix(2, n) by {}
        assert("respond"@.len() != "search_memory"@.len());
        assert("respond"@.len() != "search_recent_conversation"@.len());
        assert(reg.described("respond"@) is None);
        reg.register(Capability { name: owned("respond"), description: owned("Generate a natural language response to the user's message.") });
        assert forall|n: Seq<char>| #[trigger] reg.described(n) == standard_prefix(3, n) by {}
        assert("ask_clarification"@.len() != "search_memory"@.len());
        assert("ask_clarification"@.len() != "search_recent_conversation"@.len());
        assert("ask_clarification"@.len() != "respond"@.len());
        assert(reg.described("ask_clarification"@) is None);
        reg.register(Capability { name: owned("ask_clarification"), description: owned("Ask the user a clarifying question when their intent is ambiguous.") });
        assert forall|n: Seq<char>| #[trigger] reg.described(n) == standard_prefix(4, n) by {}
        assert("ignore"@.len() != "search_memory"@.len());
        assert("ignore"@.len() != "search_recent_conversation"@.len());
        assert("ignore"@.len() != "respond"@.len());
        assert("ignore"@.len() != "ask_clarification"@.len());
        assert(reg.described("ignore"@) is None);
        reg.register(Capability { name: owned("ignore"), description: owned("Do nothing. Use when the message is empty, trivial, or requires no action.") });
        assert forall|n: Seq<char>| #[trigger] reg.described(n) == standard_prefix(5, n) by {}
        assert("observe"@.len() != "search_memory"@.len());
        assert("observe"@.len() != "search_recent_conversation"@.len());
        assert("observe"@[0] != "respond"@[0]);
        assert("observe"@.len() != "ask_clarification"@.len());
        assert("observe"@.len() != "ignore"@.len());
        assert(reg.described("observe"@) is None);
        reg.register(Capability { name: owned("observe"), description: owned("Silently record the observation without responding. Use for factual updates the user provides.") });
        assert forall|n: Seq<char>| #[trigger] reg.described(n) == standard_prefix(6, n) by {}
        assert("schedule"@.len() != "search_memory"@.len());
        assert("schedule"@.len() != "search_recent_conversation"@.len());
        assert("schedule"@.len() != "respond"@.len());
        assert("schedule"@.len() != "ask_clarification"@.len());
        assert("schedule"@.len() != "ignore"@.len());
        assert("schedule"@.len() != "observe"@.len());
        assert(reg.described("schedule"@) is None);
        reg.register(Capability { name: owned("schedule"), description: owned("Schedule a future action or reminder.") });
        assert forall|n: Seq<char>| #[trigger] reg.described(n) == standard_prefix(7, n) by {}
        reg
    }
}

} // verus!
