//! The brain's model of its surroundings: the users it knows with their
//! preferences, the environment variables it learned, and how loaded the
//! machine is.

use vstd::prelude::*;

use crate::strategy_engine::ResourceState;
use crate::text::{owned, str_eq};

verus! {

/// How full one resource is: above 95 %, above 80 %, above 60 %, or less.
#[derive(Debug, Clone, Copy, PartialEq, Eq, Structural)]
pub enum LoadBand {
    Normal,
    Elevated,
    High,
    Full,
}

pub open spec fn band_rank(b: LoadBand) -> nat {
    match b {
        LoadBand::Normal => 0,
        LoadBand::Elevated => 1,
        LoadBand::High => 2,
        LoadBand::Full => 3,
    }
}

/// The state of the resources is set by the fullest of CPU, memory and
/// disk: full means exhausted, high critical, elevated degraded.
pub open spec fn resource_state_spec(cpu: LoadBand, memory: LoadBand, disk: LoadBand) -> ResourceState {
    if cpu == LoadBand::Full || memory == LoadBand::Full || disk == LoadBand::Full {
        ResourceState::Exhausted
    } else if cpu == LoadBand::High || memory == LoadBand::High || disk == LoadBand::High {
        ResourceState::Critical
    } else if cpu == LoadBand::Elevated || memory == LoadBand::Elevated || disk == LoadBand::Elevated {
        ResourceState::Degraded
    } else {
        ResourceState::Healthy
    }
}

/// How severe a resource state is: healthy 0, degraded 1, critical 2,
/// exhausted 3.
pub open spec fn severity(s: ResourceState) -> nat {
    match s {
        ResourceState::Healthy => 0,
        ResourceState::Degraded => 1,
        ResourceState::Critical => 2,
        ResourceState::Exhausted => 3,
    }
}

pub open spec fn max_rank(a: LoadBand, b: LoadBand, c: LoadBand) -> nat {
    let ab = if band_rank(a) >= band_rank(b) { band_rank(a) } else { band_rank(b) };
    if ab >= band_rank(c) { ab } else { band_rank(c) }
}

/// The resource state is set by the fullest band alone, whichever resource
/// it belongs to: it does not change when CPU, memory and disk swap
/// bands, and its severity is the rank of the fullest band (so one high
/// band and no full one always means critical).
pub proof fn lemma_resource_state_by_fullest(cpu: LoadBand, memory: LoadBand, disk: LoadBand)
    ensures
        resource_state_spec(cpu, memory, disk) == resource_state_spec(memory, cpu, disk),
        resource_state_spec(cpu, memory, disk) == resource_state_spec(cpu, disk, memory),
        resource_state_spec(cpu, memory, disk) == resource_state_spec(disk, memory, cpu),
        severity(resource_state_spec(cpu, memory, disk)) == max_rank(cpu, memory, disk),
        max_rank(cpu, memory, disk) == 2 ==> resource_state_spec(cpu, memory, disk)
            == ResourceState::Critical,
{
}

/// A fuller load never makes the resource state less severe.
pub proof fn lemma_resource_state_monotone(
    c1: LoadBand,
    m1: LoadBand,
    d1: LoadBand,
    c2: LoadBand,
    m2: LoadBand,
    d2: LoadBand,
)
    requires
        band_rank(c1) <= band_rank(c2),
        band_rank(m1) <= band_rank(m2),
        band_rank(d1) <= band_rank(d2),
    ensures
        severity(resource_state_spec(c1, m1, d1)) <= severity(resource_state_spec(c2, m2, d2)),
{
    lemma_resource_state_by_fullest(c1, m1, d1);
    lemma_resource_state_by_fullest(c2, m2, d2);
}

/// The state of the resources.
pub fn resource_state(cpu: LoadBand, memory: LoadBand, disk: LoadBand) -> (s: ResourceState)
    ensures
        s == resource_state_spec(cpu, memory, disk),
{
    let full = |b: LoadBand| -> (r: bool)
        ensures
            r == (b == LoadBand::Full),
        {
            match b {
                LoadBand::Full => true,
                _ => false,
            }
        };
    let high = |b: LoadBand| -> (r: bool)
        ensures
            r == (b == LoadBand::High),
        {
            match b {
                LoadBand::High => true,
                _ => false,
            }
        };
    let elevated = |b: LoadBand| -> (r: bool)
        ensures
            r == (b == LoadBand::Elevated),
        {
            match b {
                LoadBand::Elevated => true,
                _ => false,
            }
        };
    if full(cpu) || full(memory) || full(disk) {
        ResourceState::Exhausted
    } else if high(cpu) || high(memory) || high(disk) {
        ResourceState::Critical
    } else if elevated(cpu) || elevated(memory) || elevated(disk) {
        ResourceState::Degraded
    } else {
        ResourceState::Healthy
    }
}

/// A known user.
#[derive(Debug)]
pub struct UserProfile {
    pub username: String,
    pub display_name: Option<String>,
    pub preferences: Vec<(String, String)>,
}

/// The value of the first pair named `key`.
pub open spec fn pair_lookup(ps: Seq<(Seq<char>, Seq<char>)>, key: Seq<char>) -> Option<Seq<char>>
    decreases ps.len(),
{
    if ps.len() == 0 {
        None
    } else if ps.last().0 == key {
        Some(ps.last().1)
    } else {
        pair_lookup(ps.drop_last(), key)
    }
}

/// A display name by its view.
pub open spec fn name_view(n: Option<String>) -> Option<Seq<char>> {
    match n {
        Some(s) => Some(s@),
        None => None,
    }
}

pub open spec fn pviews(s: Seq<(String, String)>) -> Seq<(Seq<char>, Seq<char>)> {
    s.map_values(|p: (String, String)| (p.0@, p.1@))
}

/// Index of the first user named `name`.
pub open spec fn user_index(us: Seq<UserProfile>, name: Seq<char>) -> Option<int> {
    if exists|i: int| 0 <= i < us.len() && us[i].username@ == name {
        Some(choose|i: int| 0 <= i < us.len() && us[i].username@ == name && forall|j: int| 0 <= j < i ==> us[j].username@ != name)
    } else {
        None
    }
}

/// Users and environment the brain has learned. A key set later shadows
/// the same key set earlier.
pub struct WorldModelService {
    pub users: Vec<UserProfile>,
    pub environment: Vec<(String, String)>,
}

impl WorldModelService {
    /// Knows nothing.
    pub fn new() -> (w: Self)
        ensures
            w.users@.len() == 0,
            w.environment@.len() == 0,
    {
        WorldModelService { users: Vec::new(), environment: Vec::new() }
    }

    fn find_user(&self, username: &str) -> (r: Option<usize>)
        ensures
            match r {
                Some(i) => i < self.users@.len() && self.users@[i as int].username@ == username@
                    && forall|j: int| 0 <= j < i ==> self.users@[j].username@ != username@,
                None => forall|j: int| 0 <= j < self.users@.len() ==> self.users@[j].username@ != username@,
            },
    {
        let mut i: usize = 0;
        while i < self.users.len()
            invariant
                i <= self.users@.len(),
                forall|j: int| 0 <= j < i ==> self.users@[j].username@ != username@,
            decreases self.users@.len() - i,
        {
            if str_eq(self.users[i].username.as_str(), username) {
                return Some(i);
            }
            i = i + 1;
        }
        None
    }

    /// Registers a user, or updates the display name of a known one when
    /// a name is given.
    pub fn register_user(&mut self, username: &str, display_name: Option<&str>)
        ensures
            match old(self).find_spec(username@) {
                Some(i) => {
                    &&& final(self).users@.len() == old(self).users@.len()
                    &&& forall|j: int|
                        0 <= j < old(self).users@.len() && j != i ==> #[trigger] final(self).users@[j]
                            == old(self).users@[j]
                    &&& final(self).users@[i].username@ == username@
                    &&& final(self).users@[i].preferences@ == old(self).users@[i].preferences@
                    &&& name_view(final(self).users@[i].display_name) == match display_name {
                        Some(d) => Some(d@),
                        None => name_view(old(self).users@[i].display_name),
                    }
                },
                None => {
                    &&& final(self).users@.len() == old(self).users@.len() + 1
                    &&& final(self).users@.drop_last() == old(self).users@
                    &&& final(self).users@.last().username@ == username@
                    &&& final(self).users@.last().preferences@.len() == 0
                    &&& name_view(final(self).users@.last().display_name) == match display_name {
                        Some(d) => Some(d@),
                        None => None,
                    }
                },
            },
            final(self).environment@ == old(self).environment@,
    {
        match self.find_user(username) {
            Some(i) => {
                match display_name {
                    Some(dn) => {
                        let ghost before = self.users@;
                        let mut u = self.users.remove(i);
                        u.display_name = Some(owned(dn));
                        self.users.insert(i, u);
                        assert forall|j: int|
                            0 <= j < before.len() && j != i implies #[trigger] self.users@[j]
                            == before[j] by {
                            if j < i {
                                assert(self.users@[j] == before.remove(i as int)[j]);
                            } else {
                                assert(self.users@[j] == before.remove(i as int)[j - 1]);
                            }
                        }
                    },
                    None => {},
                }
            },
            None => {
                self.users.push(
                    UserProfile {
                        username: owned(username),
                        display_name: match display_name {
                            Some(d) => Some(owned(d)),
                            None => None,
                        },
                        preferences: Vec::new(),
                    },
                );
                assert(self.users@.drop_last() =~= old(self).users@);
            },
        }
    }

    /// Sets a preference of a known user; unknown users are ignored.
    pub fn set_user_preference(&mut self, username: &str, key: &str, value: &str)
        ensures
            final(self).users@.len() == old(self).users@.len(),
            forall|i: int|
                0 <= i < old(self).users@.len() ==> #[trigger] final(self).users@[i].username@
                    == old(self).users@[i].username@,
            match old(self).find_spec(username@) {
                Some(i) => pair_lookup(pviews(final(self).users@[i].preferences@), key@) == Some(value@)
                    && forall|k: Seq<char>|
                    k != key@ ==> #[trigger] pair_lookup(pviews(final(self).users@[i].preferences@), k)
                        == pair_lookup(pviews(old(self).users@[i].preferences@), k),
                None => final(self).users@ == old(self).users@,
            },
            final(self).environment@ == old(self).environment@,
    {
        match self.find_user(username) {
            Some(i) => {
                let mut u = self.users.remove(i);
                let ghost before = pviews(u.preferences@);
                u.preferences.push((owned(key), owned(value)));
                assert(pviews(u.preferences@) =~= before.push((key@, value@)));
                assert(pviews(u.preferences@).drop_last() =~= before);
                self.users.insert(i, u);
            },
            None => {},
        }
    }

    pub open spec fn find_spec(self, username: Seq<char>) -> Option<int> {
        user_index(self.users@, username)
    }

    /// A preference of a known user.
    pub fn get_user_preference(&self, username: &str, key: &str) -> (r: Option<String>)
        ensures
            match self.find_spec(username@) {
                Some(i) => match r {
                    Some(v) => pair_lookup(pviews(self.users@[i].preferences@), key@) == Some(v@),
                    None => pair_lookup(pviews(self.users@[i].preferences@), key@) is None,
                },
                None => r is None,
            },
    {
        match self.find_user(username) {
            Some(i) => lookup_pairs(&self.users[i].preferences, key),
            None => None,
        }
    }

    /// Learns an environment variable.
    pub fn set_env(&mut self, key: &str, value: &str)
        ensures
            pair_lookup(pviews(final(self).environment@), key@) == Some(value@),
            forall|k: Seq<char>|
                k != key@ ==> #[trigger] pair_lookup(pviews(final(self).environment@), k) == pair_lookup(
                    pviews(old(self).environment@),
                    k,
                ),
    {
        let ghost before = pviews(self.environment@);
        self.environment.push((owned(key), owned(value)));
        assert(pviews(self.environment@) =~= before.push((key@, value@)));
        assert(pviews(self.environment@).drop_last() =~= before);
    }

    /// An environment variable.
    pub fn get_env(&self, key: &str) -> (r: Option<String>)
        ensures
            match r {
                Some(v) => pair_lookup(pviews(self.environment@), key@) == Some(v@),
                None => pair_lookup(pviews(self.environment@), key@) is None,
            },
    {
        lookup_pairs(&self.environment, key)
    }
}

/// The value of the last pair named `key`.
fn lookup_pairs(ps: &Vec<(String, String)>, key: &str) -> (r: Option<String>)
    ensures
        match r {
            Some(v) => pair_lookup(pviews(ps@), key@) == Some(v@),
            None => pair_lookup(pviews(ps@), key@) is None,
        },
{
    let ghost all = pviews(ps@);
    let mut i: usize = ps.len();
    assert(all.subrange(0, ps@.len() as int) =~= all);
    while i > 0
        invariant
            i <= ps@.len(),
            all == pviews(ps@),
            pair_lookup(all, key@) == pair_lookup(all.subrange(0, i as int), key@),
        decreases i,
    {
        let ghost pre = all.subrange(0, i as int);
        assert(pre.last() == (ps@[i - 1].0@, ps@[i - 1].1@));
        if str_eq(ps[i - 1].0.as_str(), key) {
            return Some(ps[i - 1].1.clone());
        }
        assert(pre.drop_last() =~= all.subrange(0, i - 1));
        i = i - 1;
    }
    None
}

} // verus!
