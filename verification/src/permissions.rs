//! Observation-source permissions.
//!
//! Sources are identified by category name ("desktop", "time", "system",
//! ...). The companion checks `is_granted` before polling a source; denied
//! sources are silently skipped.

use vstd::prelude::*;

use crate::text::{owned, str_eq};

verus! {

/// Whether a source may observe.
#[derive(Debug, Clone, Copy, PartialEq, Eq, Structural)]
pub enum PermissionState {
    Granted,
    Denied,
    NotRequested,
}

/// A permission entry for one source category.
#[derive(Debug)]
pub struct PermissionEntry {
    pub state: PermissionState,
    pub description: String,
}

/// The categories the companion knows about, in their documented order.
pub open spec fn known_names() -> Seq<Seq<char>> {
    seq![
        "time"@,
        "system"@,
        "desktop"@,
        "filesystem"@,
        "clipboard"@,
        "calendar"@,
        "email"@,
        "browser"@,
        "location"@,
        "microphone"@,
        "camera"@,
    ]
}

/// The description of each known category, in the same order.
pub open spec fn known_descriptions() -> Seq<Seq<char>> {
    seq![
        "Track time of day for context awareness"@,
        "Monitor system load and memory usage"@,
        "Observe which windows and applications are active"@,
        "Read file system activity"@,
        "Monitor clipboard content"@,
        "Read calendar events"@,
        "Read email activity"@,
        "Monitor browser activity"@,
        "Access location data"@,
        "Access microphone"@,
        "Access camera"@,
    ]
}

/// Some entry named `name` is granted.
pub open spec fn granted_in(entries: Seq<(String, PermissionEntry)>, name: Seq<char>) -> bool {
    exists|i: int|
        0 <= i < entries.len() && entries[i].0@ == name && entries[i].1.state
            == PermissionState::Granted
}

/// Registry of all observation-source permissions.
#[derive(Debug)]
pub struct PermissionRegistry {
    pub permissions: Vec<(String, PermissionEntry)>,
}

impl PermissionRegistry {
    /// The category names present, in order.
    pub open spec fn names(self) -> Seq<Seq<char>> {
        self.permissions@.map_values(|e: (String, PermissionEntry)| e.0@)
    }

    /// The category descriptions, in order.
    pub open spec fn descriptions(self) -> Seq<Seq<char>> {
        self.permissions@.map_values(|e: (String, PermissionEntry)| e.1.description@)
    }

    /// No category is listed twice.
    pub open spec fn unique_names(self) -> bool {
        forall|i: int, j: int| 0 <= i < j < self.names().len() ==> self.names()[i] != self.names()[j]
    }

    pub open spec fn granted(self, name: Seq<char>) -> bool {
        granted_in(self.permissions@, name)
    }

    fn with_state(state: PermissionState) -> (r: Self)
        ensures
            r.names() == known_names(),
            r.descriptions() == known_descriptions(),
            forall|i: int| 0 <= i < r.permissions@.len() ==> #[trigger] r.permissions@[i].1.state == state,
    {
        let known = Self::all_known();
        let mut permissions: Vec<(String, PermissionEntry)> = Vec::new();
        let mut i: usize = 0;
        while i < known.len()
            invariant
                i <= known@.len(),
                known@.len() == known_names().len(),
                forall|k: int| 0 <= k < known@.len() ==> #[trigger] known@[k].0@ == known_names()[k],
                forall|k: int| 0 <= k < known@.len() ==> #[trigger] known@[k].1@ == known_descriptions()[k],
                permissions@.len() == i,
                forall|k: int| 0 <= k < i ==> #[trigger] permissions@[k].0@ == known_names()[k],
                forall|k: int| 0 <= k < i ==> #[trigger] permissions@[k].1.description@ == known_descriptions()[k],
                forall|k: int| 0 <= k < i ==> #[trigger] permissions@[k].1.state == state,
            decreases known@.len() - i,
        {
            let (name, desc) = known[i];
            permissions.push((owned(name), PermissionEntry { state, description: owned(desc) }));
            i = i + 1;
        }
        let r = PermissionRegistry { permissions };
        assert(r.names() =~= known_names());
        assert(r.descriptions() =~= known_descriptions());
        r
    }

    /// A registry with safe defaults: every known category denied.
    pub fn new() -> (r: Self)
        ensures
            r.names() == known_names(),
            r.descriptions() == known_descriptions(),
            forall|i: int| 0 <= i < r.permissions@.len() ==> #[trigger] r.permissions@[i].1.state
                == PermissionState::Denied,
            forall|name: Seq<char>| !r.granted(name),
            r.unique_names(),
    {
        proof {
            lemma_known_names_distinct();
        }
        Self::with_state(PermissionState::Denied)
    }

    /// A registry with every known category granted (first-run convenience).
    pub fn all_granted() -> (r: Self)
        ensures
            r.names() == known_names(),
            r.descriptions() == known_descriptions(),
            forall|i: int| 0 <= i < r.permissions@.len() ==> #[trigger] r.permissions@[i].1.state
                == PermissionState::Granted,
            forall|name: Seq<char>| r.granted(name) <==> known_names().contains(name),
            r.unique_names(),
    {
        proof {
            lemma_known_names_distinct();
        }
        let r = Self::with_state(PermissionState::Granted);
        assert forall|name: Seq<char>| r.granted(name) <==> known_names().contains(name) by {
            if r.granted(name) {
                let i = choose|i: int|
                    0 <= i < r.permissions@.len() && r.permissions@[i].0@ == name
                        && r.permissions@[i].1.state == PermissionState::Granted;
                assert(r.names()[i] == name);
            }
            if known_names().contains(name) {
                let i = choose|i: int| 0 <= i < known_names().len() && known_names()[i] == name;
                assert(r.names()[i] == name);
                assert(r.permissions@[i].0@ == name);
            }
        }
        r
    }

    /// May the category `source_name` observe?
    pub fn is_granted(&self, source_name: &str) -> (b: bool)
        ensures
            b == self.granted(source_name@),
    {
        let mut i: usize = 0;
        while i < self.permissions.len()
            invariant
                i <= self.permissions@.len(),
                forall|k: int|
                    0 <= k < i ==> !(self.permissions@[k].0@ == source_name@
                        && self.permissions@[k].1.state == PermissionState::Granted),
            decreases self.permissions@.len() - i,
        {
            if str_eq(self.permissions[i].0.as_str(), source_name)
                && self.permissions[i].1.state == PermissionState::Granted {
                return true;
            }
            i = i + 1;
        }
        false
    }

    /// Set the state of the category `source`. Unknown categories are left
    /// alone: the registry only holds categories it was created with.
    pub fn set(&mut self, source: &str, state: PermissionState)
        ensures
            final(self).names() == old(self).names(),
            old(self).unique_names() ==> final(self).unique_names(),
            final(self).permissions@.len() == old(self).permissions@.len(),
            forall|i: int|
                0 <= i < old(self).permissions@.len() ==> (#[trigger] final(self).permissions@[i]).1.state
                    == (if old(self).permissions@[i].0@ == source@ {
                    state
                } else {
                    old(self).permissions@[i].1.state
                }),
            forall|i: int|
                0 <= i < old(self).permissions@.len() ==> (#[trigger] final(self).permissions@[i]).1.description@
                    == old(self).permissions@[i].1.description@,
    {
        let ghost orig = self.permissions@;
        let mut i: usize = 0;
        while i < self.permissions.len()
            invariant
                i <= self.permissions@.len(),
                self.permissions@.len() == orig.len(),
                forall|k: int| 0 <= k < orig.len() ==> (#[trigger] self.permissions@[k]).0@ == orig[k].0@,
                forall|k: int| 0 <= k < orig.len() ==> (#[trigger] self.permissions@[k]).1.description@
                    == orig[k].1.description@,
                forall|k: int|
                    0 <= k < orig.len() ==> (#[trigger] self.permissions@[k]).1.state == (if k < i
                        && orig[k].0@ == source@ {
                        state
                    } else {
                        orig[k].1.state
                    }),
            decreases self.permissions@.len() - i,
        {
            if str_eq(self.permissions[i].0.as_str(), source) {
                let (name, mut entry) = self.permissions.remove(i);
                entry.state = state;
                self.permissions.insert(i, (name, entry));
            }
            i = i + 1;
        }
        assert(self.names() =~= orig.map_values(|e: (String, PermissionEntry)| e.0@));
        proof {
            let n = self.names();
            assert(n == old(self).names());
            if old(self).unique_names() {
                assert forall|a: int, b: int| 0 <= a < b < n.len() implies n[a] != n[b] by {
                    assert(old(self).names()[a] != old(self).names()[b]);
                }
            }
        }
    }

    /// Every known category with its description.
    pub fn all_known() -> (r: Vec<(&'static str, &'static str)>)
        ensures
            r@.len() == known_names().len(),
            forall|i: int| 0 <= i < r@.len() ==> #[trigger] r@[i].0@ == known_names()[i],
            forall|i: int| 0 <= i < r@.len() ==> #[trigger] r@[i].1@ == known_descriptions()[i],
    {
        let mut r: Vec<(&'static str, &'static str)> = Vec::new();
        r.push(("time", "Track time of day for context awareness"));
        r.push(("system", "Monitor system load and memory usage"));
        r.push(("desktop", "Observe which windows and applications are active"));
        r.push(("filesystem", "Read file system activity"));
        r.push(("clipboard", "Monitor clipboard content"));
        r.push(("calendar", "Read calendar events"));
        r.push(("email", "Read email activity"));
        r.push(("browser", "Monitor browser activity"));
        r.push(("location", "Access location data"));
        r.push(("microphone", "Access microphone"));
        r.push(("camera", "Access camera"));
        r
    }

    /// The permission category of an observation source. The built-in
    /// sources ("time", "system", "desktop") are their own category, and a
    /// custom source passes through under its own name.
    pub fn category_for_source(source_name: &str) -> (r: &str)
        ensures
            r@ == source_name@,
    {
        source_name
    }
}


/// The known categories are eleven distinct names.
pub proof fn lemma_known_names_distinct()
    ensures
        known_names().len() == 11,
        forall|i: int, j: int|
            0 <= i < j < known_names().len() ==> known_names()[i] != known_names()[j],
{
    reveal_strlit("time");
    reveal_strlit("system");
    reveal_strlit("desktop");
    reveal_strlit("filesystem");
    reveal_strlit("clipboard");
    reveal_strlit("calendar");
    reveal_strlit("email");
    reveal_strlit("browser");
    reveal_strlit("location");
    reveal_strlit("microphone");
    reveal_strlit("camera");
    assert(known_names()[0].len() != known_names()[1].len());
    assert(known_names()[0].len() != known_names()[2].len());
    assert(known_names()[0].len() != known_names()[3].len());
    assert(known_names()[0].len() != known_names()[4].len());
    assert(known_names()[0].len() != known_names()[5].len());
    assert(known_names()[0].len() != known_names()[6].len());
    assert(known_names()[0].len() != known_names()[7].len());
    assert(known_names()[0].len() != known_names()[8].len());
    assert(known_names()[0].len() != known_names()[9].len());
    assert(known_names()[0].len() != known_names()[10].len());
    assert(known_names()[1].len() != known_names()[2].len());
    assert(known_names()[1].len() != known_names()[3].len());
    assert(known_names()[1].len() != known_names()[4].len());
    assert(known_names()[1].len() != known_names()[5].len());
    assert(known_names()[1].len() != known_names()[6].len());
    assert(known_names()[1].len() != known_names()[7].len());
    assert(known_names()[1].len() != known_names()[8].len());
    assert(known_names()[1].len() != known_names()[9].len());
    assert(known_names()[1][0] != known_names()[10][0]);
    assert(known_names()[2].len() != known_names()[3].len());
    assert(known_names()[2].len() != known_names()[4].len());
    assert(known_names()[2].len() != known_names()[5].len());
    assert(known_names()[2].len() != known_names()[6].len());
    assert(known_names()[2][0] != known_names()[7][0]);
    assert(known_names()[2].len() != known_names()[8].len());
    assert(known_names()[2].len() != known_names()[9].len());
    assert(known_names()[2].len() != known_names()[10].len());
    assert(known_names()[3].len() != known_names()[4].len());
    assert(known_names()[3].len() != known_names()[5].len());
    assert(known_names()[3].len() != known_names()[6].len());
    assert(known_names()[3].len() != known_names()[7].len());
    assert(known_names()[3].len() != known_names()[8].len());
    assert(known_names()[3][0] != known_names()[9][0]);
    assert(known_names()[3].len() != known_names()[10].len());
    assert(known_names()[4].len() != known_names()[5].len());
    assert(known_names()[4].len() != known_names()[6].len());
    assert(known_names()[4].len() != known_names()[7].len());
    assert(known_names()[4].len() != known_names()[8].len());
    assert(known_names()[4].len() != known_names()[9].len());
    assert(known_names()[4].len() != known_names()[10].len());
    assert(known_names()[5].len() != known_names()[6].len());
    assert(known_names()[5].len() != known_names()[7].len());
    assert(known_names()[5][0] != known_names()[8][0]);
    assert(known_names()[5].len() != known_names()[9].len());
    assert(known_names()[5].len() != known_names()[10].len());
    assert(known_names()[6].len() != known_names()[7].len());
    assert(known_names()[6].len() != known_names()[8].len());
    assert(known_names()[6].len() != known_names()[9].len());
    assert(known_names()[6].len() != known_names()[10].len());
    assert(known_names()[7].len() != known_names()[8].len());
    assert(known_names()[7].len() != known_names()[9].len());
    assert(known_names()[7].len() != known_names()[10].len());
    assert(known_names()[8].len() != known_names()[9].len());
    assert(known_names()[8].len() != known_names()[10].len());
    assert(known_names()[9].len() != known_names()[10].len());
}

/// Setting a category's state is what `is_granted` reports afterwards: a
/// category that is present is granted exactly when it was set to
/// `Granted`; other categories keep their state.
pub proof fn lemma_set_then_is_granted(
    before: Seq<(String, PermissionEntry)>,
    after: Seq<(String, PermissionEntry)>,
    source: Seq<char>,
    state: PermissionState,
    other: Seq<char>,
)
    requires
        after.len() == before.len(),
        forall|i: int| 0 <= i < before.len() ==> (#[trigger] after[i]).0@ == before[i].0@,
        forall|i: int|
            0 <= i < before.len() ==> (#[trigger] after[i]).1.state == (if before[i].0@ == source {
                state
            } else {
                before[i].1.state
            }),
    ensures
        (exists|i: int| 0 <= i < before.len() && before[i].0@ == source) ==> (granted_in(after, source)
            <==> state == PermissionState::Granted),
        other != source ==> (granted_in(after, other) <==> granted_in(before, other)),
{
    if exists|i: int| 0 <= i < before.len() && before[i].0@ == source {
        let i = choose|i: int| 0 <= i < before.len() && before[i].0@ == source;
        if state == PermissionState::Granted {
            assert(after[i].0@ == source && after[i].1.state == PermissionState::Granted);
        }
    }
    if other != source {
        if granted_in(after, other) {
            let i = choose|i: int|
                0 <= i < after.len() && after[i].0@ == other && after[i].1.state
                    == PermissionState::Granted;
            assert(before[i].0@ == other);
        }
        if granted_in(before, other) {
            let i = choose|i: int|
                0 <= i < before.len() && before[i].0@ == other && before[i].1.state
                    == PermissionState::Granted;
            assert(after[i].0@ == other);
        }
    }
}

} // verus!
