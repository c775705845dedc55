//! Read-only activity audit log of trust-relevant events.
//!
//! Entries are never modified after creation; only the most recent
//! `max_entries` are kept. Persistence (JSON on disk) happens outside.

use vstd::prelude::*;

use crate::clock::{now_millis, Timestamp};
use crate::text::owned;

verus! {

/// Categories of user-visible activity.
#[derive(Debug, Clone, Copy, PartialEq, Eq, Structural)]
pub enum ActivityCategory {
    Observation,
    Conversation,
    MemoryCreated,
    MemoryUpdated,
    RelationshipUpdated,
    Notification,
    UserCorrection,
    MemoryDeletion,
    SettingsChange,
    Backup,
    Restore,
    EncryptionChange,
    PermissionChange,
    DataExpired,
    DataArchived,
}

impl ActivityCategory {
    /// How the category is shown to the user.
    pub open spec fn label_spec(self) -> Seq<char> {
        match self {
            ActivityCategory::Observation => "Observation"@,
            ActivityCategory::Conversation => "Conversation"@,
            ActivityCategory::MemoryCreated => "Memory created"@,
            ActivityCategory::MemoryUpdated => "Memory updated"@,
            ActivityCategory::RelationshipUpdated => "Relationship updated"@,
            ActivityCategory::Notification => "Notification"@,
            ActivityCategory::UserCorrection => "User correction"@,
            ActivityCategory::MemoryDeletion => "Memory deletion"@,
            ActivityCategory::SettingsChange => "Settings change"@,
            ActivityCategory::Backup => "Backup"@,
            ActivityCategory::Restore => "Restore"@,
            ActivityCategory::EncryptionChange => "Encryption change"@,
            ActivityCategory::PermissionChange => "Permission change"@,
            ActivityCategory::DataExpired => "Data expired"@,
            ActivityCategory::DataArchived => "Data archived"@,
        }
    }

    /// The user-facing label (what `Display` prints).
    pub fn label(&self) -> (s: &'static str)
        ensures
            s@ == self.label_spec(),
    {
        match self {
            ActivityCategory::Observation => "Observation",
            ActivityCategory::Conversation => "Conversation",
            ActivityCategory::MemoryCreated => "Memory created",
            ActivityCategory::MemoryUpdated => "Memory updated",
            ActivityCategory::RelationshipUpdated => "Relationship updated",
            ActivityCategory::Notification => "Notification",
            ActivityCategory::UserCorrection => "User correction",
            ActivityCategory::MemoryDeletion => "Memory deletion",
            ActivityCategory::SettingsChange => "Settings change",
            ActivityCategory::Backup => "Backup",
            ActivityCategory::Restore => "Restore",
            ActivityCategory::EncryptionChange => "Encryption change",
            ActivityCategory::PermissionChange => "Permission change",
            ActivityCategory::DataExpired => "Data expired",
            ActivityCategory::DataArchived => "Data archived",
        }
    }

    pub fn to_string(&self) -> (s: String)
        ensures
            s@ == self.label_spec(),
    {
        owned(self.label())
    }
}

/// A single entry in the audit log.
#[derive(Debug)]
pub struct ActivityEntry {
    pub timestamp: Timestamp,
    pub category: ActivityCategory,
    pub summary: String,
    pub details: String,
}

pub struct ActivityEntryView {
    pub timestamp: Timestamp,
    pub category: ActivityCategory,
    pub summary: Seq<char>,
    pub details: Seq<char>,
}

impl View for ActivityEntry {
    type V = ActivityEntryView;

    open spec fn view(&self) -> ActivityEntryView {
        ActivityEntryView {
            timestamp: self.timestamp,
            category: self.category,
            summary: self.summary@,
            details: self.details@,
        }
    }
}

impl Clone for ActivityEntry {
    fn clone(&self) -> (r: Self)
        ensures
            r@ == self@,
    {
        ActivityEntry {
            timestamp: self.timestamp,
            category: self.category,
            summary: self.summary.clone(),
            details: self.details.clone(),
        }
    }
}

pub open spec fn aviews(s: Seq<ActivityEntry>) -> Seq<ActivityEntryView> {
    s.map_values(|e: ActivityEntry| e@)
}

/// The log after recording `e` with capacity `max`: when at capacity, the
/// oldest entry (if any) is dropped first.
pub open spec fn audit_push(s: Seq<ActivityEntryView>, e: ActivityEntryView, max: nat) -> Seq<
    ActivityEntryView,
> {
    if s.len() >= max && s.len() > 0 {
        s.drop_first().push(e)
    } else {
        s.push(e)
    }
}

/// The entries of `s` in category `c`, most recent first.
pub open spec fn by_category_newest_first(s: Seq<ActivityEntryView>, c: ActivityCategory) -> Seq<
    ActivityEntryView,
> {
    s.reverse().filter(|e: ActivityEntryView| e.category == c)
}

proof fn lemma_aviews_push(s: Seq<ActivityEntry>, e: ActivityEntry)
    ensures
        aviews(s.push(e)) == aviews(s).push(e@),
{
    assert(aviews(s.push(e)) =~= aviews(s).push(e@));
}

/// Read-only audit log of all trust-relevant activity.
#[derive(Debug)]
pub struct AuditLog {
    entries: Vec<ActivityEntry>,
    max_entries: usize,
    path: Option<String>,
}

impl AuditLog {
    /// The entries, oldest first.
    pub closed spec fn log(self) -> Seq<ActivityEntryView> {
        aviews(self.entries@)
    }

    pub closed spec fn capacity(self) -> nat {
        self.max_entries as nat
    }

    pub closed spec fn path_view(self) -> Option<Seq<char>> {
        match self.path {
            Some(p) => Some(p@),
            None => None,
        }
    }

    /// A new in-memory audit log keeping at most `max_entries` entries.
    pub fn new(max_entries: usize) -> (l: Self)
        ensures
            l.log().len() == 0,
            l.capacity() == max_entries,
            l.path_view().is_none(),
    {
        AuditLog { entries: Vec::new(), max_entries, path: None }
    }

    /// The same log, persisted at `path`.
    pub fn with_path(self, path: String) -> (l: Self)
        ensures
            l.log() == self.log(),
            l.capacity() == self.capacity(),
            l.path_view() == Some(path@),
    {
        AuditLog { entries: self.entries, max_entries: self.max_entries, path: Some(path) }
    }

    /// Record an entry stamped `now`.
    pub fn record_at(
        &mut self,
        now: Timestamp,
        category: ActivityCategory,
        summary: &str,
        details: &str,
    )
        ensures
            final(self).log() == audit_push(
                old(self).log(),
                ActivityEntryView { timestamp: now, category, summary: summary@, details: details@ },
                old(self).capacity(),
            ),
            final(self).capacity() == old(self).capacity(),
            final(self).path_view() == old(self).path_view(),
    {
        let entry = ActivityEntry {
            timestamp: now,
            category,
            summary: owned(summary),
            details: owned(details),
        };
        let ghost before = self.entries@;
        if self.entries.len() >= self.max_entries && self.entries.len() > 0 {
            self.entries.remove(0);
            assert(aviews(self.entries@) =~= aviews(before).drop_first());
        }
        let ghost mid = self.entries@;
        self.entries.push(entry);
        proof {
            lemma_aviews_push(mid, entry);
        }
    }

    /// Record an entry stamped with the wall clock.
    pub fn record(&mut self, category: ActivityCategory, summary: &str, details: &str)
        ensures
            exists|now: Timestamp|
                final(self).log() == #[trigger] audit_push(
                    old(self).log(),
                    ActivityEntryView {
                        timestamp: now,
                        category,
                        summary: summary@,
                        details: details@,
                    },
                    old(self).capacity(),
                ),
            final(self).capacity() == old(self).capacity(),
            final(self).path_view() == old(self).path_view(),
    {
        let now = now_millis();
        self.record_at(now, category, summary, details);
    }

    /// All entries, most recent first.
    pub fn entries(&self) -> (r: Vec<ActivityEntry>)
        ensures
            aviews(r@) == self.log().reverse(),
    {
        let mut r: Vec<ActivityEntry> = Vec::new();
        let n = self.entries.len();
        let mut i: usize = 0;
        while i < n
            invariant
                n == self.entries@.len(),
                i <= n,
                aviews(r@) == aviews(self.entries@).reverse().subrange(0, i as int),
            decreases n - i,
        {
            let c = self.entries[n - 1 - i].clone();
            let ghost r0 = r@;
            r.push(c);
            proof {
                lemma_aviews_push(r0, c);
                assert(aviews(r@) =~= aviews(self.entries@).reverse().subrange(0, i + 1));
            }
            i = i + 1;
        }
        assert(aviews(self.entries@).reverse().subrange(0, n as int) =~= aviews(
            self.entries@,
        ).reverse());
        r
    }

    /// The entries in `category`, most recent first.
    pub fn entries_by_category(&self, category: &ActivityCategory) -> (r: Vec<ActivityEntry>)
        ensures
            aviews(r@) == by_category_newest_first(self.log(), *category),
    {
        let ghost f = |e: ActivityEntryView| e.category == *category;
        let ghost rev = aviews(self.entries@).reverse();
        let mut r: Vec<ActivityEntry> = Vec::new();
        let n = self.entries.len();
        let mut i: usize = 0;
        while i < n
            invariant
                n == self.entries@.len(),
                i <= n,
                rev == aviews(self.entries@).reverse(),
                f == (|e: ActivityEntryView| e.category == *category),
                aviews(r@) == rev.subrange(0, i as int).filter(f),
            decreases n - i,
        {
            let e = &self.entries[n - 1 - i];
            proof {
                assert(rev[i as int] == e@);
                assert(rev.subrange(0, i + 1) =~= rev.subrange(0, i as int).push(e@));
                lemma_filter_push(rev.subrange(0, i as int), f, e@);
            }
            if e.category == *category {
                let c = e.clone();
                let ghost r0 = r@;
                r.push(c);
                proof {
                    lemma_aviews_push(r0, c);
                }
            }
            i = i + 1;
        }
        assert(rev.subrange(0, n as int) =~= rev);
        r
    }

    /// Number of entries.
    pub fn len(&self) -> (n: usize)
        ensures
            n == self.log().len(),
    {
        self.entries.len()
    }

    /// The persistence path, if one was set.
    pub fn path(&self) -> (p: Option<&String>)
        ensures
            match p {
                Some(s) => self.path_view() == Some(s@),
                None => self.path_view().is_none(),
            },
    {
        self.path.as_ref()
    }

    /// Rebuild a log from loaded entries (oldest first), keeping `max_entries`.
    pub fn from_entries(entries: Vec<ActivityEntry>, max_entries: usize, path: Option<String>) -> (l: Self)
        ensures
            l.log() == aviews(entries@),
            l.capacity() == max_entries,
    {
        AuditLog { entries, max_entries, path }
    }
}

/// Filtering a sequence extended by one element extends the filtered
/// sequence by that element exactly when it passes the predicate.
proof fn lemma_filter_push(s: Seq<ActivityEntryView>, f: spec_fn(ActivityEntryView) -> bool, x: ActivityEntryView)
    ensures
        s.push(x).filter(f) == (if f(x) { s.filter(f).push(x) } else { s.filter(f) }),
{
    reveal(Seq::filter);
    assert(s.push(x).drop_last() =~= s);
}

/// A full log drops exactly its oldest entry when a new one is recorded,
/// so it keeps the `max` most recent entries of everything recorded.
pub proof fn lemma_audit_keeps_latest(
    history: Seq<ActivityEntryView>,
    e: ActivityEntryView,
    max: nat,
)
    requires
        max > 0,
    ensures
        audit_push(crate::bounded::keep_last(history, max), e, max) == crate::bounded::keep_last(
            history.push(e),
            max,
        ),
{
    let w = crate::bounded::keep_last(history, max);
    crate::bounded::lemma_keep_last_push(history, e, max);
    if w.len() >= max {
        crate::bounded::lemma_drop_first_push_is_keep_last(w, e, max);
    } else {
        assert(crate::bounded::keep_last(w.push(e), max) == w.push(e));
    }
}

} // verus!
