//! Observation sources: the change detector that filters duplicate
//! observations, and the decision state of the built-in sources (time of
//! day, system load, desktop summary). Polling itself (reading the clock,
//! `/proc`, or the desktop) happens outside and hands plain values here.

use std::hash::DefaultHasher;
use std::hash::Hasher;
use vstd::prelude::*;
use vstd::std_specs::hash::DefaultHasherAdditionalSpecFns;
use vstd::utf8::encode_utf8;

use crate::clock::{secs_since_epoch, system_now};
use crate::text::{decimal, owned, push_char, push_decimal, str_eq};

verus! {

/// The digest of an observation's text: SipHash (`DefaultHasher`) of the
/// text's UTF-8 bytes followed by the 0xff terminator that `str`'s `Hash`
/// implementation writes.
pub open spec fn digest_of(content: Seq<char>) -> u64 {
    DefaultHasher::spec_finish(seq![encode_utf8(content), seq![0xffu8]])
}

/// Content digest used to recognise repeated observations.
pub fn content_digest(content: &str) -> (d: u64)
    ensures
        d == digest_of(content@),
{
    let mut hasher = DefaultHasher::new();
    hasher.write(content.as_bytes());
    let ghost first = hasher@;
    assert(first =~= seq![encode_utf8(content@)]);
    let term: Vec<u8> = vec![0xffu8];
    assert(term@ =~= seq![0xffu8]);
    hasher.write(term.as_slice());
    let d = hasher.finish();
    assert(hasher@ =~= seq![encode_utf8(content@), seq![0xffu8]]);
    d
}

/// The digest last recorded for `source`, if any.
pub open spec fn last_digest(entries: Seq<(String, u64)>, source: Seq<char>) -> Option<u64> {
    if exists|i: int| 0 <= i < entries.len() && entries[i].0@ == source {
        let i = choose|i: int| 0 <= i < entries.len() && entries[i].0@ == source;
        Some(entries[i].1)
    } else {
        None
    }
}

/// Change detector: remembers the last content digest per source and
/// filters out observations identical to the previous one.
#[derive(Debug)]
pub struct ChangeDetector {
    digests: Vec<(String, u64)>,
    skipped: u64,
}

impl ChangeDetector {
    pub closed spec fn last(self, source: Seq<char>) -> Option<u64> {
        last_digest(self.digests@, source)
    }

    pub closed spec fn skipped(self) -> u64 {
        self.skipped
    }

    /// Each source is recorded at most once.
    pub closed spec fn wf(self) -> bool {
        forall|i: int, j: int|
            0 <= i < j < self.digests@.len() ==> self.digests@[i].0@ != self.digests@[j].0@
    }

    pub fn new() -> (d: Self)
        ensures
            d.wf(),
            d.skipped() == 0,
            forall|s: Seq<char>| d.last(s).is_none(),
    {
        ChangeDetector { digests: Vec::new(), skipped: 0 }
    }

    /// Is `digest` different from the last digest seen for `source`? A
    /// repeat is counted as skipped; a change is remembered.
    pub fn is_changed_digest(&mut self, source: &str, digest: u64) -> (changed: bool)
        requires
            old(self).wf(),
        ensures
            final(self).wf(),
            changed == (old(self).last(source@) != Some(digest)),
            changed ==> final(self).skipped() == old(self).skipped(),
            !changed ==> final(self).skipped() == (if old(self).skipped() == u64::MAX {
                u64::MAX
            } else {
                (old(self).skipped() + 1) as u64
            }),
            final(self).last(source@) == Some(digest),
            forall|s: Seq<char>| s != source@ ==> final(self).last(s) == old(self).last(s),
    {
        let mut i: usize = 0;
        while i < self.digests.len()
            invariant
                i <= self.digests@.len(),
                self.digests@ == old(self).digests@,
                self.skipped == old(self).skipped,
                old(self).wf(),
                forall|k: int| 0 <= k < i ==> self.digests@[k].0@ != source@,
            decreases self.digests@.len() - i,
        {
            if str_eq(self.digests[i].0.as_str(), source) {
                proof {
                    assert(forall|k: int|
                        0 <= k < self.digests@.len() && self.digests@[k].0@ == source@ ==> k == i);
                }
                if self.digests[i].1 == digest {
                    self.skipped = self.skipped.saturating_add(1);
                    return false;
                }
                let ghost before = self.digests@;
                let (name, _) = self.digests.remove(i);
                self.digests.insert(i, (name, digest));
                proof {
                    assert(self.digests@ =~= before.update(i as int, (self.digests@[i as int].0, digest)));
                    assert forall|a: int, b: int|
                        0 <= a < b < self.digests@.len() implies self.digests@[a].0@
                        != self.digests@[b].0@ by {
                        assert(before[a].0@ != before[b].0@);
                    }
                    assert forall|s: Seq<char>| s != source@ implies last_digest(self.digests@, s)
                        == last_digest(before, s) by {
                        if exists|k: int| 0 <= k < before.len() && before[k].0@ == s {
                            let k = choose|k: int| 0 <= k < before.len() && before[k].0@ == s;
                            assert(self.digests@[k].0@ == s);
                        }
                        if exists|k: int| 0 <= k < self.digests@.len() && self.digests@[k].0@ == s {
                            let k = choose|k: int| 0 <= k < self.digests@.len() && self.digests@[k].0@ == s;
                            assert(before[k].0@ == s);
                        }
                    }
                    assert(self.digests@[i as int].0@ == source@);
                }
                return true;
            }
            i = i + 1;
        }
        let ghost before = self.digests@;
        self.digests.push((owned(source), digest));
        proof {
            assert forall|a: int, b: int|
                0 <= a < b < self.digests@.len() implies self.digests@[a].0@
                != self.digests@[b].0@ by {
                if b == before.len() {
                    assert(before[a].0@ != source@);
                } else {
                    assert(before[a].0@ != before[b].0@);
                }
            }
            assert(self.digests@[before.len() as int].0@ == source@);
            assert forall|s: Seq<char>| s != source@ implies last_digest(self.digests@, s)
                == last_digest(before, s) by {
                if exists|k: int| 0 <= k < before.len() && before[k].0@ == s {
                    let k = choose|k: int| 0 <= k < before.len() && before[k].0@ == s;
                    assert(self.digests@[k].0@ == s);
                }
                if exists|k: int| 0 <= k < self.digests@.len() && self.digests@[k].0@ == s {
                    let k = choose|k: int| 0 <= k < self.digests@.len() && self.digests@[k].0@ == s;
                    assert(k < before.len());
                    assert(before[k].0@ == s);
                }
            }
        }
        true
    }

    /// Is `content` different from the last observation of `source`?
    pub fn is_changed(&mut self, source: &str, content: &str) -> (changed: bool)
        requires
            old(self).wf(),
        ensures
            final(self).wf(),
            changed == (old(self).last(source@) != Some(digest_of(content@))),
            changed ==> final(self).skipped() == old(self).skipped(),
            !changed ==> final(self).skipped() == (if old(self).skipped() == u64::MAX {
                u64::MAX
            } else {
                (old(self).skipped() + 1) as u64
            }),
            final(self).last(source@) == Some(digest_of(content@)),
            forall|s: Seq<char>| s != source@ ==> final(self).last(s) == old(self).last(s),
    {
        let digest = content_digest(content);
        self.is_changed_digest(source, digest)
    }

    /// How many observations were skipped as unchanged.
    pub fn skipped_count(&self) -> (n: u64)
        ensures
            n == self.skipped(),
    {
        self.skipped
    }

    pub fn reset_skipped(&mut self)
        ensures
            final(self).skipped() == 0,
            final(self).wf() == old(self).wf(),
            forall|s: Seq<char>| final(self).last(s) == old(self).last(s),
    {
        self.skipped = 0;
    }
}

/// After `source` reports `content`, the same content from the same source
/// is reported as unchanged: the detector remembers the last digest.
pub proof fn lemma_repeat_is_unchanged(d: ChangeDetector, source: Seq<char>, content: Seq<char>)
    requires
        d.last(source) == Some(digest_of(content)),
    ensures
        !(d.last(source) != Some(digest_of(content))),
{
}

/// The part of the day an hour falls in.
pub open spec fn period_of(hour: u32) -> Seq<char> {
    if 5 <= hour <= 11 {
        "morning"@
    } else if 12 <= hour <= 16 {
        "afternoon"@
    } else if 17 <= hour <= 21 {
        "evening"@
    } else {
        "night"@
    }
}

/// The time observation for a day and hour: "day D, PERIOD (H:00)".
pub open spec fn time_observation(day: u32, hour: u32) -> Seq<char> {
    "day "@ + decimal(day as nat) + ", "@ + period_of(hour) + " ("@ + decimal(hour as nat)
        + ":00)"@
}

/// (day since the epoch, hour of the day) for `secs` seconds since the
/// epoch.
pub open spec fn bucket_of(secs: u64) -> (u32, u32) {
    (((secs / 86400) as u32), (((secs / 3600) % 24) as u32))
}

/// (day, hour) for `secs` seconds since the epoch.
pub fn time_bucket_of(secs: u64) -> (r: (u32, u32))
    ensures
        r == bucket_of(secs),
{
    let day = (secs / 86400) as u32;
    let hour = ((secs / 3600) % 24) as u32;
    (day, hour)
}

/// (day, hour) for the current time; a clock set before the epoch counts
/// as the epoch itself.
pub fn current_time_bucket() -> (r: (u32, u32))
    ensures
        exists|secs: u64| r == #[trigger] bucket_of(secs),
{
    let now = system_now();
    let secs: u64 = match secs_since_epoch(&now) {
        Some(s) => s,
        None => 0,
    };
    time_bucket_of(secs)
}

/// Reports time-of-day changes at hour granularity.
#[derive(Debug)]
pub struct TimeSource {
    last_bucket: Option<i32>,
}

impl TimeSource {
    pub closed spec fn last(self) -> Option<i32> {
        self.last_bucket
    }

    pub fn new() -> (t: Self)
        ensures
            t.last().is_none(),
    {
        TimeSource { last_bucket: None }
    }

    /// The observation for (`day`, `hour`), or `None` when that hour bucket
    /// was the last one reported.
    pub fn observe_bucket(&mut self, day: u32, hour: u32) -> (r: Option<String>)
        requires
            day * 100 + hour <= u32::MAX,
        ensures
            ({
                let bucket = (day * 100 + hour) as i32;
                &&& final(self).last() == Some(bucket)
                &&& match r {
                    Some(s) => old(self).last() != Some(bucket) && s@ == time_observation(
                        day,
                        hour,
                    ),
                    None => old(self).last() == Some(bucket),
                }
            }),
    {
        let b: u32 = day * 100 + hour;
        let bucket = b as i32;
        if self.last_bucket == Some(bucket) {
            return None;
        }
        self.last_bucket = Some(bucket);
        let period = if 5 <= hour && hour <= 11 {
            "morning"
        } else if 12 <= hour && hour <= 16 {
            "afternoon"
        } else if 17 <= hour && hour <= 21 {
            "evening"
        } else {
            "night"
        };
        let mut s = String::from_str("day ");
        push_decimal(&mut s, day as u64);
        s.append(", ");
        s.append(period);
        s.append(" (");
        push_decimal(&mut s, hour as u64);
        s.append(":00)");
        Some(s)
    }
}

/// `a` and `b` differ by more than `limit`.
pub open spec fn differs_by_more(a: u64, b: u64, limit: u64) -> bool {
    if a >= b {
        a - b > limit
    } else {
        b - a > limit
    }
}

/// Monitors system load and memory; only emits on significant change.
#[derive(Debug)]
pub struct SystemSource {
    last_load_key: Option<u64>,
    last_mem_key: Option<u64>,
}

impl SystemSource {
    pub closed spec fn last_keys(self) -> (Option<u64>, Option<u64>) {
        (self.last_load_key, self.last_mem_key)
    }

    pub fn new() -> (s: Self)
        ensures
            s.last_keys() == (None::<u64>, None::<u64>),
    {
        SystemSource { last_load_key: None, last_mem_key: None }
    }

    /// Given the load and memory readings scaled by 100, decide whether the
    /// change is significant: load by more than 0.5, memory by more than 5
    /// percentage points, or no earlier reading. A significant reading is
    /// remembered.
    pub fn observe_keys(&mut self, load_key: u64, mem_key: u64) -> (report: bool)
        ensures
            ({
                let (l, m) = old(self).last_keys();
                let cpu = match l {
                    Some(x) => differs_by_more(load_key, x, 50),
                    None => true,
                };
                let mem = match m {
                    Some(x) => differs_by_more(mem_key, x, 500),
                    None => true,
                };
                &&& report == (cpu || mem)
                &&& report ==> final(self).last_keys() == (Some(load_key), Some(mem_key))
                &&& !report ==> final(self).last_keys() == old(self).last_keys()
            }),
    {
        let cpu_changed = match self.last_load_key {
            Some(l) => {
                if load_key >= l {
                    load_key - l > 50
                } else {
                    l - load_key > 50
                }
            },
            None => true,
        };
        let mem_changed = match self.last_mem_key {
            Some(m) => {
                if mem_key >= m {
                    mem_key - m > 500
                } else {
                    m - mem_key > 500
                }
            },
            None => true,
        };
        if !cpu_changed && !mem_changed {
            return false;
        }
        self.last_load_key = Some(load_key);
        self.last_mem_key = Some(mem_key);
        true
    }
}

/// Polls desktop state and only emits when the summary changes.
#[derive(Debug)]
pub struct DesktopSource {
    last_summary: Option<String>,
}

impl DesktopSource {
    pub closed spec fn last(self) -> Option<Seq<char>> {
        match self.last_summary {
            Some(s) => Some(s@),
            None => None,
        }
    }

    pub fn new() -> (d: Self)
        ensures
            d.last().is_none(),
    {
        DesktopSource { last_summary: None }
    }

    /// The summary to report, or `None` if it equals the last one reported.
    pub fn observe_summary(&mut self, summary: String) -> (r: Option<String>)
        ensures
            final(self).last() == Some(summary@),
            match r {
                Some(s) => s@ == summary@ && old(self).last() != Some(summary@),
                None => old(self).last() == Some(summary@),
            },
    {
        let same = match &self.last_summary {
            Some(s) => str_eq(s.as_str(), summary.as_str()),
            None => false,
        };
        if same {
            return None;
        }
        let out = summary.clone();
        self.last_summary = Some(summary);
        Some(out)
    }
}

/// Adapter that wraps a function as a desktop provider.
#[derive(Debug)]
pub struct FnDesktopProvider<F> {
    f: F,
}

impl<F> FnDesktopProvider<F> {
    pub closed spec fn func(self) -> F {
        self.f
    }

    pub fn new(f: F) -> (p: Self)
        ensures
            p.func() == f,
    {
        FnDesktopProvider { f }
    }

    /// The wrapped function.
    pub fn inner(&self) -> (f: &F)
        ensures
            *f == self.func(),
    {
        &self.f
    }
}

/// A polled observation source, as far as the loop names it. Polling
/// itself happens outside, where each source reads its system.
pub trait ObservationSource {
    /// The source's name, which is also its permission category.
    fn name(&self) -> (n: &'static str);
}

impl ObservationSource for TimeSource {
    fn name(&self) -> (n: &'static str)
        ensures
            n@ == "time"@,
    {
        "time"
    }
}

impl ObservationSource for SystemSource {
    fn name(&self) -> (n: &'static str)
        ensures
            n@ == "system"@,
    {
        "system"
    }
}

impl ObservationSource for DesktopSource {
    fn name(&self) -> (n: &'static str)
        ensures
            n@ == "desktop"@,
    {
        "desktop"
    }
}

} // verus!

