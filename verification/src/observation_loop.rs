//! The observation loop's state: registered sources, the change detector,
//! and a bounded history of what was observed or skipped. The timer and the
//! polling run outside; each polled text is handed to `process_observation`.

use vstd::prelude::*;

use crate::bounded::keep_last;
use crate::sources::{digest_of, ChangeDetector};
use crate::text::{chars_of, owned, string_of};

verus! {

/// An observation event recorded for debug visibility.
#[derive(Debug)]
pub enum ObservationEvent {
    Observed { source: String, summary: String },
    Skipped { source: String, reason: String },
}

/// An observation event as plain values.
pub enum ObservationEventView {
    Observed { source: Seq<char>, summary: Seq<char> },
    Skipped { source: Seq<char>, reason: Seq<char> },
}

impl View for ObservationEvent {
    type V = ObservationEventView;

    open spec fn view(&self) -> ObservationEventView {
        match self {
            ObservationEvent::Observed { source, summary } => ObservationEventView::Observed {
                source: source@,
                summary: summary@,
            },
            ObservationEvent::Skipped { source, reason } => ObservationEventView::Skipped {
                source: source@,
                reason: reason@,
            },
        }
    }
}

impl Clone for ObservationEvent {
    fn clone(&self) -> (r: Self)
        ensures
            r@ == self@,
    {
        match self {
            ObservationEvent::Observed { source, summary } => ObservationEvent::Observed {
                source: source.clone(),
                summary: summary.clone(),
            },
            ObservationEvent::Skipped { source, reason } => ObservationEvent::Skipped {
                source: source.clone(),
                reason: reason.clone(),
            },
        }
    }
}

pub open spec fn oviews(s: Seq<ObservationEvent>) -> Seq<ObservationEventView> {
    s.map_values(|e: ObservationEvent| e@)
}

pub open spec fn sviews(s: Seq<String>) -> Seq<Seq<char>> {
    s.map_values(|e: String| e@)
}

/// Debug snapshot of the observation loop state.
#[derive(Debug)]
pub struct ObservationDebugInfo {
    pub total_observations: u64,
    pub total_skipped: u64,
    pub history: Vec<ObservationEvent>,
    pub sources: Vec<String>,
}

/// Configuration for the observation loop.
#[derive(Debug, Clone, Copy, PartialEq, Eq, Structural)]
pub struct ObservationConfig {
    pub interval_secs: u64,
    pub max_history: usize,
}

impl Default for ObservationConfig {
    fn default() -> (c: Self)
        ensures
            c.interval_secs == 30,
            c.max_history == 100,
    {
        ObservationConfig { interval_secs: 30, max_history: 100 }
    }
}

/// The first `n` characters of `s` (all of it if shorter).
pub open spec fn take_chars(s: Seq<char>, n: nat) -> Seq<char> {
    if s.len() <= n {
        s
    } else {
        s.subrange(0, n as int)
    }
}

pub fn prefix_chars(s: &str, n: usize) -> (r: String)
    ensures
        r@ == take_chars(s@, n as nat),
{
    let v = chars_of(s);
    let mut w: Vec<char> = Vec::new();
    let mut i: usize = 0;
    while i < v.len() && i < n
        invariant
            i <= v@.len(),
            i <= n,
            w@ == v@.subrange(0, i as int),
        decreases v@.len() - i,
    {
        w.push(v[i]);
        i = i + 1;
        assert(w@ =~= v@.subrange(0, i as int));
    }
    assert(w@ =~= take_chars(s@, n as nat));
    string_of(&w)
}

fn clone_strings(v: &Vec<String>) -> (r: Vec<String>)
    ensures
        sviews(r@) == sviews(v@),
{
    let mut r: Vec<String> = Vec::new();
    let mut i: usize = 0;
    while i < v.len()
        invariant
            i <= v@.len(),
            sviews(r@) == sviews(v@.subrange(0, i as int)),
        decreases v@.len() - i,
    {
        let c = v[i].clone();
        let ghost r0 = r@;
        r.push(c);
        assert(sviews(r@) =~= sviews(r0).push(c@));
        assert(v@.subrange(0, i + 1) =~= v@.subrange(0, i as int).push(v@[i as int]));
        assert(sviews(v@.subrange(0, i + 1)) =~= sviews(v@.subrange(0, i as int)).push(v@[i as int]@));
        i = i + 1;
    }
    assert(v@.subrange(0, i as int) =~= v@);
    r
}

/// Runs the observation bookkeeping for the companion.
#[derive(Debug)]
pub struct ObservationLoop {
    source_names: Vec<String>,
    detector: ChangeDetector,
    config: ObservationConfig,
    total_observations: u64,
    history: Vec<ObservationEvent>,
}

impl ObservationLoop {
    pub closed spec fn sources(self) -> Seq<Seq<char>> {
        sviews(self.source_names@)
    }

    pub closed spec fn history(self) -> Seq<ObservationEventView> {
        oviews(self.history@)
    }

    pub closed spec fn total(self) -> u64 {
        self.total_observations
    }

    pub closed spec fn config(self) -> ObservationConfig {
        self.config
    }

    pub closed spec fn change_detector(self) -> ChangeDetector {
        self.detector
    }

    pub open spec fn wf(self) -> bool {
        self.change_detector().wf()
    }

    pub fn new(config: ObservationConfig) -> (l: Self)
        ensures
            l.wf(),
            l.sources().len() == 0,
            l.history().len() == 0,
            l.total() == 0,
            l.config() == config,
            l.change_detector().skipped() == 0,
    {
        ObservationLoop {
            source_names: Vec::new(),
            detector: ChangeDetector::new(),
            config,
            total_observations: 0,
            history: Vec::new(),
        }
    }

    /// Record a source name (for debug visibility).
    pub fn register(&mut self, name: &str)
        ensures
            final(self).sources() == old(self).sources().push(name@),
            final(self).history() == old(self).history(),
            final(self).total() == old(self).total(),
            final(self).config() == old(self).config(),
            final(self).change_detector() == old(self).change_detector(),
    {
        let ghost before = self.source_names@;
        self.source_names.push(owned(name));
        assert(sviews(self.source_names@) =~= sviews(before).push(name@));
    }

    /// Append an event, then drop the oldest until the history fits
    /// `max_history`.
    pub fn record_event(&mut self, event: ObservationEvent)
        ensures
            final(self).history() == keep_last(
                old(self).history().push(event@),
                old(self).config().max_history as nat,
            ),
            final(self).sources() == old(self).sources(),
            final(self).total() == old(self).total(),
            final(self).config() == old(self).config(),
            final(self).change_detector() == old(self).change_detector(),
    {
        let ghost target = oviews(self.history@).push(event@);
        let ghost e = event@;
        let ghost before = self.history@;
        self.history.push(event);
        assert(oviews(self.history@) =~= target);
        assert(target.subrange(0, target.len() as int) =~= target);
        while self.history.len() > self.config.max_history
            invariant
                self.config == old(self).config,
                self.source_names == old(self).source_names,
                self.detector == old(self).detector,
                self.total_observations == old(self).total_observations,
                oviews(self.history@) == target.subrange(
                    target.len() - self.history@.len(),
                    target.len() as int,
                ),
                self.history@.len() <= target.len(),
                self.history@.len() >= self.config.max_history || self.history@.len() == target.len(),
            decreases self.history@.len(),
        {
            let ghost h = self.history@;
            self.history.remove(0);
            assert(self.history@ =~= h.drop_first());
            assert(oviews(self.history@) =~= oviews(h).drop_first());
            assert(oviews(self.history@) =~= target.subrange(
                target.len() - self.history@.len(),
                target.len() as int,
            ));
        }
        assert(oviews(self.history@) =~= keep_last(target, self.config.max_history as nat));
    }

    /// Handle one polled observation from `source`. An observation equal to
    /// the source's previous one is recorded as skipped and dropped; a new
    /// one is counted, recorded with its first 80 characters, and returned
    /// to be forwarded to the cognitive loop.
    pub fn process_observation(&mut self, source: &str, observation: String) -> (r: Option<String>)
        requires
            old(self).wf(),
        ensures
            final(self).wf(),
            final(self).sources() == old(self).sources(),
            final(self).config() == old(self).config(),
            old(self).change_detector().last(source@) == Some(digest_of(observation@)) ==> {
                &&& r.is_none()
                &&& final(self).total() == old(self).total()
                &&& final(self).history() == keep_last(
                    old(self).history().push(
                        ObservationEventView::Skipped { source: source@, reason: "unchanged content"@ },
                    ),
                    old(self).config().max_history as nat,
                )
            },
            old(self).change_detector().last(source@) != Some(digest_of(observation@)) ==> {
                &&& r matches Some(s) && s@ == observation@
                &&& final(self).total() == (if old(self).total() == u64::MAX {
                    u64::MAX
                } else {
                    (old(self).total() + 1) as u64
                })
                &&& final(self).history() == keep_last(
                    old(self).history().push(
                        ObservationEventView::Observed {
                            source: source@,
                            summary: take_chars(observation@, 80),
                        },
                    ),
                    old(self).config().max_history as nat,
                )
            },
            final(self).change_detector().last(source@) == Some(digest_of(observation@)),
            forall|s: Seq<char>|
                s != source@ ==> #[trigger] final(self).change_detector().last(s) == old(
                    self,
                ).change_detector().last(s),
            old(self).change_detector().last(source@) == Some(digest_of(observation@))
                ==> final(self).change_detector().skipped() == (if old(
                self,
            ).change_detector().skipped() == u64::MAX {
                u64::MAX
            } else {
                (old(self).change_detector().skipped() + 1) as u64
            }),
            old(self).change_detector().last(source@) != Some(digest_of(observation@))
                ==> final(self).change_detector().skipped() == old(self).change_detector().skipped(),
    {
        if !self.detector.is_changed(source, observation.as_str()) {
            self.record_event(ObservationEvent::Skipped {
                source: owned(source),
                reason: owned("unchanged content"),
            });
            return None;
        }
        self.total_observations = self.total_observations.saturating_add(1);
        let summary = prefix_chars(observation.as_str(), 80);
        self.record_event(ObservationEvent::Observed { source: owned(source), summary });
        Some(observation)
    }

    /// A snapshot for developer mode.
    pub fn debug_info(&self) -> (d: ObservationDebugInfo)
        ensures
            d.total_observations == self.total(),
            d.total_skipped == self.change_detector().skipped(),
            oviews(d.history@) == self.history(),
            sviews(d.sources@) == self.sources(),
    {
        let mut history: Vec<ObservationEvent> = Vec::new();
        let mut i: usize = 0;
        while i < self.history.len()
            invariant
                i <= self.history@.len(),
                oviews(history@) == oviews(self.history@.subrange(0, i as int)),
            decreases self.history@.len() - i,
        {
            let c = self.history[i].clone();
            let ghost h0 = history@;
            history.push(c);
            assert(oviews(history@) =~= oviews(h0).push(c@));
            assert(self.history@.subrange(0, i + 1) =~= self.history@.subrange(0, i as int).push(self.history@[i as int]));
            assert(oviews(self.history@.subrange(0, i + 1)) =~= oviews(self.history@.subrange(0, i as int)).push(self.history@[i as int]@));
            i = i + 1;
        }
        assert(self.history@.subrange(0, i as int) =~= self.history@);
        ObservationDebugInfo {
            total_observations: self.total_observations,
            total_skipped: self.detector.skipped_count(),
            history,
            sources: clone_strings(&self.source_names),
        }
    }

    /// The change detector (for inspection).
    pub fn detector(&self) -> (d: &ChangeDetector)
        ensures
            *d == self.change_detector(),
    {
        &self.detector
    }

    /// The configuration the loop was created with.
    pub fn config_ref(&self) -> (c: &ObservationConfig)
        ensures
            *c == self.config(),
    {
        &self.config
    }
}

} // verus!
