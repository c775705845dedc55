//! Event journal for persistence and replay after a restart.

use vstd::prelude::*;

use crate::bounded::{keep_last, lemma_drop_first_push_is_keep_last, lemma_keep_last_push};
use crate::clock::{now_millis, Timestamp};
use crate::goal_scheduler::{
    lemma_matched_ids_members, matched_ids, schedule_matches, GoalId, GoalSchedule, GoalScheduler,
};
use crate::text::owned;

verus! {

/// A recorded event for replay.
#[derive(Debug)]
pub struct RecordedEvent {
    pub event_type: String,
    pub payload: Option<String>,
    pub goal_id: Option<GoalId>,
    pub recorded_at: Timestamp,
}

/// An event as plain values.
pub struct EventView {
    pub event_type: Seq<char>,
    pub payload: Option<Seq<char>>,
    pub goal_id: Option<GoalId>,
    pub recorded_at: Timestamp,
}

pub open spec fn opt_string_view(s: Option<String>) -> Option<Seq<char>> {
    match s {
        Some(t) => Some(t@),
        None => None,
    }
}

pub fn clone_opt_string(s: &Option<String>) -> (r: Option<String>)
    ensures
        opt_string_view(r) == opt_string_view(*s),
{
    match s {
        Some(t) => Some(t.clone()),
        None => None,
    }
}

impl View for RecordedEvent {
    type V = EventView;

    open spec fn view(&self) -> EventView {
        EventView {
            event_type: self.event_type@,
            payload: opt_string_view(self.payload),
            goal_id: self.goal_id,
            recorded_at: self.recorded_at,
        }
    }
}

impl Clone for RecordedEvent {
    fn clone(&self) -> (r: Self)
        ensures
            r@ == self@,
    {
        RecordedEvent {
            event_type: self.event_type.clone(),
            payload: clone_opt_string(&self.payload),
            goal_id: self.goal_id,
            recorded_at: self.recorded_at,
        }
    }
}

pub open spec fn views(s: Seq<RecordedEvent>) -> Seq<EventView> {
    s.map_values(|e: RecordedEvent| e@)
}

proof fn lemma_views_push(s: Seq<RecordedEvent>, e: RecordedEvent)
    ensures
        views(s.push(e)) == views(s).push(e@),
{
    assert(views(s.push(e)) =~= views(s).push(e@));
}

/// The journal after recording `e` into `events` with capacity `max`: when
/// full, the oldest entry is dropped first.
pub open spec fn journal_push(events: Seq<EventView>, e: EventView, max: nat) -> Seq<EventView> {
    if events.len() >= max {
        events.drop_first().push(e)
    } else {
        events.push(e)
    }
}

/// Event journal: records events so that, after a restart, the runtime can
/// replay what it missed. Only the most recent `max_entries` are kept.
#[derive(Debug)]
pub struct EventJournal {
    events: Vec<RecordedEvent>,
    max_entries: usize,
}

impl EventJournal {
    /// The recorded events, oldest first.
    pub closed spec fn events(self) -> Seq<EventView> {
        views(self.events@)
    }

    pub closed spec fn capacity(self) -> nat {
        self.max_entries as nat
    }

    /// The journal never holds more than its capacity.
    pub open spec fn wf(self) -> bool {
        self.events().len() <= self.capacity()
    }

    pub fn new() -> (j: Self)
        ensures
            j.events().len() == 0,
            j.capacity() == 1000,
            j.wf(),
    {
        EventJournal { events: Vec::new(), max_entries: 1000 }
    }

    /// The same journal with capacity `max`.
    pub fn with_max_entries(self, max: usize) -> (j: Self)
        ensures
            j.events() == self.events(),
            j.capacity() == max,
    {
        EventJournal { events: self.events, max_entries: max }
    }

    /// Record an event at time `now`.
    pub fn record_at(
        &mut self,
        event_type: &str,
        payload: Option<String>,
        goal_id: Option<GoalId>,
        now: Timestamp,
    )
        requires
            old(self).capacity() > 0,
        ensures
            final(self).capacity() == old(self).capacity(),
            final(self).events() == journal_push(
                old(self).events(),
                EventView {
                    event_type: event_type@,
                    payload: opt_string_view(payload),
                    goal_id,
                    recorded_at: now,
                },
                old(self).capacity(),
            ),
            old(self).wf() ==> final(self).wf(),
    {
        let ghost old_events = self.events@;
        let e = RecordedEvent { event_type: owned(event_type), payload, goal_id, recorded_at: now };
        if self.events.len() >= self.max_entries {
            self.events.remove(0);
            self.events.push(e);
            assert(views(self.events@) =~= views(old_events).drop_first().push(e@));
        } else {
            self.events.push(e);
            assert(views(self.events@) =~= views(old_events).push(e@));
        }
    }

    /// Record an event, stamped with the wall clock.
    pub fn record(&mut self, event_type: &str, payload: Option<String>, goal_id: Option<GoalId>)
        requires
            old(self).capacity() > 0,
        ensures
            final(self).capacity() == old(self).capacity(),
            old(self).wf() ==> final(self).wf(),
            exists|now: Timestamp|
                final(self).events() == #[trigger] journal_push(
                    old(self).events(),
                    EventView {
                        event_type: event_type@,
                        payload: opt_string_view(payload),
                        goal_id,
                        recorded_at: now,
                    },
                    old(self).capacity(),
                ),
    {
        let now = now_millis();
        self.record_at(event_type, payload, goal_id, now);
    }

    /// All recorded events, oldest first.
    pub fn all(&self) -> (r: Vec<RecordedEvent>)
        ensures
            views(r@) == self.events(),
    {
        let mut r: Vec<RecordedEvent> = Vec::new();
        let mut i: usize = 0;
        while i < self.events.len()
            invariant
                i <= self.events@.len(),
                views(r@) == views(self.events@.subrange(0, i as int)),
            decreases self.events@.len() - i,
        {
            let c = self.events[i].clone();
            let ghost r0 = r@;
            r.push(c);
            proof {
                lemma_views_push(r0, c);
                lemma_views_push(self.events@.subrange(0, i as int), self.events@[i as int]);
                assert(self.events@.subrange(0, i + 1) =~= self.events@.subrange(
                    0,
                    i as int,
                ).push(self.events@[i as int]));
            }
            i = i + 1;
        }
        assert(self.events@.subrange(0, i as int) =~= self.events@);
        r
    }

    /// Remove every recorded event.
    pub fn clear(&mut self)
        ensures
            final(self).events().len() == 0,
            final(self).capacity() == old(self).capacity(),
    {
        self.events = Vec::new();
        assert(views(self.events@) =~= Seq::<EventView>::empty());
    }

    pub fn len(&self) -> (n: usize)
        ensures
            n == self.events().len(),
    {
        self.events.len()
    }

    pub fn is_empty(&self) -> (b: bool)
        ensures
            b == (self.events().len() == 0),
    {
        self.events.len() == 0
    }

    fn events_vec(&self) -> (r: &Vec<RecordedEvent>)
        ensures
            views(r@) == self.events(),
    {
        &self.events
    }
}

/// A journal whose window holds the last `max` events of a history still
/// holds the last `max` events after one more is recorded: the journal
/// always keeps exactly the most recent entries, oldest first.
pub proof fn lemma_journal_keeps_latest(history: Seq<EventView>, e: EventView, max: nat)
    requires
        max > 0,
    ensures
        journal_push(keep_last(history, max), e, max) == keep_last(history.push(e), max),
{
    let w = keep_last(history, max);
    lemma_keep_last_push(history, e, max);
    if w.len() >= max {
        lemma_drop_first_push_is_keep_last(w, e, max);
    } else {
        assert(keep_last(w.push(e), max) == w.push(e));
    }
}

/// `w` with `g` appended unless it is already there.
pub open spec fn add_unique(w: Seq<GoalId>, g: GoalId) -> Seq<GoalId> {
    if w.contains(g) {
        w
    } else {
        w.push(g)
    }
}

/// `w` with each of `gs` added in order, skipping those already present.
pub open spec fn add_all(w: Seq<GoalId>, gs: Seq<GoalId>) -> Seq<GoalId>
    decreases gs.len(),
{
    if gs.len() == 0 {
        w
    } else {
        add_unique(add_all(w, gs.drop_last()), gs.last())
    }
}

/// The goals one event wakes: those subscribed to its type, then the goal
/// it is scoped to.
pub open spec fn event_wakes(e: EventView, s: Seq<GoalSchedule>) -> Seq<GoalId> {
    let m = matched_ids(s, e.event_type);
    match e.goal_id {
        Some(g) => m.push(g),
        None => m,
    }
}

/// The goals woken by replaying `events`, in order of first wake-up.
pub open spec fn replay_woken(events: Seq<EventView>, s: Seq<GoalSchedule>) -> Seq<GoalId>
    decreases events.len(),
{
    if events.len() == 0 {
        Seq::empty()
    } else {
        add_all(replay_woken(events.drop_last(), s), event_wakes(events.last(), s))
    }
}

fn push_unique(w: &mut Vec<GoalId>, g: GoalId)
    ensures
        final(w)@ == add_unique(old(w)@, g),
{
    let mut i: usize = 0;
    while i < w.len()
        invariant
            i <= w@.len(),
            forall|k: int| 0 <= k < i ==> w@[k] != g,
        decreases w@.len() - i,
    {
        if w[i] == g {
            assert(w@.contains(g));
            return;
        }
        i = i + 1;
    }
    assert(!w@.contains(g));
    w.push(g);
}

/// Manages replay of the journal on runtime restart.
#[derive(Debug)]
pub struct EventReplayManager {
    journal: EventJournal,
}

impl EventReplayManager {
    pub fn new(journal: EventJournal) -> (m: Self)
        ensures
            m.journal().events() == journal.events(),
            m.journal().capacity() == journal.capacity(),
    {
        EventReplayManager { journal }
    }

    pub closed spec fn journal(self) -> EventJournal {
        self.journal
    }

    /// The journal being replayed.
    pub fn journal_ref(&self) -> (j: &EventJournal)
        ensures
            *j == self.journal(),
    {
        &self.journal
    }

    /// Mutable access to the journal, to record more events.
    pub fn journal_mut(&mut self) -> (j: &mut EventJournal)
        ensures
            *j == old(self).journal(),
            final(self).journal() == *final(j),
    {
        &mut self.journal
    }

    /// Replay every recorded event through the scheduler. Returns the goals
    /// woken, each once, in the order they were first woken.
    pub fn replay(&self, scheduler: &mut GoalScheduler) -> (woken: Vec<GoalId>)
        ensures
            woken@ == replay_woken(self.journal().events(), old(scheduler).schedules()),
            final(scheduler).schedules() == old(scheduler).schedules(),
            final(scheduler).events_seen() == saturating_count(
                old(scheduler).events_seen(),
                self.journal().events().len(),
            ),
    {
        let events = self.journal.events_vec();
        let ghost evs = self.journal().events();
        let ghost sch = scheduler.schedules();
        let ghost seen0 = scheduler.events_seen();
        let mut woken: Vec<GoalId> = Vec::new();
        let mut i: usize = 0;
        while i < events.len()
            invariant
                i <= events@.len(),
                views(events@) == evs,
                scheduler.schedules() == sch,
                scheduler.events_seen() == saturating_count(seen0, i as nat),
                woken@ == replay_woken(evs.subrange(0, i as int), sch),
            decreases events@.len() - i,
        {
            let ghost before = woken@;
            let ev = &events[i];
            let matched = scheduler.match_event(ev.event_type.as_str());
            let mut j: usize = 0;
            while j < matched.len()
                invariant
                    j <= matched@.len(),
                    woken@ == add_all(before, matched@.subrange(0, j as int)),
                decreases matched@.len() - j,
            {
                push_unique(&mut woken, matched[j]);
                j = j + 1;
                assert(matched@.subrange(0, j as int).drop_last() =~= matched@.subrange(
                    0,
                    j - 1,
                ));
            }
            assert(matched@.subrange(0, j as int) =~= matched@);
            match ev.goal_id {
                Some(g) => {
                    push_unique(&mut woken, g);
                    assert(matched@.push(g).drop_last() =~= matched@);
                },
                None => {},
            }
            proof {
                assert(evs[i as int] == ev@);
                assert(evs.subrange(0, i + 1).drop_last() =~= evs.subrange(0, i as int));
            }
            i = i + 1;
        }
        assert(evs.subrange(0, i as int) =~= evs);
        woken
    }

    /// Replay, then clear the journal.
    pub fn replay_and_clear(&mut self, scheduler: &mut GoalScheduler) -> (woken: Vec<GoalId>)
        ensures
            woken@ == replay_woken(old(self).journal().events(), old(scheduler).schedules()),
            final(scheduler).schedules() == old(scheduler).schedules(),
            final(scheduler).events_seen() == saturating_count(
                old(scheduler).events_seen(),
                old(self).journal().events().len(),
            ),
            final(self).journal().events().len() == 0,
            final(self).journal().capacity() == old(self).journal().capacity(),
    {
        let woken = self.replay(scheduler);
        self.journal.clear();
        woken
    }
}

/// `seen` advanced by `n` events, stopping at `u64::MAX`.
pub open spec fn saturating_count(seen: u64, n: nat) -> u64 {
    if seen + n > u64::MAX {
        u64::MAX
    } else {
        (seen + n) as u64
    }
}

proof fn lemma_add_unique_props(w: Seq<GoalId>, g: GoalId)
    ensures
        w.no_duplicates() ==> add_unique(w, g).no_duplicates(),
        forall|x: GoalId| add_unique(w, g).contains(x) <==> (w.contains(x) || x == g),
{
    if !w.contains(g) {
        assert forall|x: GoalId| add_unique(w, g).contains(x) <==> (w.contains(x) || x == g) by {
            if add_unique(w, g).contains(x) {
                let k = choose|k: int| 0 <= k < w.push(g).len() && w.push(g)[k] == x;
                if k < w.len() {
                    assert(w[k] == x);
                }
            }
            if w.contains(x) {
                let k = choose|k: int| 0 <= k < w.len() && w[k] == x;
                assert(w.push(g)[k] == x);
            }
            if x == g {
                assert(w.push(g)[w.len() as int] == x);
            }
        }
    }
}

proof fn lemma_add_all_props(w: Seq<GoalId>, gs: Seq<GoalId>)
    ensures
        w.no_duplicates() ==> add_all(w, gs).no_duplicates(),
        forall|x: GoalId| add_all(w, gs).contains(x) <==> (w.contains(x) || gs.contains(x)),
    decreases gs.len(),
{
    if gs.len() > 0 {
        lemma_add_all_props(w, gs.drop_last());
        lemma_add_unique_props(add_all(w, gs.drop_last()), gs.last());
        assert forall|x: GoalId| add_all(w, gs).contains(x) <==> (w.contains(x) || gs.contains(x)) by {
            if gs.drop_last().contains(x) {
                let k = choose|k: int| 0 <= k < gs.drop_last().len() && gs.drop_last()[k] == x;
                assert(gs[k] == x);
            }
            if gs.contains(x) && x != gs.last() {
                let k = choose|k: int| 0 <= k < gs.len() && gs[k] == x;
                assert(k != gs.len() - 1);
                assert(gs.drop_last()[k] == x);
            }
            if x == gs.last() {
                assert(gs[gs.len() - 1] == x);
            }
        }
    }
}

/// Replay wakes each goal at most once.
pub proof fn lemma_replay_no_duplicates(events: Seq<EventView>, s: Seq<GoalSchedule>)
    ensures
        replay_woken(events, s).no_duplicates(),
    decreases events.len(),
{
    if events.len() > 0 {
        lemma_replay_no_duplicates(events.drop_last(), s);
        lemma_add_all_props(replay_woken(events.drop_last(), s), event_wakes(events.last(), s));
    }
}

/// Replay wakes exactly the goals that some recorded event wakes: those
/// subscribed to its type, and the goal it is scoped to.
pub proof fn lemma_replay_members(events: Seq<EventView>, s: Seq<GoalSchedule>, g: GoalId)
    ensures
        replay_woken(events, s).contains(g) <==> exists|i: int|
            0 <= i < events.len() && #[trigger] event_wakes(events[i], s).contains(g),
    decreases events.len(),
{
    if events.len() > 0 {
        let init = events.drop_last();
        lemma_replay_members(init, s, g);
        lemma_add_all_props(replay_woken(init, s), event_wakes(events.last(), s));
        if replay_woken(events, s).contains(g) {
            if replay_woken(init, s).contains(g) {
                let i = choose|i: int|
                    0 <= i < init.len() && #[trigger] event_wakes(init[i], s).contains(g);
                assert(events[i] == init[i]);
            } else {
                assert(event_wakes(events[events.len() - 1], s).contains(g));
            }
        }
        if exists|i: int| 0 <= i < events.len() && #[trigger] event_wakes(events[i], s).contains(g) {
            let i = choose|i: int|
                0 <= i < events.len() && #[trigger] event_wakes(events[i], s).contains(g);
            if i < events.len() - 1 {
                assert(init[i] == events[i]);
            }
        }
    }
}

/// The event `e` wakes `g`: a subscription of `g` matches its type, or it
/// is scoped to `g`.
pub open spec fn wakes(e: EventView, s: Seq<GoalSchedule>, g: GoalId) -> bool {
    ||| e.goal_id == Some(g)
    ||| exists|k: int| 0 <= k < s.len() && s[k].goal_id == g && schedule_matches(s[k], e.event_type)
}

proof fn lemma_event_wakes_members(e: EventView, s: Seq<GoalSchedule>, g: GoalId)
    ensures
        event_wakes(e, s).contains(g) <==> wakes(e, s, g),
{
    let m = matched_ids(s, e.event_type);
    lemma_matched_ids_members(s, e.event_type, g);
    match e.goal_id {
        Some(x) => {
            if m.push(x).contains(g) && g != x {
                let k = choose|k: int| 0 <= k < m.push(x).len() && m.push(x)[k] == g;
                assert(m[k] == g);
            }
            if m.contains(g) {
                let k = choose|k: int| 0 <= k < m.len() && m[k] == g;
                assert(m.push(x)[k] == g);
            }
            if g == x {
                assert(m.push(x)[m.len() as int] == g);
            }
        },
        None => {},
    }
}

proof fn lemma_add_all_prefix(w: Seq<GoalId>, gs: Seq<GoalId>)
    ensures
        add_all(w, gs).len() >= w.len(),
        forall|k: int| 0 <= k < w.len() ==> add_all(w, gs)[k] == w[k],
        forall|k: int|
            w.len() <= k < add_all(w, gs).len() ==> gs.contains(add_all(w, gs)[k]) && !w.contains(
                add_all(w, gs)[k],
            ),
    decreases gs.len(),
{
    if gs.len() > 0 {
        let a = add_all(w, gs.drop_last());
        lemma_add_all_prefix(w, gs.drop_last());
        lemma_add_all_props(w, gs.drop_last());
        let r = add_unique(a, gs.last());
        assert forall|k: int| w.len() <= k < r.len() implies gs.contains(r[k]) && !w.contains(r[k]) by {
            if k < a.len() {
                assert(r[k] == a[k]);
                let x = a[k];
                let j = choose|j: int| 0 <= j < gs.drop_last().len() && gs.drop_last()[j] == x;
                assert(gs[j] == x);
            } else {
                assert(r[k] == gs.last());
                assert(gs[gs.len() - 1] == r[k]);
                assert(!a.contains(gs.last()));
            }
        }
    }
}

/// Replaying the journal through the scheduler wakes each goal at most
/// once; it wakes exactly the goals that some recorded event wakes (by a
/// matching subscription, or by being the goal the event is scoped to);
/// and the goals come in the order they are first woken: a goal listed
/// before another is woken no later than any event that wakes the other.
pub proof fn lemma_replay_law(manager: EventReplayManager, scheduler: GoalScheduler)
    ensures
        replay_woken(manager.journal().events(), scheduler.schedules()).no_duplicates(),
        forall|g: GoalId| #[trigger]
            replay_woken(manager.journal().events(), scheduler.schedules()).contains(g)
                <==> exists|i: int|
                0 <= i < manager.journal().events().len() && wakes(
                    manager.journal().events()[i],
                    scheduler.schedules(),
                    g,
                ),
        forall|p: int, q: int, i: int|
            #![trigger replay_woken(manager.journal().events(), scheduler.schedules())[p], replay_woken(manager.journal().events(), scheduler.schedules())[q], manager.journal().events()[i]]
            0 <= p < q < replay_woken(manager.journal().events(), scheduler.schedules()).len() && 0
                <= i < manager.journal().events().len() && wakes(
                manager.journal().events()[i],
                scheduler.schedules(),
                replay_woken(manager.journal().events(), scheduler.schedules())[q],
            ) ==> exists|j: int|
                0 <= j <= i && wakes(
                    manager.journal().events()[j],
                    scheduler.schedules(),
                    replay_woken(manager.journal().events(), scheduler.schedules())[p],
                ),
{
    let events = manager.journal().events();
    let s = scheduler.schedules();
    lemma_replay_no_duplicates(events, s);
    assert forall|g: GoalId| #[trigger] replay_woken(events, s).contains(g) <==> exists|i: int|
        0 <= i < events.len() && wakes(events[i], s, g) by {
        lemma_replay_members(events, s, g);
        if exists|i: int| 0 <= i < events.len() && wakes(events[i], s, g) {
            let i = choose|i: int| 0 <= i < events.len() && wakes(events[i], s, g);
            lemma_event_wakes_members(events[i], s, g);
        }
        if replay_woken(events, s).contains(g) {
            let i = choose|i: int| 0 <= i < events.len() && #[trigger] event_wakes(events[i], s).contains(g);
            lemma_event_wakes_members(events[i], s, g);
        }
    }
    assert forall|p: int, q: int, i: int|
        #![trigger replay_woken(events, s)[p], replay_woken(events, s)[q], events[i]]
        0 <= p < q < replay_woken(events, s).len() && 0 <= i < events.len() && wakes(
            events[i],
            s,
            replay_woken(events, s)[q],
        ) implies exists|j: int| 0 <= j <= i && wakes(events[j], s, replay_woken(events, s)[p]) by {
        lemma_event_wakes_members(events[i], s, replay_woken(events, s)[q]);
        lemma_first_wake_order(events, s, p, q, i);
        let j = choose|j: int|
            0 <= j <= i && event_wakes(events[j], s).contains(replay_woken(events, s)[p]);
        lemma_event_wakes_members(events[j], s, replay_woken(events, s)[p]);
    }
}

proof fn lemma_first_wake_order(events: Seq<EventView>, s: Seq<GoalSchedule>, p: int, q: int, i: int)
    requires
        0 <= p < q < replay_woken(events, s).len(),
        0 <= i < events.len(),
        event_wakes(events[i], s).contains(replay_woken(events, s)[q]),
    ensures
        exists|j: int| 0 <= j <= i && event_wakes(events[j], s).contains(replay_woken(events, s)[p]),
    decreases events.len(),
{
    let init = events.drop_last();
    let last = events.len() - 1;
    let w = replay_woken(init, s);
    let gs = event_wakes(events[last], s);
    let r = replay_woken(events, s);
    lemma_add_all_prefix(w, gs);
    if q < w.len() {
        assert(r[p] == w[p]);
        assert(r[q] == w[q]);
        if i < last {
            assert(init[i] == events[i]);
            lemma_first_wake_order(init, s, p, q, i);
            let j = choose|j: int| 0 <= j <= i && event_wakes(init[j], s).contains(w[p]);
            assert(events[j] == init[j]);
        } else {
            lemma_replay_members(init, s, w[p]);
            assert(w.contains(w[p]));
            let j = choose|j: int| 0 <= j < init.len() && #[trigger] event_wakes(init[j], s).contains(w[p]);
            assert(events[j] == init[j]);
        }
    } else {
        assert(!w.contains(r[q]));
        lemma_replay_members(init, s, r[q]);
        if i < last {
            assert(init[i] == events[i]);
            assert(event_wakes(init[i], s).contains(r[q]));
            assert(false);
        }
        if p < w.len() {
            assert(r[p] == w[p]);
            lemma_replay_members(init, s, w[p]);
            assert(w.contains(w[p]));
            let j = choose|j: int| 0 <= j < init.len() && #[trigger] event_wakes(init[j], s).contains(w[p]);
            assert(events[j] == init[j]);
        } else {
            assert(gs.contains(r[p]));
        }
    }
}

} // verus!
