//! Attention outcomes and rhythms, and the decision tree that turns the
//! strength of the observed signals into an outcome. The signal strengths
//! and the adaptive threshold are real numbers weighed outside; what
//! reaches this module is the band the combined score fell into and which
//! signals were present.

use vstd::prelude::*;

use crate::text::{decimal, owned, push_decimal, str_eq};

verus! {

/// When the AI should next reason about something.
#[derive(Debug, Clone, Copy, PartialEq, Eq, Structural)]
pub enum Rhythm {
    Immediate,
    Minutes(u64),
    Morning,
    Evening,
    Weekly,
    Monthly,
    LongTerm,
}

/// What the AI should do as a result of attention evaluation.
#[derive(Debug)]
pub enum AttentionOutcome {
    Ignore,
    ObserveLater { rhythm: Rhythm },
    ReflectSoon { rhythm: Rhythm },
    ReflectNow,
    AskUser { question: String },
    Suggest { message: String },
    Notify { message: String },
    Escalate { reason: String },
}

pub enum OutcomeView {
    Ignore,
    ObserveLater { rhythm: Rhythm },
    ReflectSoon { rhythm: Rhythm },
    ReflectNow,
    AskUser { question: Seq<char> },
    Suggest { message: Seq<char> },
    Notify { message: Seq<char> },
    Escalate { reason: Seq<char> },
}

impl View for AttentionOutcome {
    type V = OutcomeView;

    open spec fn view(&self) -> OutcomeView {
        match self {
            AttentionOutcome::Ignore => OutcomeView::Ignore,
            AttentionOutcome::ObserveLater { rhythm } => OutcomeView::ObserveLater {
                rhythm: *rhythm,
            },
            AttentionOutcome::ReflectSoon { rhythm } => OutcomeView::ReflectSoon {
                rhythm: *rhythm,
            },
            AttentionOutcome::ReflectNow => OutcomeView::ReflectNow,
            AttentionOutcome::AskUser { question } => OutcomeView::AskUser {
                question: question@,
            },
            AttentionOutcome::Suggest { message } => OutcomeView::Suggest { message: message@ },
            AttentionOutcome::Notify { message } => OutcomeView::Notify { message: message@ },
            AttentionOutcome::Escalate { reason } => OutcomeView::Escalate { reason: reason@ },
        }
    }
}

impl Clone for AttentionOutcome {
    fn clone(&self) -> (r: Self)
        ensures
            r@ == self@,
    {
        match self {
            AttentionOutcome::Ignore => AttentionOutcome::Ignore,
            AttentionOutcome::ObserveLater { rhythm } => AttentionOutcome::ObserveLater {
                rhythm: *rhythm,
            },
            AttentionOutcome::ReflectSoon { rhythm } => AttentionOutcome::ReflectSoon {
                rhythm: *rhythm,
            },
            AttentionOutcome::ReflectNow => AttentionOutcome::ReflectNow,
            AttentionOutcome::AskUser { question } => AttentionOutcome::AskUser {
                question: question.clone(),
            },
            AttentionOutcome::Suggest { message } => AttentionOutcome::Suggest {
                message: message.clone(),
            },
            AttentionOutcome::Notify { message } => AttentionOutcome::Notify {
                message: message.clone(),
            },
            AttentionOutcome::Escalate { reason } => AttentionOutcome::Escalate {
                reason: reason.clone(),
            },
        }
    }
}

/// How the user responded to an attention event.
#[derive(Debug, Clone, Copy, PartialEq, Eq, Structural)]
pub enum UserResponse {
    Accepted,
    Rejected,
    Ignored,
}

/// The band the combined signal score of an observation falls into:
/// at least 0.8; at least the larger of the threshold and 0.4; at least
/// the threshold; below it.
#[derive(Debug, Clone, Copy, PartialEq, Eq, Structural)]
pub enum AttentionLevel {
    Strong,
    Elevated,
    Moderate,
    Weak,
}

/// The band the sum of the signal strengths falls into: above 1.5, above
/// 0.8, or at most 0.8.
#[derive(Debug, Clone, Copy, PartialEq, Eq, Structural)]
pub enum SignalVolume {
    High,
    Medium,
    Low,
}

/// Which signals were present: urgency above 0.6, a person, a state change.
#[derive(Debug, Clone, Copy, PartialEq, Eq, Structural)]
pub struct SignalFlags {
    pub high_urgency: bool,
    pub people: bool,
    pub state_change: bool,
}

/// The outcome when one signal dominates strongly.
pub open spec fn high_attention_spec(dominant: Seq<char>) -> OutcomeView {
    if dominant == "people"@ || dominant == "urgency"@ || dominant == "state_change"@ {
        OutcomeView::ReflectNow
    } else if dominant == "uncertainty"@ {
        OutcomeView::ReflectSoon { rhythm: Rhythm::Minutes(2) }
    } else if dominant == "novelty"@ {
        OutcomeView::ObserveLater { rhythm: Rhythm::Minutes(10) }
    } else if dominant == "relationship"@ {
        OutcomeView::ReflectNow
    } else if dominant == "anomaly"@ {
        OutcomeView::ReflectSoon { rhythm: Rhythm::Minutes(5) }
    } else {
        OutcomeView::ReflectNow
    }
}

/// The outcome when the signal named `dominant_name` dominates strongly:
/// uncertainty is reflected on in 2 minutes, anomalies in 5, novelty is
/// observed again in 10; people, urgency, state changes, relationships
/// and anything else are reflected on now.
pub fn high_attention_outcome(dominant_name: &str) -> (o: AttentionOutcome)
    ensures
        o@ == high_attention_spec(dominant_name@),
{
    if str_eq(dominant_name, "people") {
        AttentionOutcome::ReflectNow
    } else if str_eq(dominant_name, "urgency") {
        AttentionOutcome::ReflectNow
    } else if str_eq(dominant_name, "state_change") {
        AttentionOutcome::ReflectNow
    } else if str_eq(dominant_name, "uncertainty") {
        AttentionOutcome::ReflectSoon { rhythm: Rhythm::Minutes(2) }
    } else if str_eq(dominant_name, "novelty") {
        AttentionOutcome::ObserveLater { rhythm: Rhythm::Minutes(10) }
    } else if str_eq(dominant_name, "relationship") {
        AttentionOutcome::ReflectNow
    } else if str_eq(dominant_name, "anomaly") {
        AttentionOutcome::ReflectSoon { rhythm: Rhythm::Minutes(5) }
    } else {
        AttentionOutcome::ReflectNow
    }
}

/// A person or the user.
pub open spec fn is_person_type(t: Seq<char>) -> bool {
    t == "person"@ || t == "user"@
}

/// The names of the people among `(entity_type, name)` pairs, in order.
pub open spec fn people_names(es: Seq<(Seq<char>, Seq<char>)>) -> Seq<Seq<char>>
    decreases es.len(),
{
    if es.len() == 0 {
        Seq::empty()
    } else if is_person_type(es.last().0) {
        people_names(es.drop_last()).push(es.last().1)
    } else {
        people_names(es.drop_last())
    }
}

pub open spec fn notification_spec(es: Seq<(Seq<char>, Seq<char>)>) -> Seq<char> {
    let people = people_names(es);
    if people.len() == 1 {
        people[0] + " is around"@
    } else if people.len() > 1 {
        decimal(people.len()) + " people are present"@
    } else {
        "Something came up that might be worth discussing."@
    }
}

pub open spec fn eviews(s: Seq<(String, String)>) -> Seq<(Seq<char>, Seq<char>)> {
    s.map_values(|p: (String, String)| (p.0@, p.1@))
}

/// The notification about the people among `entities`
/// (`(entity_type, name)` pairs).
pub fn build_notification(entities: &Vec<(String, String)>) -> (s: String)
    ensures
        s@ == notification_spec(eviews(entities@)),
{
    let ghost es = eviews(entities@);
    let mut first: Option<String> = None;
    let mut count: usize = 0;
    let n = entities.len();
    let mut i: usize = 0;
    while i < n
        invariant
            n == entities@.len(),
            es == eviews(entities@),
            i <= n,
            count == people_names(es.subrange(0, i as int)).len(),
            count <= i,
            count >= 1 <==> first is Some,
            first matches Some(f) ==> f@ == people_names(es.subrange(0, i as int))[0],
        decreases n - i,
    {
        let ghost pre = es.subrange(0, i as int);
        let ghost next = es.subrange(0, i + 1);
        assert(next.drop_last() =~= pre);
        assert(next.last() == (entities@[i as int].0@, entities@[i as int].1@));
        let t = entities[i].0.as_str();
        if str_eq(t, "person") || str_eq(t, "user") {
            if count == 0 {
                first = Some(entities[i].1.clone());
            }
            count = count + 1;
        }
        i = i + 1;
    }
    assert(es.subrange(0, n as int) =~= es);
    if count == 1 {
        let mut s = match first {
            Some(f) => f,
            None => String::new(),
        };
        s.append(" is around");
        s
    } else if count > 1 {
        let mut s = String::new();
        push_decimal(&mut s, count as u64);
        s.append(" people are present");
        s
    } else {
        owned("Something came up that might be worth discussing.")
    }
}

/// The rhythm for deferred observation, by total signal volume.
pub open spec fn rhythm_spec(v: SignalVolume) -> Rhythm {
    match v {
        SignalVolume::High => Rhythm::Minutes(5),
        SignalVolume::Medium => Rhythm::Minutes(15),
        SignalVolume::Low => Rhythm::Minutes(30),
    }
}

/// The rhythm for deferred observation: 5 minutes for a loud set of
/// signals, 15 for a medium one, 30 otherwise.
pub fn select_rhythm(v: SignalVolume) -> (r: Rhythm)
    ensures
        r == rhythm_spec(v),
{
    match v {
        SignalVolume::High => Rhythm::Minutes(5),
        SignalVolume::Medium => Rhythm::Minutes(15),
        SignalVolume::Low => Rhythm::Minutes(30),
    }
}

/// The decision tree of attention evaluation.
pub open spec fn outcome_spec(
    level: AttentionLevel,
    dominant: Seq<char>,
    flags: SignalFlags,
    volume: SignalVolume,
    es: Seq<(Seq<char>, Seq<char>)>,
) -> OutcomeView {
    match level {
        AttentionLevel::Strong => high_attention_spec(dominant),
        AttentionLevel::Elevated => if flags.high_urgency {
            OutcomeView::ReflectNow
        } else if flags.people {
            OutcomeView::Notify { message: notification_spec(es) }
        } else if flags.state_change {
            OutcomeView::ReflectNow
        } else {
            OutcomeView::ReflectSoon { rhythm: Rhythm::Minutes(5) }
        },
        AttentionLevel::Moderate => OutcomeView::ObserveLater { rhythm: rhythm_spec(volume) },
        AttentionLevel::Weak => OutcomeView::Ignore,
    }
}

/// On an elevated score the flags alone decide, whatever the dominant
/// signal and the volume: the observation is reflected on now exactly when
/// it is urgent, or shows a state change with no person present; people
/// without urgency are notified; with none of the three it is reflected on
/// in 5 minutes.
pub proof fn lemma_elevated_outcome(
    d1: Seq<char>,
    d2: Seq<char>,
    flags: SignalFlags,
    v1: SignalVolume,
    v2: SignalVolume,
    es: Seq<(Seq<char>, Seq<char>)>,
)
    ensures
        outcome_spec(AttentionLevel::Elevated, d1, flags, v1, es) == outcome_spec(
            AttentionLevel::Elevated,
            d2,
            flags,
            v2,
            es,
        ),
        (outcome_spec(AttentionLevel::Elevated, d1, flags, v1, es) == OutcomeView::ReflectNow) <==> (
        flags.high_urgency || (!flags.people && flags.state_change)),
        !flags.high_urgency && flags.people ==> outcome_spec(
            AttentionLevel::Elevated,
            d1,
            flags,
            v1,
            es,
        ) is Notify,
        !flags.high_urgency && !flags.people && !flags.state_change ==> outcome_spec(
            AttentionLevel::Elevated,
            d1,
            flags,
            v1,
            es,
        ) == (OutcomeView::ReflectSoon { rhythm: Rhythm::Minutes(5) }),
{
}

/// Below the elevated band nothing is reflected on now: a moderate score
/// defers observation, a weak one ignores it, whatever the flags.
pub proof fn lemma_low_scores_never_reflect_now(
    dominant: Seq<char>,
    flags: SignalFlags,
    volume: SignalVolume,
    es: Seq<(Seq<char>, Seq<char>)>,
)
    ensures
        outcome_spec(AttentionLevel::Moderate, dominant, flags, volume, es) is ObserveLater,
        outcome_spec(AttentionLevel::Weak, dominant, flags, volume, es) == OutcomeView::Ignore,
{
}

/// On a strong score the dominant signal decides alone, whatever the
/// flags and the volume: uncertainty is reflected on in 2 minutes, an
/// anomaly in 5, novelty is observed again in 10 minutes, and every other
/// signal is reflected on now.
pub proof fn lemma_strong_outcome(
    dominant: Seq<char>,
    f1: SignalFlags,
    f2: SignalFlags,
    v1: SignalVolume,
    v2: SignalVolume,
    e1: Seq<(Seq<char>, Seq<char>)>,
    e2: Seq<(Seq<char>, Seq<char>)>,
)
    ensures
        outcome_spec(AttentionLevel::Strong, dominant, f1, v1, e1) == outcome_spec(
            AttentionLevel::Strong,
            dominant,
            f2,
            v2,
            e2,
        ),
        dominant == "uncertainty"@ ==> outcome_spec(AttentionLevel::Strong, dominant, f1, v1, e1)
            == (OutcomeView::ReflectSoon { rhythm: Rhythm::Minutes(2) }),
        dominant == "anomaly"@ ==> outcome_spec(AttentionLevel::Strong, dominant, f1, v1, e1)
            == (OutcomeView::ReflectSoon { rhythm: Rhythm::Minutes(5) }),
        dominant == "novelty"@ ==> outcome_spec(AttentionLevel::Strong, dominant, f1, v1, e1)
            == (OutcomeView::ObserveLater { rhythm: Rhythm::Minutes(10) }),
        dominant != "uncertainty"@ && dominant != "anomaly"@ && dominant != "novelty"@
            ==> outcome_spec(AttentionLevel::Strong, dominant, f1, v1, e1) == OutcomeView::ReflectNow,
{
    reveal_strlit("people");
    reveal_strlit("urgency");
    reveal_strlit("state_change");
    reveal_strlit("uncertainty");
    reveal_strlit("novelty");
    reveal_strlit("relationship");
    reveal_strlit("anomaly");
    assert("uncertainty"@.len() == 11);
    assert("anomaly"@.len() == 7);
    assert("novelty"@.len() == 7);
    assert("people"@.len() == 6);
    assert("urgency"@.len() == 7);
    assert("state_change"@.len() == 12);
    assert("relationship"@.len() == 12);
    assert("anomaly"@[0] == 'a');
    assert("novelty"@[0] == 'n');
    assert("urgency"@[0] == 'u');
    assert("state_change"@[0] == 's');
    assert("relationship"@[0] == 'r');
}

/// How many minutes a rhythm waits.
pub open spec fn rhythm_minutes(r: Rhythm) -> int {
    match r {
        Rhythm::Minutes(m) => m as int,
        _ => -1,
    }
}

/// On a moderate score observation is deferred by the total signal
/// volume alone: 5 minutes when loud, 15 when medium, 30 when low; a
/// louder set of signals never waits longer.
pub proof fn lemma_moderate_outcome(
    dominant: Seq<char>,
    flags: SignalFlags,
    es: Seq<(Seq<char>, Seq<char>)>,
)
    ensures
        outcome_spec(AttentionLevel::Moderate, dominant, flags, SignalVolume::High, es)
            == (OutcomeView::ObserveLater { rhythm: Rhythm::Minutes(5) }),
        outcome_spec(AttentionLevel::Moderate, dominant, flags, SignalVolume::Medium, es)
            == (OutcomeView::ObserveLater { rhythm: Rhythm::Minutes(15) }),
        outcome_spec(AttentionLevel::Moderate, dominant, flags, SignalVolume::Low, es)
            == (OutcomeView::ObserveLater { rhythm: Rhythm::Minutes(30) }),
        rhythm_minutes(rhythm_spec(SignalVolume::High)) < rhythm_minutes(
            rhythm_spec(SignalVolume::Medium),
        ) < rhythm_minutes(rhythm_spec(SignalVolume::Low)),
{
}

/// The notification names the one person present, counts two or more,
/// and falls back to a general remark when nobody is.
pub proof fn lemma_notification_text(es: Seq<(Seq<char>, Seq<char>)>)
    ensures
        people_names(es).len() == 1 ==> notification_spec(es) == people_names(es)[0]
            + " is around"@,
        people_names(es).len() >= 2 ==> notification_spec(es) == decimal(people_names(es).len())
            + " people are present"@,
        people_names(es).len() == 0 ==> notification_spec(es)
            == "Something came up that might be worth discussing."@,
{
}

/// The notification about present people depends on the people alone: an
/// entity that is not a person does not change it.
pub proof fn lemma_notification_ignores_non_people(
    es: Seq<(Seq<char>, Seq<char>)>,
    e: (Seq<char>, Seq<char>),
)
    requires
        !is_person_type(e.0),
    ensures
        notification_spec(es.push(e)) == notification_spec(es),
{
    assert(es.push(e).drop_last() =~= es);
}

/// The outcome of evaluating an observation: the dominant signal decides
/// when the score is strong; urgency, people and state changes decide when
/// it is elevated; a moderate score defers observation by the signal
/// volume; a weak one is ignored. `entities` are the observed
/// `(entity_type, name)` pairs.
pub fn decide_outcome(
    level: AttentionLevel,
    dominant_name: &str,
    flags: SignalFlags,
    volume: SignalVolume,
    entities: &Vec<(String, String)>,
) -> (o: AttentionOutcome)
    ensures
        o@ == outcome_spec(level, dominant_name@, flags, volume, eviews(entities@)),
{
    match level {
        AttentionLevel::Strong => high_attention_outcome(dominant_name),
        AttentionLevel::Elevated => {
            if flags.high_urgency {
                AttentionOutcome::ReflectNow
            } else if flags.people {
                AttentionOutcome::Notify { message: build_notification(entities) }
            } else if flags.state_change {
                AttentionOutcome::ReflectNow
            } else {
                AttentionOutcome::ReflectSoon { rhythm: Rhythm::Minutes(5) }
            }
        },
        AttentionLevel::Moderate => AttentionOutcome::ObserveLater { rhythm: select_rhythm(volume) },
        AttentionLevel::Weak => AttentionOutcome::Ignore,
    }
}

/// The outcome of a reflection on context alone: reflect now, reflect in
/// 15 minutes, observe again in 30, or ignore.
pub open spec fn context_outcome_spec(level: AttentionLevel) -> OutcomeView {
    match level {
        AttentionLevel::Strong => OutcomeView::ReflectNow,
        AttentionLevel::Elevated => OutcomeView::ReflectSoon { rhythm: Rhythm::Minutes(15) },
        AttentionLevel::Moderate => OutcomeView::ObserveLater { rhythm: Rhythm::Minutes(30) },
        AttentionLevel::Weak => OutcomeView::Ignore,
    }
}

/// The outcome of a reflection on context alone.
pub fn context_outcome(level: AttentionLevel) -> (o: AttentionOutcome)
    ensures
        o@ == context_outcome_spec(level),
{
    match level {
        AttentionLevel::Strong => AttentionOutcome::ReflectNow,
        AttentionLevel::Elevated => AttentionOutcome::ReflectSoon { rhythm: Rhythm::Minutes(15) },
        AttentionLevel::Moderate => AttentionOutcome::ObserveLater { rhythm: Rhythm::Minutes(30) },
        AttentionLevel::Weak => AttentionOutcome::Ignore,
    }
}

/// The re-evaluation rhythm that a deferral carries.
pub open spec fn outcome_rhythm_spec(o: OutcomeView) -> Option<Rhythm> {
    match o {
        OutcomeView::ObserveLater { rhythm } => Some(rhythm),
        OutcomeView::ReflectSoon { rhythm } => Some(rhythm),
        _ => None,
    }
}

/// The rhythm of a deferral (`None` for other outcomes).
pub fn outcome_rhythm(o: &AttentionOutcome) -> (r: Option<Rhythm>)
    ensures
        r == outcome_rhythm_spec(o@),
{
    match o {
        AttentionOutcome::ObserveLater { rhythm } => Some(*rhythm),
        AttentionOutcome::ReflectSoon { rhythm } => Some(*rhythm),
        _ => None,
    }
}

pub open spec fn reason_spec(meets_threshold: bool, dominant: Option<Seq<char>>) -> Seq<char> {
    if !meets_threshold {
        "Not enough to act on"@
    } else {
        "Paying attention — "@ + match dominant {
            Some(d) => "Most relevant: "@ + d,
            None => Seq::empty(),
        }
    }
}

/// The human-readable justification of an attention decision.
pub fn attention_reason(meets_threshold: bool, dominant_name: Option<&str>) -> (s: String)
    ensures
        s@ == reason_spec(
            meets_threshold,
            match dominant_name {
                Some(d) => Some(d@),
                None => None,
            },
        ),
{
    if !meets_threshold {
        owned("Not enough to act on")
    } else {
        let mut s = String::from_str("Paying attention — ");
        match dominant_name {
            Some(d) => {
                s.append("Most relevant: ");
                s.append(d);
            },
            None => {},
        }
        s
    }
}

/// How the user has answered attention events: consecutive ignores and
/// the numbers of accepted and rejected suggestions.
#[derive(Debug, Clone, Copy, PartialEq, Eq, Structural)]
pub struct ResponseCounters {
    pub consecutive_ignores: u32,
    pub recent_accepts: u32,
    pub recent_rejects: u32,
}

impl ResponseCounters {
    /// No responses yet.
    pub fn new() -> (c: Self)
        ensures
            c.consecutive_ignores == 0,
            c.recent_accepts == 0,
            c.recent_rejects == 0,
    {
        ResponseCounters { consecutive_ignores: 0, recent_accepts: 0, recent_rejects: 0 }
    }

    /// Counts a response: an acceptance or a rejection ends a run of
    /// ignores; an ignore extends it; no response changes nothing.
    pub fn record(&mut self, response: Option<UserResponse>)
        requires
            old(self).consecutive_ignores < u32::MAX,
            old(self).recent_accepts < u32::MAX,
            old(self).recent_rejects < u32::MAX,
        ensures
            match response {
                Some(UserResponse::Accepted) => {
                    &&& final(self).consecutive_ignores == 0
                    &&& final(self).recent_accepts == old(self).recent_accepts + 1
                    &&& final(self).recent_rejects == old(self).recent_rejects
                },
                Some(UserResponse::Rejected) => {
                    &&& final(self).consecutive_ignores == 0
                    &&& final(self).recent_accepts == old(self).recent_accepts
                    &&& final(self).recent_rejects == old(self).recent_rejects + 1
                },
                Some(UserResponse::Ignored) => {
                    &&& final(self).consecutive_ignores == old(self).consecutive_ignores + 1
                    &&& final(self).recent_accepts == old(self).recent_accepts
                    &&& final(self).recent_rejects == old(self).recent_rejects
                },
                None => *final(self) == *old(self),
            },
    {
        match response {
            Some(UserResponse::Accepted) => {
                self.consecutive_ignores = 0;
                self.recent_accepts = self.recent_accepts + 1;
            },
            Some(UserResponse::Rejected) => {
                self.consecutive_ignores = 0;
                self.recent_rejects = self.recent_rejects + 1;
            },
            Some(UserResponse::Ignored) => {
                self.consecutive_ignores = self.consecutive_ignores + 1;
            },
            None => {},
        }
    }
}

} // verus!
