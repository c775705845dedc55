//! The companion's conversational rules: the window of recent turns,
//! structural duplicate and session-gap checks, the context summary, the
//! follow-up messages of self-initiated reflection, and the template
//! replies used when planning fails. Understanding, planning and the world
//! model run outside and hand their results here as plain values.

use vstd::prelude::*;

use crate::attention::{AttentionOutcome, OutcomeView};
use crate::bounded::keep_last;
use crate::text::{
    byte_len, contains_seq, join_seq, join_strings, lowercase, owned, str_contains, str_eq,
    string_views, to_lowercase, trim, trimmed, utf8_len,
};

verus! {

/// What the companion decided to do.
#[derive(Debug)]
pub enum Decision {
    Wait,
    Communicate { recipient: String, message: String, reason: String },
    UpdateMemory {
        entity_name: String,
        entity_type: String,
        properties: Vec<(String, String)>,
        reason: String,
    },
    Execute { action: String },
}

pub enum DecisionView {
    Wait,
    Communicate { recipient: Seq<char>, message: Seq<char>, reason: Seq<char> },
    UpdateMemory {
        entity_name: Seq<char>,
        entity_type: Seq<char>,
        properties: Seq<(Seq<char>, Seq<char>)>,
        reason: Seq<char>,
    },
    Execute { action: Seq<char> },
}

pub open spec fn pairs_view(s: Seq<(String, String)>) -> Seq<(Seq<char>, Seq<char>)> {
    s.map_values(|p: (String, String)| (p.0@, p.1@))
}

impl View for Decision {
    type V = DecisionView;

    open spec fn view(&self) -> DecisionView {
        match self {
            Decision::Wait => DecisionView::Wait,
            Decision::Communicate { recipient, message, reason } => DecisionView::Communicate {
                recipient: recipient@,
                message: message@,
                reason: reason@,
            },
            Decision::UpdateMemory { entity_name, entity_type, properties, reason } =>
                DecisionView::UpdateMemory {
                entity_name: entity_name@,
                entity_type: entity_type@,
                properties: pairs_view(properties@),
                reason: reason@,
            },
            Decision::Execute { action } => DecisionView::Execute { action: action@ },
        }
    }
}

fn communicate(recipient: &str, message: String, reason: &str) -> (d: Decision)
    ensures
        d@ == (DecisionView::Communicate {
            recipient: recipient@,
            message: message@,
            reason: reason@,
        }),
{
    Decision::Communicate { recipient: owned(recipient), message, reason: owned(reason) }
}

/// The label a reflection records for a decision.
pub open spec fn reflection_label(d: DecisionView) -> Seq<char> {
    match d {
        DecisionView::Wait => "silent"@,
        DecisionView::Communicate { .. } => "communicated"@,
        DecisionView::UpdateMemory { .. } => "updated_memory"@,
        DecisionView::Execute { .. } => "executed"@,
    }
}

/// The label a reflection records for `d`.
pub fn reflection_outcome(d: &Decision) -> (s: String)
    ensures
        s@ == reflection_label(d@),
{
    match d {
        Decision::Wait => owned("silent"),
        Decision::Communicate { .. } => owned("communicated"),
        Decision::UpdateMemory { .. } => owned("updated_memory"),
        Decision::Execute { .. } => owned("executed"),
    }
}

/// A decision as the UI shows it: its kind, its message (or the entity or
/// action it concerns), and its reason.
#[derive(Debug)]
pub struct DecisionSnapshot {
    pub decision_type: String,
    pub message: Option<String>,
    pub reason: Option<String>,
}

pub open spec fn ov(o: Option<String>) -> Option<Seq<char>> {
    match o {
        Some(s) => Some(s@),
        None => None,
    }
}

/// The UI snapshot of a decision.
pub fn snapshot_of(d: &Decision) -> (s: DecisionSnapshot)
    ensures
        match d@ {
            DecisionView::Wait => s.decision_type@ == "Wait"@ && ov(s.message) is None && ov(
                s.reason,
            ) is None,
            DecisionView::Communicate { message, reason, .. } => s.decision_type@
                == "Communicate"@ && ov(s.message) == Some(message) && ov(s.reason) == Some(
                reason,
            ),
            DecisionView::UpdateMemory { entity_name, reason, .. } => s.decision_type@
                == "UpdateMemory"@ && ov(s.message) == Some(entity_name) && ov(s.reason) == Some(
                reason,
            ),
            DecisionView::Execute { action } => s.decision_type@ == "Execute"@ && ov(s.message)
                == Some(action) && ov(s.reason) is None,
        },
{
    match d {
        Decision::Wait => DecisionSnapshot {
            decision_type: owned("Wait"),
            message: None,
            reason: None,
        },
        Decision::Communicate { message, reason, .. } => DecisionSnapshot {
            decision_type: owned("Communicate"),
            message: Some(message.clone()),
            reason: Some(reason.clone()),
        },
        Decision::UpdateMemory { entity_name, reason, .. } => DecisionSnapshot {
            decision_type: owned("UpdateMemory"),
            message: Some(entity_name.clone()),
            reason: Some(reason.clone()),
        },
        Decision::Execute { action } => DecisionSnapshot {
            decision_type: owned("Execute"),
            message: Some(action.clone()),
            reason: None,
        },
    }
}

/// A single turn of recent conversation; `timestamp` in milliseconds since
/// the Unix epoch.
#[derive(Debug)]
pub struct ConversationTurn {
    pub message: String,
    pub timestamp: i64,
    pub is_from_user: bool,
}

pub struct TurnView {
    pub message: Seq<char>,
    pub timestamp: i64,
    pub is_from_user: bool,
}

impl View for ConversationTurn {
    type V = TurnView;

    open spec fn view(&self) -> TurnView {
        TurnView {
            message: self.message@,
            timestamp: self.timestamp,
            is_from_user: self.is_from_user,
        }
    }
}

impl Clone for ConversationTurn {
    fn clone(&self) -> (r: Self)
        ensures
            r@ == self@,
    {
        ConversationTurn {
            message: self.message.clone(),
            timestamp: self.timestamp,
            is_from_user: self.is_from_user,
        }
    }
}

pub open spec fn tviews(s: Seq<ConversationTurn>) -> Seq<TurnView> {
    s.map_values(|t: ConversationTurn| t@)
}

/// The user's turns, in order.
pub open spec fn user_turns(ts: Seq<TurnView>) -> Seq<TurnView>
    decreases ts.len(),
{
    if ts.len() == 0 {
        Seq::empty()
    } else if ts.last().is_from_user {
        user_turns(ts.drop_last()).push(ts.last())
    } else {
        user_turns(ts.drop_last())
    }
}

/// Normalised text of a message: trimmed and lower-cased.
pub open spec fn normalized(m: Seq<char>) -> Seq<char> {
    lowercase(trim(m))
}

/// `prev` repeats `message`: equal once normalised, or, when both are
/// longer than 8 bytes, one contains the other.
pub open spec fn repeats(message: Seq<char>, prev: Seq<char>) -> bool {
    let a = normalized(message);
    let b = normalized(prev);
    a == b || (utf8_len(a) > 8 && utf8_len(b) > 8 && (contains_seq(a, b) || contains_seq(b, a)))
}

/// The latest of the last `k` user turns that `message` repeats.
pub open spec fn repeated_in(ts: Seq<TurnView>, message: Seq<char>, k: nat) -> Option<Seq<char>>
    decreases ts.len(),
{
    if k == 0 || ts.len() == 0 {
        None
    } else if repeats(message, ts.last().message) {
        Some(ts.last().message)
    } else {
        repeated_in(ts.drop_last(), message, (k - 1) as nat)
    }
}

/// Seconds of a millisecond timestamp, rounded toward zero.
pub open spec fn secs_of(ms: i64) -> int {
    if ms >= 0 {
        ms as int / 1000
    } else {
        -((-(ms as int)) / 1000)
    }
}

fn secs(ms: i64) -> (s: i64)
    ensures
        s as int == secs_of(ms),
{
    if ms >= 0 {
        ms / 1000
    } else {
        let m: i128 = -(ms as i128);
        let q: i128 = m / 1000;
        -(q as i64)
    }
}

/// The recent turns as the planner reads them: the last six, each as
/// "User: ..." or "You: ...", one per line.
pub open spec fn turn_line(t: TurnView) -> Seq<char> {
    (if t.is_from_user { "User: "@ } else { "You: "@ }) + t.message
}

pub open spec fn recent_text_spec(ts: Seq<TurnView>) -> Seq<char> {
    let k: int = if ts.len() < 6 { ts.len() as int } else { 6 };
    join_seq(ts.subrange(ts.len() - k, ts.len() as int).map_values(|t: TurnView| turn_line(t)), "\n"@)
}

/// The window of recent conversation: at most ten turns, oldest first.
pub struct ConversationWindow {
    turns: Vec<ConversationTurn>,
}

impl ConversationWindow {
    pub closed spec fn turns_view(&self) -> Seq<TurnView> {
        tviews(self.turns@)
    }

    /// An empty window.
    pub fn new() -> (w: Self)
        ensures
            w.turns_view() == Seq::<TurnView>::empty(),
    {
        let w = ConversationWindow { turns: Vec::new() };
        assert(tviews(w.turns@) =~= Seq::<TurnView>::empty());
        w
    }

    /// The turns, oldest first.
    pub fn turns(&self) -> (r: &Vec<ConversationTurn>)
        ensures
            tviews(r@) == self.turns_view(),
    {
        &self.turns
    }

    /// Appends a turn, dropping the oldest when there are more than ten.
    pub fn push(&mut self, turn: ConversationTurn)
        requires
            old(self).turns_view().len() <= 10,
        ensures
            final(self).turns_view() == keep_last(old(self).turns_view().push(turn@), 10),
            final(self).turns_view().len() <= 10,
    {
        let ghost t = turn@;
        let ghost before = tviews(self.turns@);
        self.turns.push(turn);
        assert(tviews(self.turns@) =~= before.push(t));
        if self.turns.len() > 10 {
            self.turns.remove(0);
            assert(tviews(self.turns@) =~= before.push(t).subrange(1, 11));
        }
    }

    /// The user message that `message` repeats among the last five user
    /// turns, latest first.
    pub fn detect_duplicate(&self, message: &str) -> (r: Option<String>)
        ensures
            ov(r) == repeated_in(user_turns(self.turns_view()), message@, 5),
    {
        let ghost ts = tviews(self.turns@);
        let mut users: Vec<String> = Vec::new();
        let n = self.turns.len();
        let mut i: usize = 0;
        while i < n
            invariant
                n == self.turns@.len(),
                ts == tviews(self.turns@),
                i <= n,
                string_views(users@) == user_turns(ts.subrange(0, i as int)).map_values(
                    |t: TurnView| t.message,
                ),
            decreases n - i,
        {
            let ghost pre = ts.subrange(0, i as int);
            let ghost next = ts.subrange(0, i + 1);
            assert(next.drop_last() =~= pre);
            if self.turns[i].is_from_user {
                let ghost u0 = users@;
                users.push(self.turns[i].message.clone());
                assert(string_views(users@) =~= string_views(u0).push(ts[i as int].message));
            }
            i = i + 1;
        }
        assert(ts.subrange(0, n as int) =~= ts);
        let ghost us = user_turns(ts);
        assert(string_views(users@).len() == users@.len());
        let norm = to_lowercase(trimmed(message).as_str());
        let norm_len = byte_len(norm.as_str());
        let m = users.len();
        let mut j: usize = m;
        let mut checked: usize = 0;
        assert(us.subrange(0, m as int) =~= us);
        while j > 0 && checked < 5
            invariant
                ts == tviews(self.turns@),
                us == user_turns(ts),
                m == users@.len(),
                m == us.len(),
                string_views(users@) == us.map_values(|t: TurnView| t.message),
                j <= m,
                checked <= 5,
                checked == m - j,
                norm@ == normalized(message@),
                norm_len == utf8_len(norm@),
                repeated_in(us, message@, 5) == repeated_in(
                    us.subrange(0, j as int),
                    message@,
                    (5 - checked) as nat,
                ),
            decreases j,
        {
            let ghost pre = us.subrange(0, j as int);
            assert(pre.last() == us[j - 1]);
            assert(string_views(users@)[j - 1] == users@[j - 1]@);
            assert(us.map_values(|t: TurnView| t.message)[j - 1] == us[j - 1].message);
            assert(users@[j - 1]@ == us[j - 1].message);
            let prev = &users[j - 1];
            let prev_norm = to_lowercase(trimmed(prev.as_str()).as_str());
            let hit = str_eq(norm.as_str(), prev_norm.as_str()) || (norm_len > 8 && byte_len(
                prev_norm.as_str(),
            ) > 8 && (str_contains(norm.as_str(), prev_norm.as_str()) || str_contains(
                prev_norm.as_str(),
                norm.as_str(),
            )));
            if hit {
                assert(prev_norm@ == normalized(us[j - 1].message));
                assert(repeats(message@, us[j - 1].message));
                assert(repeated_in(pre, message@, (5 - checked) as nat) == Some(us[j - 1].message));
                let out = prev.clone();
                assert(out@ == us[j - 1].message);
                assert(repeated_in(us, message@, 5) == Some(out@));
                assert(ts == self.turns_view());
                return Some(out);
            }
            assert(pre.drop_last() =~= us.subrange(0, j - 1));
            j = j - 1;
            checked = checked + 1;
        }
        None
    }

    /// Is this the start of a new session: no user turn yet after some
    /// cycles, or more than an hour since the last user turn?
    pub fn has_session_gap(&self, cycle_count: u64, now_ms: i64) -> (b: bool)
        ensures
            b == (if user_turns(self.turns_view()).len() == 0 {
                cycle_count > 0
            } else {
                secs_of(now_ms) - secs_of(user_turns(self.turns_view()).last().timestamp) > 3600
            }),
    {
        let ghost ts = tviews(self.turns@);
        let n = self.turns.len();
        let mut last: Option<i64> = None;
        let mut i: usize = 0;
        while i < n
            invariant
                n == self.turns@.len(),
                ts == tviews(self.turns@),
                i <= n,
                match last {
                    Some(t) => user_turns(ts.subrange(0, i as int)).len() > 0 && t == user_turns(
                        ts.subrange(0, i as int),
                    ).last().timestamp,
                    None => user_turns(ts.subrange(0, i as int)).len() == 0,
                },
            decreases n - i,
        {
            let ghost pre = ts.subrange(0, i as int);
            let ghost next = ts.subrange(0, i + 1);
            assert(next.drop_last() =~= pre);
            if self.turns[i].is_from_user {
                last = Some(self.turns[i].timestamp);
            }
            i = i + 1;
        }
        assert(ts.subrange(0, n as int) =~= ts);
        match last {
            None => cycle_count > 0,
            Some(t) => {
                let elapsed: i128 = secs(now_ms) as i128 - secs(t) as i128;
                elapsed > 3600
            },
        }
    }

    /// The last six turns as the planner reads them.
    pub fn recent_text(&self) -> (s: String)
        ensures
            s@ == recent_text_spec(self.turns_view()),
    {
        let ghost ts = tviews(self.turns@);
        let n = self.turns.len();
        let start: usize = if n < 6 { 0 } else { n - 6 };
        let mut lines: Vec<String> = Vec::new();
        let mut i: usize = start;
        while i < n
            invariant
                n == self.turns@.len(),
                ts == tviews(self.turns@),
                start <= i <= n,
                start == (if n < 6 { 0 } else { n - 6 }),
                string_views(lines@) == ts.subrange(start as int, i as int).map_values(
                    |t: TurnView| turn_line(t),
                ),
            decreases n - i,
        {
            let t = &self.turns[i];
            let mut line = if t.is_from_user { String::from_str("User: ") } else { String::from_str("You: ") };
            line.append(t.message.as_str());
            let ghost l0 = lines@;
            lines.push(line);
            assert(ts.subrange(start as int, i + 1) =~= ts.subrange(start as int, i as int).push(ts[i as int]));
            assert(string_views(lines@) =~= string_views(l0).push(turn_line(ts[i as int])));
            i = i + 1;
        }
        join_strings(&lines, "\n")
    }

    /// Starts a cycle on a user message. The duplicate check (the same
    /// text among the last five user messages) and the session check (the
    /// user's first message in a new session) look at the earlier turns;
    /// then the message joins the window.
    pub fn begin_cycle(&mut self, observation: &str, now_ms: i64, cycle_count: u64) -> (r: (
        Option<String>,
        bool,
    ))
        requires
            old(self).turns_view().len() <= 10,
        ensures
            final(self).turns_view() == keep_last(
                old(self).turns_view().push(
                    TurnView { message: observation@, timestamp: now_ms, is_from_user: true },
                ),
                10,
            ),
            ov(r.0) == repeated_in(user_turns(old(self).turns_view()), observation@, 5),
            r.1 == (if user_turns(old(self).turns_view()).len() == 0 {
                cycle_count > 0
            } else {
                secs_of(now_ms) - secs_of(user_turns(old(self).turns_view()).last().timestamp)
                    > 3600
            }),
            final(self).turns_view().len() <= 10,
    {
        let dup = self.detect_duplicate(observation);
        let gap = self.has_session_gap(cycle_count, now_ms);
        self.push(ConversationTurn { message: owned(observation), timestamp: now_ms, is_from_user: true });
        (dup, gap)
    }

    /// Ends a cycle: the companion's message joins the window when the
    /// decision is to communicate.
    pub fn record_reply(&mut self, decision: &Decision, now_ms: i64)
        requires
            old(self).turns_view().len() <= 10,
        ensures
            match decision@ {
                DecisionView::Communicate { message, .. } => final(self).turns_view() == keep_last(
                    old(self).turns_view().push(
                        TurnView { message, timestamp: now_ms, is_from_user: false },
                    ),
                    10,
                ),
                _ => final(self).turns_view() == old(self).turns_view(),
            },
            final(self).turns_view().len() <= 10,
    {
        match decision {
            Decision::Communicate { message, .. } => {
                self.push(
                    ConversationTurn { message: message.clone(), timestamp: now_ms, is_from_user: false },
                );
            },
            _ => {},
        }
    }
}

/// A question from attention overrides the decision of the executor.
pub fn honor_ask_user(decision: Decision, outcome: &AttentionOutcome) -> (d: Decision)
    ensures
        match outcome@ {
            OutcomeView::AskUser { question } => d@ == (DecisionView::Communicate {
                recipient: "user"@,
                message: question,
                reason: "AI needs user input to proceed"@,
            }),
            _ => d@ == decision@,
        },
{
    match outcome {
        AttentionOutcome::AskUser { question } => communicate(
            "user",
            question.clone(),
            "AI needs user input to proceed",
        ),
        _ => decision,
    }
}

pub open spec fn is_work_type(t: Seq<char>) -> bool {
    t == "project"@ || t == "task"@
}

/// Names of the entities (`(entity_type, name)` pairs) whose type
/// satisfies `kind`, in order.
pub open spec fn names_where(es: Seq<(Seq<char>, Seq<char>)>, kind: spec_fn(Seq<char>) -> bool) -> Seq<
    Seq<char>,
>
    decreases es.len(),
{
    if es.len() == 0 {
        Seq::empty()
    } else if kind(es.last().0) {
        names_where(es.drop_last(), kind).push(es.last().1)
    } else {
        names_where(es.drop_last(), kind)
    }
}

/// "a", "a and b", "a, b and c".
pub open spec fn list_phrase(names: Seq<Seq<char>>) -> Seq<char> {
    if names.len() == 1 {
        names[0]
    } else {
        join_seq(names.drop_last(), ", "@) + " and "@ + names.last()
    }
}

pub open spec fn topics_spec(es: Seq<(Seq<char>, Seq<char>)>) -> Seq<Seq<char>> {
    let work = names_where(es, |t: Seq<char>| is_work_type(t));
    let skills = names_where(es, |t: Seq<char>| t == "skill"@);
    let plans = names_where(es, |t: Seq<char>| t == "plan"@);
    (if work.len() > 0 { seq!["your work on "@ + list_phrase(work)] } else { Seq::empty() }) + (if skills.len() > 0 {
        seq!["your interest in "@ + list_phrase(skills)]
    } else {
        Seq::empty()
    }) + (if plans.len() > 0 { seq!["a plan you're working on"@] } else { Seq::empty() })
}

/// The natural-language summary of the context entities: never their
/// types or counts, only what the user worked on, is interested in, or
/// plans.
pub open spec fn context_summary_spec(es: Seq<(Seq<char>, Seq<char>)>) -> Seq<char> {
    let topics = topics_spec(es);
    if es.len() == 0 || topics.len() == 0 {
        Seq::empty()
    } else {
        "I remember "@ + join_seq(topics, ", "@)
    }
}

pub open spec fn eviews(s: Seq<(String, String)>) -> Seq<(Seq<char>, Seq<char>)> {
    s.map_values(|p: (String, String)| (p.0@, p.1@))
}

fn collect_names(entities: &Vec<(String, String)>, kind: u8) -> (r: Vec<String>)
    requires
        kind < 3,
    ensures
        kind == 0 ==> string_views(r@) == names_where(
            eviews(entities@),
            |t: Seq<char>| is_work_type(t),
        ),
        kind == 1 ==> string_views(r@) == names_where(eviews(entities@), |t: Seq<char>| t == "skill"@),
        kind == 2 ==> string_views(r@) == names_where(eviews(entities@), |t: Seq<char>| t == "plan"@),
{
    let ghost es = eviews(entities@);
    let ghost f: spec_fn(Seq<char>) -> bool = if kind == 0 {
        |t: Seq<char>| is_work_type(t)
    } else if kind == 1 {
        |t: Seq<char>| t == "skill"@
    } else {
        |t: Seq<char>| t == "plan"@
    };
    let mut r: Vec<String> = Vec::new();
    let n = entities.len();
    let mut i: usize = 0;
    while i < n
        invariant
            n == entities@.len(),
            es == eviews(entities@),
            kind < 3,
            f == (if kind == 0 {
                |t: Seq<char>| is_work_type(t)
            } else if kind == 1 {
                |t: Seq<char>| t == "skill"@
            } else {
                |t: Seq<char>| t == "plan"@
            }),
            i <= n,
            string_views(r@) == names_where(es.subrange(0, i as int), f),
        decreases n - i,
    {
        let ghost pre = es.subrange(0, i as int);
        let ghost next = es.subrange(0, i + 1);
        assert(next.drop_last() =~= pre);
        assert(next.last() == (entities@[i as int].0@, entities@[i as int].1@));
        let t = entities[i].0.as_str();
        let hit = if kind == 0 {
            str_eq(t, "project") || str_eq(t, "task")
        } else if kind == 1 {
            str_eq(t, "skill")
        } else {
            str_eq(t, "plan")
        };
        if hit {
            let ghost r0 = r@;
            r.push(entities[i].1.clone());
            assert(string_views(r@) =~= string_views(r0).push(entities@[i as int].1@));
        }
        i = i + 1;
    }
    assert(es.subrange(0, n as int) =~= es);
    r
}

fn phrase(names: &Vec<String>) -> (s: String)
    requires
        names@.len() > 0,
    ensures
        s@ == list_phrase(string_views(names@)),
{
    let n = names.len();
    if n == 1 {
        return names[0].clone();
    }
    let mut head: Vec<String> = Vec::new();
    let mut i: usize = 0;
    while i < n - 1
        invariant
            n == names@.len(),
            n > 1,
            i <= n - 1,
            string_views(head@) == string_views(names@).subrange(0, i as int),
        decreases n - 1 - i,
    {
        let ghost h0 = head@;
        assert(string_views(names@)[i as int] == names@[i as int]@);
        head.push(names[i].clone());
        assert(string_views(head@) =~= string_views(h0).push(names@[i as int]@));
        assert(string_views(head@) =~= string_views(names@).subrange(0, i + 1));
        i = i + 1;
    }
    assert(string_views(head@) =~= string_views(names@).drop_last());
    let mut s = join_strings(&head, ", ");
    s.append(" and ");
    s.append(names[n - 1].as_str());
    s
}

/// The summary of context entities given as `(entity_type, name)` pairs.
pub fn format_context_summary(entities: &Vec<(String, String)>) -> (s: String)
    ensures
        s@ == context_summary_spec(eviews(entities@)),
{
    if entities.len() == 0 {
        return String::new();
    }
    let work = collect_names(entities, 0);
    let skills = collect_names(entities, 1);
    let plans = collect_names(entities, 2);
    let mut topics: Vec<String> = Vec::new();
    let ghost es = eviews(entities@);
    if work.len() > 0 {
        let mut t = String::from_str("your work on ");
        let p = phrase(&work);
        t.append(p.as_str());
        topics.push(t);
    }
    let ghost t1 = topics@;
    if skills.len() > 0 {
        let mut t = String::from_str("your interest in ");
        let p = phrase(&skills);
        t.append(p.as_str());
        topics.push(t);
    }
    let ghost t2 = topics@;
    if plans.len() > 0 {
        topics.push(owned("a plan you're working on"));
    }
    assert(string_views(topics@) =~= topics_spec(es));
    if topics.len() == 0 {
        return String::new();
    }
    let mut s = String::from_str("I remember ");
    let j = join_strings(&topics, ", ");
    s.append(j.as_str());
    s
}

/// The follow-up message about an entity that has not come up for a
/// while; the template is picked by the byte length of the name.
pub open spec fn stagnation_spec(entity_type: Seq<char>, name: Seq<char>) -> Seq<char> {
    let k = utf8_len(name);
    if is_work_type(entity_type) {
        let i = k % 4;
        (if i == 0 {
            "I noticed we haven't talked about "@ + name + " in a while"@
        } else if i == 1 {
            "Just thinking about "@ + name + " — how's it going?"@
        } else if i == 2 {
            "How is "@ + name + " coming along?"@
        } else {
            "I was wondering about the status of "@ + name
        }) + "?"@
    } else if entity_type == "person"@ || entity_type == "user"@ {
        let i = k % 3;
        (if i == 0 {
            "I haven't heard from "@ + name + " lately"@
        } else if i == 1 {
            "How are things going, "@ + name + "?"@
        } else {
            "I was thinking about "@ + name + " today"@
        }) + "?"@
    } else if entity_type == "skill"@ {
        let i = k % 3;
        (if i == 0 {
            "How is your progress on "@ + name + " going?"@
        } else if i == 1 {
            "Have you had a chance to work on "@ + name + " recently?"@
        } else {
            "I was thinking about "@ + name + " — making any progress?"@
        }) + "?"@
    } else {
        "I noticed "@ + name + " — anything new?"@
    }
}

fn concat(a: &str, b: &str) -> (s: String)
    ensures
        s@ == a@ + b@,
{
    let mut s = String::from_str(a);
    s.append(b);
    s
}

fn around(pre: &str, name: &str, post: &str) -> (s: String)
    ensures
        s@ == pre@ + name@ + post@,
{
    let mut s = String::from_str(pre);
    s.append(name);
    s.append(post);
    s
}

/// The follow-up message about a stagnant entity.
pub fn stagnation_message(entity_type: &str, name: &str) -> (s: String)
    ensures
        s@ == stagnation_spec(entity_type@, name@),
{
    let k = byte_len(name);
    if str_eq(entity_type, "project") || str_eq(entity_type, "task") {
        let i = k % 4;
        let mut s = if i == 0 {
            around("I noticed we haven't talked about ", name, " in a while")
        } else if i == 1 {
            around("Just thinking about ", name, " — how's it going?")
        } else if i == 2 {
            around("How is ", name, " coming along?")
        } else {
            concat("I was wondering about the status of ", name)
        };
        s.append("?");
        s
    } else if str_eq(entity_type, "person") || str_eq(entity_type, "user") {
        let i = k % 3;
        let mut s = if i == 0 {
            around("I haven't heard from ", name, " lately")
        } else if i == 1 {
            around("How are things going, ", name, "?")
        } else {
            around("I was thinking about ", name, " today")
        };
        s.append("?");
        s
    } else if str_eq(entity_type, "skill") {
        let i = k % 3;
        let mut s = if i == 0 {
            around("How is your progress on ", name, " going?")
        } else if i == 1 {
            around("Have you had a chance to work on ", name, " recently?")
        } else {
            around("I was thinking about ", name, " — making any progress?")
        };
        s.append("?");
        s
    } else {
        around("I noticed ", name, " — anything new?")
    }
}

/// The greeting for an hour of the day.
pub open spec fn greeting_spec(hour: u32) -> Seq<char> {
    if hour <= 4 {
        "Hey"@
    } else if hour <= 11 {
        "Good morning"@
    } else if hour <= 16 {
        "Good afternoon"@
    } else if hour <= 21 {
        "Good evening"@
    } else {
        "Hey"@
    }
}

/// The greeting for `hour`.
pub fn greeting_for_hour(hour: u32) -> (s: String)
    ensures
        s@ == greeting_spec(hour),
{
    if hour <= 4 {
        owned("Hey")
    } else if hour <= 11 {
        owned("Good morning")
    } else if hour <= 16 {
        owned("Good afternoon")
    } else if hour <= 21 {
        owned("Good evening")
    } else {
        owned("Hey")
    }
}

/// The hour of the day (UTC) of a time in seconds since the Unix epoch.
pub fn hour_of_day(secs: u64) -> (h: u32)
    ensures
        h == (secs / 3600) % 24,
        h < 24,
{
    ((secs / 3600) % 24) as u32
}

/// The reply made without a plan, from the first entity, observation,
/// relationship or state change that was understood.
pub open spec fn fallback_spec(
    first_entity: Option<(Seq<char>, Seq<char>)>,
    has_observations: bool,
    first_relationship: Option<(Seq<char>, Seq<char>, Seq<char>)>,
    first_state_change: Option<(Seq<char>, Seq<char>, Seq<char>)>,
    has_continuity: bool,
    summary: Seq<char>,
    greeting: Seq<char>,
) -> DecisionView {
    match first_entity {
        Some((etype, ename)) => {
            let is_person = etype == "person"@ || etype == "user"@;
            let name = if lowercase(ename) == "user"@ { Seq::<char>::empty() } else { ename };
            let message = if is_person {
                if has_continuity {
                    if summary.len() == 0 {
                        greeting + "! Good to see you again."@
                    } else {
                        greeting + "! Good to see you. "@ + summary
                    }
                } else {
                    greeting
                        + ". I don't know much about you yet, but I'm here to learn. What's on your mind?"@
                }
            } else {
                if has_continuity {
                    if summary.len() == 0 {
                        greeting + "! That's interesting — tell me more."@
                    } else {
                        greeting + "! "@ + summary + ". How is it going?"@
                    }
                } else {
                    greeting + "! I see you're working on something. What's the latest?"@
                }
            };
            DecisionView::Communicate {
                recipient: if name.len() == 0 { "user"@ } else { name },
                message,
                reason: "responded to: "@ + ename,
            }
        },
        None => if has_observations {
            DecisionView::Communicate {
                recipient: "user"@,
                message: "I'll keep that in mind."@,
                reason: "new observation"@,
            }
        } else {
            match first_relationship {
                Some((source, target, rtype)) => DecisionView::UpdateMemory {
                    entity_name: target,
                    entity_type: "entity"@,
                    properties: seq![("related"@, rtype)],
                    reason: "relation: "@ + source + " -> "@ + target,
                },
                None => match first_state_change {
                    Some((ename, attribute, value)) => DecisionView::UpdateMemory {
                        entity_name: ename,
                        entity_type: "state"@,
                        properties: seq![(attribute, value)],
                        reason: "state: "@ + ename + " = "@ + value,
                    },
                    None => DecisionView::Wait,
                },
            }
        },
    }
}

/// The template reply when planning fails. `first_entity` is
/// `(entity_type, name)`, `first_relationship` is
/// `(source, target, relationship_type)` and `first_state_change` is
/// `(entity_name, attribute, new_value)`.
pub fn fallback_decision(
    first_entity: Option<(&str, &str)>,
    has_observations: bool,
    first_relationship: Option<(&str, &str, &str)>,
    first_state_change: Option<(&str, &str, &str)>,
    has_continuity: bool,
    summary: &str,
    greeting: &str,
) -> (d: Decision)
    ensures
        d@ == fallback_spec(
            match first_entity {
                Some((t, n)) => Some((t@, n@)),
                None => None,
            },
            has_observations,
            match first_relationship {
                Some((s, t, r)) => Some((s@, t@, r@)),
                None => None,
            },
            match first_state_change {
                Some((e, a, v)) => Some((e@, a@, v@)),
                None => None,
            },
            has_continuity,
            summary@,
            greeting@,
        ),
{
    match first_entity {
        Some((etype, ename)) => {
            let is_person = str_eq(etype, "person") || str_eq(etype, "user");
            let low = to_lowercase(ename);
            let name = if str_eq(low.as_str(), "user") { String::new() } else { owned(ename) };
            let summary_empty = summary.unicode_len() == 0;
            let message = if is_person {
                if has_continuity {
                    if summary_empty {
                        concat(greeting, "! Good to see you again.")
                    } else {
                        around(greeting, "! Good to see you. ", summary)
                    }
                } else {
                    concat(greeting, ". I don't know much about you yet, but I'm here to learn. What's on your mind?")
                }
            } else {
                if has_continuity {
                    if summary_empty {
                        concat(greeting, "! That's interesting — tell me more.")
                    } else {
                        let mut m = around(greeting, "! ", summary);
                        m.append(". How is it going?");
                        m
                    }
                } else {
                    concat(greeting, "! I see you're working on something. What's the latest?")
                }
            };
            let recipient = if name.as_str().unicode_len() == 0 { owned("user") } else { name };
            let reason = concat("responded to: ", ename);
            Decision::Communicate { recipient, message, reason }
        },
        None => {
            if has_observations {
                communicate("user", owned("I'll keep that in mind."), "new observation")
            } else {
                match first_relationship {
                    Some((source, target, rtype)) => {
                        let mut reason = around("relation: ", source, " -> ");
                        reason.append(target);
                        let properties = vec![(owned("related"), owned(rtype))];
                        assert(pairs_view(properties@) =~= seq![("related"@, rtype@)]);
                        Decision::UpdateMemory {
                            entity_name: owned(target),
                            entity_type: owned("entity"),
                            properties,
                            reason,
                        }
                    },
                    None => match first_state_change {
                        Some((ename, attribute, value)) => {
                            let mut reason = around("state: ", ename, " = ");
                            reason.append(value);
                            let properties = vec![(owned(attribute), owned(value))];
                            assert(pairs_view(properties@) =~= seq![(attribute@, value@)]);
                            Decision::UpdateMemory {
                                entity_name: owned(ename),
                                entity_type: owned("state"),
                                properties,
                                reason,
                            }
                        },
                        None => Decision::Wait,
                    },
                }
            }
        },
    }
}

/// What a self-initiated reflection says when attention asks to reflect
/// now: nothing without context; nothing shortly after speaking; a
/// check-in on the most important entity when topics stagnate; a follow-up
/// after a long quiet period when something important is in context.
/// `top_entity` is the most important context entity, as
/// `(entity_type, name)`; `stagnating` and `important` say whether the
/// stagnation signal and the top importance passed their bars.
pub open spec fn context_decision_spec(
    top_entity: Option<(Seq<char>, Seq<char>)>,
    first_ever: bool,
    silent_ticks: u32,
    stagnating: bool,
    important: bool,
) -> DecisionView {
    match top_entity {
        None => DecisionView::Wait,
        Some((t, n)) => if !first_ever && silent_ticks < 2 {
            DecisionView::Wait
        } else if stagnating {
            DecisionView::Communicate {
                recipient: "user"@,
                message: stagnation_spec(t, n),
                reason: "checking in on prior conversation"@,
            }
        } else if important && silent_ticks >= 3 {
            DecisionView::Communicate {
                recipient: "user"@,
                message: stagnation_spec(t, n),
                reason: "follow-up after quiet period"@,
            }
        } else {
            DecisionView::Wait
        },
    }
}

/// Decides what a reflection on context says.
pub fn decide_on_context(
    top_entity: Option<(&str, &str)>,
    first_ever: bool,
    silent_ticks: u32,
    stagnating: bool,
    important: bool,
) -> (d: Decision)
    ensures
        d@ == context_decision_spec(
            match top_entity {
                Some((t, n)) => Some((t@, n@)),
                None => None,
            },
            first_ever,
            silent_ticks,
            stagnating,
            important,
        ),
{
    match top_entity {
        None => Decision::Wait,
        Some((t, n)) => {
            if !first_ever && silent_ticks < 2 {
                Decision::Wait
            } else if stagnating {
                communicate("user", stagnation_message(t, n), "checking in on prior conversation")
            } else if important && silent_ticks >= 3 {
                communicate("user", stagnation_message(t, n), "follow-up after quiet period")
            } else {
                Decision::Wait
            }
        },
    }
}

/// The decision of a self-initiated reflection: deferrals wait, a reflect
/// now uses `on_context`, and anything said by attention is passed to the
/// user as a companion reflection.
pub open spec fn tick_spec(outcome: OutcomeView, on_context: DecisionView) -> DecisionView {
    match outcome {
        OutcomeView::Ignore => DecisionView::Wait,
        OutcomeView::ObserveLater { .. } => DecisionView::Wait,
        OutcomeView::ReflectSoon { .. } => DecisionView::Wait,
        OutcomeView::ReflectNow => on_context,
        OutcomeView::AskUser { question } => DecisionView::Communicate {
            recipient: "user"@,
            message: question,
            reason: "companion reflection"@,
        },
        OutcomeView::Suggest { message } => DecisionView::Communicate {
            recipient: "user"@,
            message,
            reason: "companion reflection"@,
        },
        OutcomeView::Notify { message } => DecisionView::Communicate {
            recipient: "user"@,
            message,
            reason: "companion reflection"@,
        },
        OutcomeView::Escalate { reason } => DecisionView::Communicate {
            recipient: "user"@,
            message: reason,
            reason: "companion reflection"@,
        },
    }
}

/// The decision of a self-initiated reflection.
pub fn tick_decision(outcome: &AttentionOutcome, on_context: Decision) -> (d: Decision)
    ensures
        d@ == tick_spec(outcome@, on_context@),
{
    match outcome {
        AttentionOutcome::Ignore => Decision::Wait,
        AttentionOutcome::ObserveLater { .. } => Decision::Wait,
        AttentionOutcome::ReflectSoon { .. } => Decision::Wait,
        AttentionOutcome::ReflectNow => on_context,
        AttentionOutcome::AskUser { question } => communicate(
            "user",
            question.clone(),
            "companion reflection",
        ),
        AttentionOutcome::Suggest { message } => communicate(
            "user",
            message.clone(),
            "companion reflection",
        ),
        AttentionOutcome::Notify { message } => communicate(
            "user",
            message.clone(),
            "companion reflection",
        ),
        AttentionOutcome::Escalate { reason } => communicate(
            "user",
            reason.clone(),
            "companion reflection",
        ),
    }
}

/// The rhythm of self-initiated reflection: how many reflections in a row
/// stayed silent and when the companion last spoke.
#[derive(Debug, Clone, Copy)]
pub struct ReflectionRhythm {
    pub consecutive_silent_ticks: u32,
    pub last_communicated_at: Option<i64>,
}

impl ReflectionRhythm {
    /// Never spoken, no silent reflection yet.
    pub fn new() -> (r: Self)
        ensures
            r.consecutive_silent_ticks == 0,
            r.last_communicated_at is None,
    {
        ReflectionRhythm { consecutive_silent_ticks: 0, last_communicated_at: None }
    }

    /// Has the companion never spoken on its own yet?
    pub fn is_first_ever(&self) -> (b: bool)
        ensures
            b == self.last_communicated_at is None,
    {
        self.last_communicated_at.is_none()
    }

    /// After a reflection: a silent one extends the silent run; any other
    /// ends it and records the time.
    pub fn after_tick(&mut self, decision: &Decision, now_ms: i64)
        requires
            old(self).consecutive_silent_ticks < u32::MAX,
        ensures
            decision@ is Wait ==> final(self).consecutive_silent_ticks
                == old(self).consecutive_silent_ticks + 1 && final(self).last_communicated_at
                == old(self).last_communicated_at,
            !(decision@ is Wait) ==> final(self).consecutive_silent_ticks == 0
                && final(self).last_communicated_at == Some(now_ms),
    {
        match decision {
            Decision::Wait => {
                self.consecutive_silent_ticks = self.consecutive_silent_ticks + 1;
            },
            _ => {
                self.consecutive_silent_ticks = 0;
                self.last_communicated_at = Some(now_ms);
            },
        }
    }
}

/// A recorded reflection: the cycle it ran in, how it ended, the summary
/// of the context it saw, and when.
#[derive(Debug)]
pub struct ReflectionLogEntry {
    pub cycle: u64,
    pub outcome: String,
    pub summary: String,
    pub timestamp: i64,
}

pub struct ReflectionEntryView {
    pub cycle: u64,
    pub outcome: Seq<char>,
    pub summary: Seq<char>,
    pub timestamp: i64,
}

impl View for ReflectionLogEntry {
    type V = ReflectionEntryView;

    open spec fn view(&self) -> ReflectionEntryView {
        ReflectionEntryView {
            cycle: self.cycle,
            outcome: self.outcome@,
            summary: self.summary@,
            timestamp: self.timestamp,
        }
    }
}

pub open spec fn reflection_views(s: Seq<ReflectionLogEntry>) -> Seq<ReflectionEntryView> {
    s.map_values(|e: ReflectionLogEntry| e@)
}

/// The reflections recorded outside the world model, oldest first; none
/// is ever dropped.
#[derive(Debug)]
pub struct ReflectionLog {
    entries: Vec<ReflectionLogEntry>,
}

impl ReflectionLog {
    pub closed spec fn entries(self) -> Seq<ReflectionEntryView> {
        reflection_views(self.entries@)
    }

    /// No reflection recorded.
    pub fn new() -> (l: Self)
        ensures
            l.entries().len() == 0,
    {
        let l = ReflectionLog { entries: Vec::new() };
        assert(l.entries() =~= Seq::<ReflectionEntryView>::empty());
        l
    }

    /// Records a reflection of cycle `cycle` that ended in `decision`,
    /// with the context summary it saw, at `now_ms`.
    pub fn record(&mut self, cycle: u64, decision: &Decision, summary: &str, now_ms: i64)
        ensures
            final(self).entries() == old(self).entries().push(
                ReflectionEntryView {
                    cycle,
                    outcome: reflection_label(decision@),
                    summary: summary@,
                    timestamp: now_ms,
                },
            ),
    {
        let ghost before = self.entries@;
        let e = ReflectionLogEntry {
            cycle,
            outcome: reflection_outcome(decision),
            summary: owned(summary),
            timestamp: now_ms,
        };
        self.entries.push(e);
        assert(self.entries() =~= reflection_views(before).push(self.entries@.last()@));
    }

    /// The recorded reflections, oldest first.
    pub fn all(&self) -> (r: &Vec<ReflectionLogEntry>)
        ensures
            reflection_views(r@) == self.entries(),
    {
        &self.entries
    }

    /// The last `max` reflections recorded (all of them when there are
    /// fewer), oldest first.
    pub fn recent(&self, max: usize) -> (r: Vec<ReflectionLogEntry>)
        ensures
            reflection_views(r@) == keep_last(self.entries(), max as nat),
    {
        let n = self.entries.len();
        let start: usize = if n > max { n - max } else { 0 };
        let mut r: Vec<ReflectionLogEntry> = Vec::new();
        let mut i: usize = start;
        while i < n
            invariant
                n == self.entries@.len(),
                start <= i <= n,
                reflection_views(r@) == self.entries().subrange(start as int, i as int),
            decreases n - i,
        {
            let e = &self.entries[i];
            let c = ReflectionLogEntry {
                cycle: e.cycle,
                outcome: e.outcome.clone(),
                summary: e.summary.clone(),
                timestamp: e.timestamp,
            };
            let ghost r0 = r@;
            r.push(c);
            assert(reflection_views(r@) =~= reflection_views(r0).push(self.entries()[i as int]));
            assert(self.entries().subrange(start as int, i + 1) =~= self.entries().subrange(
                start as int,
                i as int,
            ).push(self.entries()[i as int]));
            i = i + 1;
        }
        assert(self.entries().subrange(start as int, n as int) =~= keep_last(
            self.entries(),
            max as nat,
        ));
        r
    }

    /// How many reflections were recorded.
    pub fn len(&self) -> (n: usize)
        ensures
            n == self.entries().len(),
    {
        self.entries.len()
    }
}

} // verus!
