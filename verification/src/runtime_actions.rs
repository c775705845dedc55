//! Plan actions that go to a runtime capability: which actions stay in
//! memory, the input each runtime capability receives, and how dispatch
//! results ground the reply. Dispatching happens outside.

use vstd::prelude::*;

use crate::planner::{aviews, Plan, PlannedAction, PlannedActionView};
use crate::text::{join_seq, join_strings, owned, str_eq, string_views};

verus! {

/// Planner action types handled in memory by the cognitive loop itself.
pub const IN_MEMORY_ACTIONS: [&'static str; 7] = [
    "respond",
    "search_memory",
    "search_recent_conversation",
    "ask_clarification",
    "ignore",
    "observe",
    "schedule",
];

/// The action types handled in memory.
pub open spec fn in_memory_spec(t: Seq<char>) -> bool {
    t == "respond"@ || t == "search_memory"@ || t == "search_recent_conversation"@ || t
        == "ask_clarification"@ || t == "ignore"@ || t == "observe"@ || t == "schedule"@
}

/// Whether a planner action type is handled in memory.
pub fn is_in_memory_action(action_type: &str) -> (b: bool)
    ensures
        b == in_memory_spec(action_type@),
{
    str_eq(action_type, "respond") || str_eq(action_type, "search_memory") || str_eq(
        action_type,
        "search_recent_conversation",
    ) || str_eq(action_type, "ask_clarification") || str_eq(action_type, "ignore") || str_eq(
        action_type,
        "observe",
    ) || str_eq(action_type, "schedule")
}

/// The input of a runtime action.
#[derive(Debug)]
pub enum RuntimeInput {
    /// An object of named string fields, in order (no field: `{}`).
    Fields(Vec<(String, String)>),
    /// The generic envelope: the topics and the reason.
    Topics { topics: Vec<String>, reason: String },
}

pub enum RuntimeInputView {
    Fields(Seq<(Seq<char>, Seq<char>)>),
    Topics { topics: Seq<Seq<char>>, reason: Seq<char> },
}

pub open spec fn fviews(s: Seq<(String, String)>) -> Seq<(Seq<char>, Seq<char>)> {
    s.map_values(|p: (String, String)| (p.0@, p.1@))
}

impl View for RuntimeInput {
    type V = RuntimeInputView;

    open spec fn view(&self) -> RuntimeInputView {
        match self {
            RuntimeInput::Fields(f) => RuntimeInputView::Fields(fviews(f@)),
            RuntimeInput::Topics { topics, reason } => RuntimeInputView::Topics {
                topics: string_views(topics@),
                reason: reason@,
            },
        }
    }
}

/// Topic `i`, or the empty string.
pub open spec fn topic(ts: Seq<Seq<char>>, i: int) -> Seq<char> {
    if 0 <= i < ts.len() { ts[i] } else { Seq::empty() }
}

/// Field names for the positional topics of each known runtime
/// capability; `None` for capabilities without a schema here.
pub open spec fn schema(t: Seq<char>) -> Option<Seq<Seq<char>>> {
    if t == "email.send"@ {
        Some(seq!["to"@, "subject"@, "body"@])
    } else if t == "telegram.send"@ {
        Some(seq!["chat_id"@, "text"@])
    } else if t == "telegram.inject_inbound"@ {
        Some(seq!["chat_id"@, "sender"@, "text"@])
    } else if t == "whatsapp.send"@ {
        Some(seq!["to"@, "text"@])
    } else if t == "whatsapp.receive"@ {
        Some(Seq::empty())
    } else if t == "filesystem.write"@ {
        Some(seq!["path"@, "content"@])
    } else if t == "filesystem.read"@ || t == "filesystem.search"@ {
        Some(seq!["path"@])
    } else if t == "calendar.create_event"@ {
        Some(seq!["date"@, "title"@, "description"@])
    } else if t == "calendar.read"@ {
        Some(seq!["date"@])
    } else if t == "github.create_issue"@ {
        Some(seq!["title"@, "body"@])
    } else if t == "github.read_repository"@ {
        Some(seq!["owner"@, "repo"@])
    } else {
        None
    }
}

/// The input a runtime capability receives for a planned action: the
/// schema's fields filled from the topics in order (missing topics give
/// empty strings); for other capabilities the topics and the reason, or
/// nothing when there are no topics. In-memory actions get none.
pub open spec fn runtime_input_spec(a: PlannedActionView) -> Option<RuntimeInputView> {
    if in_memory_spec(a.action_type) {
        None
    } else {
        match schema(a.action_type) {
            Some(names) => Some(
                RuntimeInputView::Fields(
                    Seq::new(names.len(), |i: int| (names[i], topic(a.topics, i))),
                ),
            ),
            None => if a.topics.len() == 0 {
                Some(RuntimeInputView::Fields(Seq::empty()))
            } else {
                Some(RuntimeInputView::Topics { topics: a.topics, reason: a.reason })
            },
        }
    }
}

fn field_names(t: &str) -> (r: Option<Vec<String>>)
    ensures
        match r {
            Some(v) => schema(t@) == Some(string_views(v@)),
            None => schema(t@) is None,
        },
{
    let names: Vec<&str> = if str_eq(t, "email.send") {
        vec!["to", "subject", "body"]
    } else if str_eq(t, "telegram.send") {
        vec!["chat_id", "text"]
    } else if str_eq(t, "telegram.inject_inbound") {
        vec!["chat_id", "sender", "text"]
    } else if str_eq(t, "whatsapp.send") {
        vec!["to", "text"]
    } else if str_eq(t, "whatsapp.receive") {
        vec![]
    } else if str_eq(t, "filesystem.write") {
        vec!["path", "content"]
    } else if str_eq(t, "filesystem.read") || str_eq(t, "filesystem.search") {
        vec!["path"]
    } else if str_eq(t, "calendar.create_event") {
        vec!["date", "title", "description"]
    } else if str_eq(t, "calendar.read") {
        vec!["date"]
    } else if str_eq(t, "github.create_issue") {
        vec!["title", "body"]
    } else if str_eq(t, "github.read_repository") {
        vec!["owner", "repo"]
    } else {
        return None;
    };
    let ghost want = schema(t@)->0;
    assert(names@.map_values(|s: &str| s@) =~= want);
    let mut r: Vec<String> = Vec::new();
    let mut i: usize = 0;
    while i < names.len()
        invariant
            i <= names@.len(),
            want == names@.map_values(|s: &str| s@),
            string_views(r@) == want.subrange(0, i as int),
        decreases names@.len() - i,
    {
        let ghost r0 = r@;
        r.push(owned(names[i]));
        assert(string_views(r@) =~= string_views(r0).push(names@[i as int]@));
        assert(string_views(r@) =~= want.subrange(0, i + 1));
        i = i + 1;
    }
    assert(want.subrange(0, names@.len() as int) =~= want);
    Some(r)
}

/// The runtime input for a planned action (`None` for in-memory actions).
pub fn runtime_input_for(action: &PlannedAction) -> (r: Option<RuntimeInput>)
    ensures
        match r {
            Some(i) => runtime_input_spec(action@) == Some(i@),
            None => runtime_input_spec(action@) is None,
        },
{
    if is_in_memory_action(action.action_type.as_str()) {
        return None;
    }
    match field_names(action.action_type.as_str()) {
        Some(names) => {
            let ghost ns = string_views(names@);
            let ghost ts = string_views(action.topics@);
            let mut fields: Vec<(String, String)> = Vec::new();
            let mut i: usize = 0;
            while i < names.len()
                invariant
                    i <= names@.len(),
                    ns == string_views(names@),
                    ts == string_views(action.topics@),
                    fviews(fields@) == Seq::new(i as nat, |k: int| (ns[k], topic(ts, k))),
                decreases names@.len() - i,
            {
                let v = if i < action.topics.len() {
                    action.topics[i].clone()
                } else {
                    String::new()
                };
                let ghost f0 = fields@;
                assert(ns[i as int] == names@[i as int]@);
                assert(v@ == topic(ts, i as int));
                let ghost pv = (names@[i as int]@, v@);
                fields.push((names[i].clone(), v));
                assert(fviews(fields@) =~= fviews(f0).push(pv));
                assert(fviews(fields@) =~= Seq::new((i + 1) as nat, |k: int| (ns[k], topic(ts, k))));
                i = i + 1;
            }
            Some(RuntimeInput::Fields(fields))
        },
        None => {
            if action.topics.len() == 0 {
                let f: Vec<(String, String)> = Vec::new();
                assert(fviews(f@) =~= Seq::<(Seq<char>, Seq<char>)>::empty());
                Some(RuntimeInput::Fields(f))
            } else {
                let mut topics: Vec<String> = Vec::new();
                let mut i: usize = 0;
                while i < action.topics.len()
                    invariant
                        i <= action.topics@.len(),
                        string_views(topics@) == string_views(action.topics@).subrange(0, i as int),
                    decreases action.topics@.len() - i,
                {
                    let ghost t0 = topics@;
                    topics.push(action.topics[i].clone());
                    assert(string_views(topics@) =~= string_views(t0).push(action.topics@[i as int]@));
                    assert(string_views(topics@) =~= string_views(action.topics@).subrange(0, i + 1));
                    i = i + 1;
                }
                assert(string_views(action.topics@).subrange(0, action.topics@.len() as int)
                    =~= string_views(action.topics@));
                Some(RuntimeInput::Topics { topics, reason: action.reason.clone() })
            }
        },
    }
}

/// The actions of a plan that go to a runtime, with their inputs, in
/// plan order.
pub open spec fn runtime_steps_spec(actions: Seq<PlannedActionView>) -> Seq<(Seq<char>, RuntimeInputView)>
    decreases actions.len(),
{
    if actions.len() == 0 {
        Seq::empty()
    } else {
        let rest = runtime_steps_spec(actions.drop_last());
        match runtime_input_spec(actions.last()) {
            Some(i) => rest.push((actions.last().action_type, i)),
            None => rest,
        }
    }
}

pub open spec fn step_views(s: Seq<(String, RuntimeInput)>) -> Seq<(Seq<char>, RuntimeInputView)> {
    s.map_values(|p: (String, RuntimeInput)| (p.0@, p.1@))
}

/// The runtime dispatches a plan calls for.
pub fn runtime_steps(plan: &Plan) -> (r: Vec<(String, RuntimeInput)>)
    ensures
        step_views(r@) == runtime_steps_spec(aviews(plan.actions@)),
{
    let ghost acts = aviews(plan.actions@);
    let mut r: Vec<(String, RuntimeInput)> = Vec::new();
    let n = plan.actions.len();
    let mut i: usize = 0;
    while i < n
        invariant
            n == plan.actions@.len(),
            acts == aviews(plan.actions@),
            i <= n,
            step_views(r@) == runtime_steps_spec(acts.subrange(0, i as int)),
        decreases n - i,
    {
        let ghost pre = acts.subrange(0, i as int);
        let ghost next = acts.subrange(0, i + 1);
        assert(next.drop_last() =~= pre);
        assert(next.last() == plan.actions@[i as int]@);
        let a = &plan.actions[i];
        match runtime_input_for(a) {
            Some(input) => {
                let ghost r0 = r@;
                r.push((a.action_type.clone(), input));
                assert(step_views(r@) =~= step_views(r0).push((a@.action_type, input@)));
            },
            None => {},
        }
        i = i + 1;
    }
    assert(acts.subrange(0, n as int) =~= acts);
    r
}

/// The result of one runtime dispatch.
#[derive(Debug)]
pub struct RuntimeOutcome {
    pub succeeded: bool,
    /// The failure's code and message, if it reported one.
    pub error: Option<(String, String)>,
}

pub struct OutcomeFacts {
    pub succeeded: bool,
    pub error: Option<(Seq<char>, Seq<char>)>,
}

impl View for RuntimeOutcome {
    type V = OutcomeFacts;

    open spec fn view(&self) -> OutcomeFacts {
        OutcomeFacts {
            succeeded: self.succeeded,
            error: match self.error {
                Some((c, m)) => Some((c@, m@)),
                None => None,
            },
        }
    }
}

/// The outcome recorded when no runtime offers the capability.
pub fn capability_missing(action_type: &str) -> (o: RuntimeOutcome)
    ensures
        !o@.succeeded,
        o@.error == Some(("capability_not_found"@, "capability '"@ + action_type@ + "' not registered"@)),
{
    let mut m = String::from_str("capability '");
    m.append(action_type);
    m.append("' not registered");
    RuntimeOutcome { succeeded: false, error: Some((owned("capability_not_found"), m)) }
}

/// The outcome recorded when dispatching failed with `message`.
pub fn dispatch_failed(message: String) -> (o: RuntimeOutcome)
    ensures
        !o@.succeeded,
        o@.error == Some(("dispatch_error"@, message@)),
{
    RuntimeOutcome { succeeded: false, error: Some((owned("dispatch_error"), message)) }
}

pub open spec fn result_line(action_type: Seq<char>, o: OutcomeFacts) -> Seq<char> {
    "- "@ + action_type + ": "@ + (if o.succeeded { "SUCCEEDED"@ } else { "FAILED"@ }) + match o.error {
        Some((c, m)) => " (code: "@ + c + ", "@ + m + ")"@,
        None => Seq::empty(),
    }
}

pub open spec fn rviews(s: Seq<(String, RuntimeOutcome)>) -> Seq<(Seq<char>, OutcomeFacts)> {
    s.map_values(|p: (String, RuntimeOutcome)| (p.0@, p.1@))
}

/// The grounding block for the reply: one line per dispatch,
/// "- type: SUCCEEDED" or "- type: FAILED", with the error's code and
/// message when there is one; empty when nothing was dispatched.
pub open spec fn runtime_results_spec(rs: Seq<(Seq<char>, OutcomeFacts)>) -> Seq<char> {
    join_seq(rs.map_values(|p: (Seq<char>, OutcomeFacts)| result_line(p.0, p.1)), "\n"@)
}

/// Formats dispatch results for the reply prompt.
pub fn format_runtime_results(results: &Vec<(String, RuntimeOutcome)>) -> (s: String)
    ensures
        s@ == runtime_results_spec(rviews(results@)),
{
    let ghost rs = rviews(results@);
    let mut lines: Vec<String> = Vec::new();
    let mut i: usize = 0;
    while i < results.len()
        invariant
            i <= results@.len(),
            rs == rviews(results@),
            string_views(lines@) == rs.subrange(0, i as int).map_values(
                |p: (Seq<char>, OutcomeFacts)| result_line(p.0, p.1),
            ),
        decreases results@.len() - i,
    {
        let (t, o) = (&results[i].0, &results[i].1);
        assert(rs[i as int] == (t@, o@));
        let mut line = String::from_str("- ");
        line.append(t.as_str());
        line.append(": ");
        if o.succeeded {
            line.append("SUCCEEDED");
        } else {
            line.append("FAILED");
        }
        match &o.error {
            Some((c, m)) => {
                line.append(" (code: ");
                line.append(c.as_str());
                line.append(", ");
                line.append(m.as_str());
                line.append(")");
            },
            None => {},
        }
        assert(line@ =~= result_line(t@, o@));
        let ghost l0 = lines@;
        lines.push(line);
        assert(rs.subrange(0, i + 1) =~= rs.subrange(0, i as int).push(rs[i as int]));
        assert(string_views(lines@) =~= string_views(l0).push(result_line(rs[i as int].0, rs[i as int].1)));
        i = i + 1;
    }
    assert(rs.subrange(0, results@.len() as int) =~= rs);
    join_strings(&lines, "\n")
}

/// The observation reporting one dispatch back to the cognitive loop.
pub open spec fn completion_spec(action_type: Seq<char>, o: OutcomeFacts) -> Seq<char> {
    "runtime '"@ + action_type + "' "@ + (if o.succeeded { "succeeded"@ } else { "failed"@ })
        + match o.error {
        Some((_c, m)) => " ("@ + m + ")"@,
        None => Seq::empty(),
    }
}

/// Formats one dispatch as an observation.
pub fn format_runtime_completion(action_type: &str, o: &RuntimeOutcome) -> (s: String)
    ensures
        s@ == completion_spec(action_type@, o@),
{
    let mut s = String::from_str("runtime '");
    s.append(action_type);
    s.append("' ");
    if o.succeeded {
        s.append("succeeded");
    } else {
        s.append("failed");
    }
    match &o.error {
        Some((_c, m)) => {
            s.append(" (");
            s.append(m.as_str());
            s.append(")");
        },
        None => {},
    }
    s
}

} // verus!
