//! Plans: the actions the planner proposes, the prompt that asks for them,
//! how the model's reply becomes a plan, and which step each action is.
//! The model is asked and its JSON parsed outside.

use vstd::prelude::*;

use crate::capabilities::{cviews, sorted_by_name, standard_description, Capability, CapabilityRegistry};
use crate::conversation::{Decision, DecisionView};
use crate::text::{
    chars_of, is_prefix, join_seq, join_strings, owned, str_eq, str_starts_with, string_of,
    string_views, trim, trim_chars, trimmed,
};

verus! {

/// An action the planner decided on.
#[derive(Debug)]
pub struct PlannedAction {
    pub action_type: String,
    pub topics: Vec<String>,
    pub reason: String,
}

pub struct PlannedActionView {
    pub action_type: Seq<char>,
    pub topics: Seq<Seq<char>>,
    pub reason: Seq<char>,
}

impl View for PlannedAction {
    type V = PlannedActionView;

    open spec fn view(&self) -> PlannedActionView {
        PlannedActionView {
            action_type: self.action_type@,
            topics: string_views(self.topics@),
            reason: self.reason@,
        }
    }
}

fn clone_strings(v: &Vec<String>) -> (r: Vec<String>)
    ensures
        string_views(r@) == string_views(v@),
{
    let mut r: Vec<String> = Vec::new();
    let mut i: usize = 0;
    while i < v.len()
        invariant
            i <= v@.len(),
            string_views(r@) == string_views(v@).subrange(0, i as int),
        decreases v@.len() - i,
    {
        let ghost r0 = r@;
        r.push(v[i].clone());
        assert(string_views(r@) =~= string_views(r0).push(v@[i as int]@));
        assert(string_views(r@) =~= string_views(v@).subrange(0, i + 1));
        i = i + 1;
    }
    assert(string_views(v@).subrange(0, v@.len() as int) =~= string_views(v@));
    r
}

impl Clone for PlannedAction {
    fn clone(&self) -> (r: Self)
        ensures
            r@ == self@,
    {
        PlannedAction {
            action_type: self.action_type.clone(),
            topics: clone_strings(&self.topics),
            reason: self.reason.clone(),
        }
    }
}

/// The full plan.
#[derive(Debug)]
pub struct Plan {
    pub actions: Vec<PlannedAction>,
}

pub open spec fn aviews(s: Seq<PlannedAction>) -> Seq<PlannedActionView> {
    s.map_values(|a: PlannedAction| a@)
}

impl Plan {
    /// A plan with no action.
    pub fn is_empty(&self) -> (b: bool)
        ensures
            b == (self.actions@.len() == 0),
    {
        self.actions.len() == 0
    }
}

/// The single-action plan that answers when planning gave nothing usable.
pub fn respond_plan(reason: String) -> (p: Plan)
    ensures
        aviews(p.actions@) == seq![
            PlannedActionView {
                action_type: "respond"@,
                topics: Seq::empty(),
                reason: reason@,
            },
        ],
{
    let a = PlannedAction { action_type: owned("respond"), topics: Vec::new(), reason };
    assert(string_views(a.topics@) =~= Seq::<Seq<char>>::empty());
    let p = Plan { actions: vec![a] };
    assert(aviews(p.actions@) =~= seq![a@]);
    p
}

/// What came back from asking the model for a plan.
pub enum PlannerReply {
    /// The reply parsed as a plan.
    Parsed(Plan),
    /// The reply did not parse; the parser's message.
    Unparsable(String),
    /// The request failed; the error's message.
    Failed(String),
}

/// The plan made of a reply: a parsed non-empty plan as it is; otherwise a
/// single `respond` action whose reason says what went wrong.
pub fn plan_from_reply(reply: PlannerReply) -> (p: Plan)
    ensures
        match reply {
            PlannerReply::Parsed(q) => if q.actions@.len() > 0 {
                aviews(p.actions@) == aviews(q.actions@)
            } else {
                aviews(p.actions@) == seq![
                    PlannedActionView {
                        action_type: "respond"@,
                        topics: Seq::empty(),
                        reason: "empty plan fallback"@,
                    },
                ]
            },
            PlannerReply::Unparsable(e) => aviews(p.actions@) == seq![
                PlannedActionView {
                    action_type: "respond"@,
                    topics: Seq::empty(),
                    reason: "parse error: "@ + e@,
                },
            ],
            PlannerReply::Failed(e) => aviews(p.actions@) == seq![
                PlannedActionView {
                    action_type: "respond"@,
                    topics: Seq::empty(),
                    reason: "LLM error: "@ + e@,
                },
            ],
        },
{
    match reply {
        PlannerReply::Parsed(q) => {
            if q.is_empty() {
                respond_plan(owned("empty plan fallback"))
            } else {
                q
            }
        },
        PlannerReply::Unparsable(e) => {
            let mut r = String::from_str("parse error: ");
            r.append(e.as_str());
            respond_plan(r)
        },
        PlannerReply::Failed(e) => {
            let mut r = String::from_str("LLM error: ");
            r.append(e.as_str());
            respond_plan(r)
        },
    }
}

/// `p` ends `s`.
pub open spec fn is_suffix(p: Seq<char>, s: Seq<char>) -> bool {
    p.len() <= s.len() && s.subrange(s.len() - p.len(), s.len() as int) == p
}

/// A model reply without surrounding whitespace and Markdown code fences:
/// trimmed, a leading "```json" (else "```") removed, a trailing "```"
/// removed, trimmed again.
pub open spec fn unfenced(s: Seq<char>) -> Seq<char> {
    let t = trim(s);
    let a = if is_prefix("```json"@, t) {
        t.subrange("```json"@.len() as int, t.len() as int)
    } else if is_prefix("```"@, t) {
        t.subrange("```"@.len() as int, t.len() as int)
    } else {
        t
    };
    let b = if is_suffix("```"@, a) {
        a.subrange(0, a.len() - "```"@.len())
    } else {
        a
    };
    trim(b)
}

fn ends_with(v: &Vec<char>, p: &str) -> (r: bool)
    ensures
        r == is_suffix(p@, v@),
{
    let q = chars_of(p);
    let n = v.len();
    let m = q.len();
    if m > n {
        return false;
    }
    let mut i: usize = 0;
    while i < m
        invariant
            n == v@.len(),
            m == q@.len(),
            m <= n,
            q@ == p@,
            i <= m,
            forall|k: int| 0 <= k < i ==> v@[n - m + k] == q@[k],
        decreases m - i,
    {
        if v[n - m + i] != q[i] {
            assert(v@.subrange(n - m, n as int)[i as int] != p@[i as int]);
            return false;
        }
        i = i + 1;
    }
    assert(v@.subrange(n - m, n as int) =~= p@);
    true
}

pub(crate) fn sub_chars(v: &Vec<char>, from: usize, to: usize) -> (r: Vec<char>)
    requires
        from <= to <= v@.len(),
    ensures
        r@ == v@.subrange(from as int, to as int),
{
    let mut r: Vec<char> = Vec::new();
    let mut i: usize = from;
    while i < to
        invariant
            from <= i <= to,
            to <= v@.len(),
            r@ == v@.subrange(from as int, i as int),
        decreases to - i,
    {
        r.push(v[i]);
        i = i + 1;
        assert(r@ =~= v@.subrange(from as int, i as int));
    }
    r
}

/// Strips whitespace and code fences from a model reply.
pub fn clean_model_json(content: &str) -> (r: String)
    ensures
        r@ == unfenced(content@),
{
    let t = trimmed(content);
    let tv = chars_of(t.as_str());
    let a = if str_starts_with(t.as_str(), "```json") {
        let k = "```json".unicode_len();
        sub_chars(&tv, k, tv.len())
    } else if str_starts_with(t.as_str(), "```") {
        let k = "```".unicode_len();
        sub_chars(&tv, k, tv.len())
    } else {
        tv
    };
    let b = if ends_with(&a, "```") {
        let k = "```".unicode_len();
        sub_chars(&a, 0, a.len() - k)
    } else {
        a
    };
    let c = trim_chars(&b);
    string_of(&c)
}

/// The capability lines of the planner prompt: "- name: description".
pub open spec fn capability_line(c: (Seq<char>, Seq<char>)) -> Seq<char> {
    "- "@ + c.0 + ": "@ + c.1
}

pub open spec fn bool_text(b: bool) -> Seq<char> {
    if b { "true"@ } else { "false"@ }
}

pub open spec fn or_placeholder(s: Seq<char>, placeholder: Seq<char>) -> Seq<char> {
    if s.len() == 0 { placeholder } else { s }
}

/// The prompt that asks the model for a plan.
pub open spec fn planner_prompt_spec(
    caps: Seq<(Seq<char>, Seq<char>)>,
    message: Seq<char>,
    recent: Seq<char>,
    memory: Seq<char>,
    has_prior: bool,
) -> Seq<char> {
    "You are a planning engine. Your job is to decide what actions the system should take.\n\nGiven the user's message and available context, create a plan using only the capabilities listed below.\n\nRules:\n- Return ONLY valid JSON matching the schema: { \"actions\": [{ \"type\": \"...\", \"topics\": [...], \"reason\": \"...\" }] }\n- Never generate the final response text. Only plan actions.\n- Use \"respond\" for the final action when a response is needed.\n- Use \"search_memory\" when the user asks about what you know, remember, or should know.\n- Use \"search_recent_conversation\" when the user refers to something just discussed.\n- Use \"ask_clarification\" when the user's intent is genuinely ambiguous.\n- Use \"ignore\" when the message is empty or trivial.\n- Use \"observe\" when the user provides factual information without expecting a response.\n- Topics should be specific search terms or subjects.\n- The \"respond\" action is always the last action in the plan.\n\nAvailable capabilities:\n"@
        + join_seq(caps.map_values(|c: (Seq<char>, Seq<char>)| capability_line(c)), "\n"@)
        + "\n\nRecent conversation:\n"@ + or_placeholder(recent, "(no recent conversation)"@)
        + "\n\nMemory context:\n"@ + or_placeholder(memory, "(no stored knowledge)"@)
        + "\n\nHas prior knowledge: "@ + bool_text(has_prior) + "\n\nUser message: "@ + message
}

/// Builds the planner prompt from the capabilities, in the order given.
pub fn planner_prompt(
    capabilities: &Vec<Capability>,
    user_message: &str,
    recent_conversation: &str,
    memory_context: &str,
    has_prior_knowledge: bool,
) -> (p: String)
    ensures
        p@ == planner_prompt_spec(
            cviews(capabilities@),
            user_message@,
            recent_conversation@,
            memory_context@,
            has_prior_knowledge,
        ),
{
    let ghost cs = cviews(capabilities@);
    let mut lines: Vec<String> = Vec::new();
    let mut i: usize = 0;
    while i < capabilities.len()
        invariant
            i <= capabilities@.len(),
            cs == cviews(capabilities@),
            string_views(lines@) == cs.subrange(0, i as int).map_values(
                |c: (Seq<char>, Seq<char>)| capability_line(c),
            ),
        decreases capabilities@.len() - i,
    {
        let mut line = String::from_str("- ");
        line.append(capabilities[i].name.as_str());
        line.append(": ");
        line.append(capabilities[i].description.as_str());
        let ghost l0 = lines@;
        lines.push(line);
        assert(cs.subrange(0, i + 1) =~= cs.subrange(0, i as int).push(cs[i as int]));
        assert(string_views(lines@) =~= string_views(l0).push(capability_line(cs[i as int])));
        i = i + 1;
    }
    assert(cs.subrange(0, capabilities@.len() as int) =~= cs);
    let mut p = String::from_str(
        "You are a planning engine. Your job is to decide what actions the system should take.\n\nGiven the user's message and available context, create a plan using only the capabilities listed below.\n\nRules:\n- Return ONLY valid JSON matching the schema: { \"actions\": [{ \"type\": \"...\", \"topics\": [...], \"reason\": \"...\" }] }\n- Never generate the final response text. Only plan actions.\n- Use \"respond\" for the final action when a response is needed.\n- Use \"search_memory\" when the user asks about what you know, remember, or should know.\n- Use \"search_recent_conversation\" when the user refers to something just discussed.\n- Use \"ask_clarification\" when the user's intent is genuinely ambiguous.\n- Use \"ignore\" when the message is empty or trivial.\n- Use \"observe\" when the user provides factual information without expecting a response.\n- Topics should be specific search terms or subjects.\n- The \"respond\" action is always the last action in the plan.\n\nAvailable capabilities:\n",
    );
    let caps = join_strings(&lines, "\n");
    p.append(caps.as_str());
    p.append("\n\nRecent conversation:\n");
    if recent_conversation.unicode_len() == 0 {
        p.append("(no recent conversation)");
    } else {
        p.append(recent_conversation);
    }
    p.append("\n\nMemory context:\n");
    if memory_context.unicode_len() == 0 {
        p.append("(no stored knowledge)");
    } else {
        p.append(memory_context);
    }
    p.append("\n\nHas prior knowledge: ");
    if has_prior_knowledge {
        p.append("true");
    } else {
        p.append("false");
    }
    p.append("\n\nUser message: ");
    p.append(user_message);
    p
}

/// The planner: a registry of the capabilities it may propose.
pub struct Planner {
    pub capabilities: CapabilityRegistry,
}

impl Planner {
    /// A planner with the default capabilities.
    pub fn new() -> (p: Self)
        ensures
            p.capabilities.wf(),
            p.capabilities.entries().len() == 7,
            forall|n: Seq<char>| #[trigger] p.capabilities.described(n) == standard_description(n),
    {
        Planner { capabilities: CapabilityRegistry::default() }
    }

    /// A planner with the given capabilities.
    pub fn new_with_capabilities(capabilities: CapabilityRegistry) -> (p: Self)
        ensures
            p.capabilities == capabilities,
    {
        Planner { capabilities }
    }

    /// The prompt for planning a reply to `user_message`: the capabilities
    /// in name order, the recent conversation, the memory context and
    /// whether anything is known.
    pub fn plan_prompt(
        &self,
        user_message: &str,
        recent_conversation: &str,
        memory_context: &str,
        has_prior_knowledge: bool,
    ) -> (p: String)
        requires
            self.capabilities.wf(),
        ensures
            exists|caps: Seq<(Seq<char>, Seq<char>)>|
                #[trigger] sorted_by_name(caps) && caps.to_multiset()
                    == self.capabilities.entries().to_multiset() && p@ == planner_prompt_spec(
                    caps,
                    user_message@,
                    recent_conversation@,
                    memory_context@,
                    has_prior_knowledge,
                ),
    {
        let caps = self.capabilities.list();
        let p = planner_prompt(
            &caps,
            user_message,
            recent_conversation,
            memory_context,
            has_prior_knowledge,
        );
        assert(sorted_by_name(cviews(caps@)));
        p
    }
}

/// What the executor does for one planned action.
pub enum PlannedStep {
    /// Search stored memory for the action's topics.
    SearchMemory,
    /// Search the recent conversation for the action's topics.
    SearchConversation,
    /// Generate the reply.
    Respond,
    /// Decide directly.
    Decide(Decision),
    /// Leave the decision as it is.
    Skip,
}

/// The step for an action type: searches and replies are performed
/// outside; a clarification asks the first topic (or a default question);
/// ignoring, observing and scheduling wait; unknown types change nothing.
pub fn classify_action(action: &PlannedAction) -> (s: PlannedStep)
    ensures
        action@.action_type == "search_memory"@ ==> s is SearchMemory,
        action@.action_type != "search_memory"@ && action@.action_type
            == "search_recent_conversation"@ ==> s is SearchConversation,
        action@.action_type != "search_memory"@ && action@.action_type
            != "search_recent_conversation"@ && action@.action_type == "respond"@ ==> s is Respond,
        action@.action_type != "search_memory"@ && action@.action_type
            != "search_recent_conversation"@ && action@.action_type != "respond"@
            && action@.action_type == "ask_clarification"@ ==> (s matches PlannedStep::Decide(d)
            && d@ == (DecisionView::Communicate {
            recipient: "user"@,
            message: if action@.topics.len() > 0 {
                action@.topics[0]
            } else {
                "Could you clarify what you mean?"@
            },
            reason: action@.reason,
        })),
        action@.action_type != "search_memory"@ && action@.action_type
            != "search_recent_conversation"@ && action@.action_type != "respond"@
            && action@.action_type != "ask_clarification"@ && (action@.action_type == "ignore"@
            || action@.action_type == "observe"@ || action@.action_type == "schedule"@) ==> (s matches PlannedStep::Decide(d)
            && d@ is Wait),
        action@.action_type != "search_memory"@ && action@.action_type
            != "search_recent_conversation"@ && action@.action_type != "respond"@
            && action@.action_type != "ask_clarification"@ && action@.action_type != "ignore"@
            && action@.action_type != "observe"@ && action@.action_type != "schedule"@ ==> s is Skip,
{
    let t = action.action_type.as_str();
    if str_eq(t, "search_memory") {
        PlannedStep::SearchMemory
    } else if str_eq(t, "search_recent_conversation") {
        PlannedStep::SearchConversation
    } else if str_eq(t, "respond") {
        PlannedStep::Respond
    } else if str_eq(t, "ask_clarification") {
        let question = if action.topics.len() > 0 {
            action.topics[0].clone()
        } else {
            owned("Could you clarify what you mean?")
        };
        PlannedStep::Decide(
            Decision::Communicate {
                recipient: owned("user"),
                message: question,
                reason: action.reason.clone(),
            },
        )
    } else if str_eq(t, "ignore") || str_eq(t, "observe") || str_eq(t, "schedule") {
        PlannedStep::Decide(Decision::Wait)
    } else {
        PlannedStep::Skip
    }
}

} // verus!
