//! The executor's own work on a plan: the memory summary it gives for a
//! memory search, the recent-conversation search, the prompt of the final
//! reply and the decision made from the model's answer. Reading the world
//! model and asking the model happen outside.

use vstd::prelude::*;

use crate::conversation::{tviews, ConversationTurn, Decision, DecisionView, TurnView};
use crate::observation_loop::{prefix_chars, take_chars};
use crate::text::{
    contains_seq, join_seq, join_strings, lowercase, owned, str_contains, str_eq, string_views,
    to_lowercase, trim, trimmed,
};

verus! {

/// A stored entity as the memory search reads it: its name, its type and
/// its `status` property when that is a string.
#[derive(Debug)]
pub struct StoredEntity {
    pub name: String,
    pub entity_type: String,
    pub status: Option<String>,
}

pub struct StoredView {
    pub name: Seq<char>,
    pub entity_type: Seq<char>,
    pub status: Option<Seq<char>>,
}

impl View for StoredEntity {
    type V = StoredView;

    open spec fn view(&self) -> StoredView {
        StoredView {
            name: self.name@,
            entity_type: self.entity_type@,
            status: match self.status {
                Some(s) => Some(s@),
                None => None,
            },
        }
    }
}

pub open spec fn seviews(s: Seq<StoredEntity>) -> Seq<StoredView> {
    s.map_values(|e: StoredEntity| e@)
}

/// Some topic, lower-cased, occurs in `s` lower-cased.
pub open spec fn mentions_any(s: Seq<char>, topics: Seq<Seq<char>>) -> bool {
    exists|i: int| 0 <= i < topics.len() && #[trigger] contains_seq(lowercase(s), lowercase(topics[i]))
}

/// An entity is relevant to the topics when its name or its type mentions
/// one of them.
pub open spec fn relevant(e: StoredView, topics: Seq<Seq<char>>) -> bool {
    mentions_any(e.name, topics) || mentions_any(e.entity_type, topics)
}

/// Whether the search is for everything: no topic, or the topic "all".
pub open spec fn wants_all(topics: Seq<Seq<char>>) -> bool {
    topics.len() == 0 || exists|i: int| 0 <= i < topics.len() && #[trigger] topics[i] == "all"@
}

pub enum Group {
    People,
    Projects,
    Interests,
    Other,
}

pub open spec fn group_of(t: Seq<char>) -> Group {
    if t == "person"@ || t == "user"@ || t == "human"@ {
        Group::People
    } else if t == "project"@ || t == "task"@ || t == "goal"@ || t == "plan"@ {
        Group::Projects
    } else if t == "skill"@ || t == "interest"@ || t == "hobby"@ {
        Group::Interests
    } else {
        Group::Other
    }
}

/// How an entity is named in the summary: projects carry their status.
pub open spec fn label(e: StoredView) -> Seq<char> {
    match group_of(e.entity_type) {
        Group::Projects => match e.status {
            Some(s) => if s.len() > 0 { e.name + " ("@ + s + ")"@ } else { e.name },
            None => e.name,
        },
        _ => e.name,
    }
}

/// The labels of the entities of group `g`, in order.
pub open spec fn group_labels(es: Seq<StoredView>, g: Group) -> Seq<Seq<char>>
    decreases es.len(),
{
    if es.len() == 0 {
        Seq::empty()
    } else if group_of(es.last().entity_type) == g {
        group_labels(es.drop_last(), g).push(label(es.last()))
    } else {
        group_labels(es.drop_last(), g)
    }
}

pub open spec fn part(heading: Seq<char>, names: Seq<Seq<char>>) -> Seq<Seq<char>> {
    if names.len() == 0 {
        Seq::empty()
    } else {
        seq![heading + join_seq(names, ", "@)]
    }
}

/// The summary of `es`: people, projects, interests and other entities,
/// each group as "heading: a, b", the groups separated by "; ".
pub open spec fn summary_of(es: Seq<StoredView>) -> Seq<char> {
    join_seq(
        part("people: "@, group_labels(es, Group::People)) + part(
            "projects: "@,
            group_labels(es, Group::Projects),
        ) + part("interests: "@, group_labels(es, Group::Interests)) + part(
            "other: "@,
            group_labels(es, Group::Other),
        ),
        "; "@,
    )
}

/// What a memory search answers.
pub open spec fn memory_search_spec(all: Seq<StoredView>, topics: Seq<Seq<char>>) -> Seq<char> {
    if all.len() == 0 {
        "I don't have any stored knowledge yet."@
    } else {
        let found = if wants_all(topics) {
            all
        } else {
            all.filter(|e: StoredView| relevant(e, topics))
        };
        if found.len() == 0 {
            "I don't have any knowledge matching those topics."@
        } else {
            summary_of(found)
        }
    }
}

fn lower_all(topics: &Vec<String>) -> (r: Vec<String>)
    ensures
        string_views(r@) == string_views(topics@).map_values(|t: Seq<char>| lowercase(t)),
{
    let mut r: Vec<String> = Vec::new();
    let mut i: usize = 0;
    while i < topics.len()
        invariant
            i <= topics@.len(),
            string_views(r@) == string_views(topics@).subrange(0, i as int).map_values(
                |t: Seq<char>| lowercase(t),
            ),
        decreases topics@.len() - i,
    {
        let ghost r0 = r@;
        r.push(to_lowercase(topics[i].as_str()));
        assert(string_views(topics@).subrange(0, i + 1) =~= string_views(topics@).subrange(
            0,
            i as int,
        ).push(topics@[i as int]@));
        assert(string_views(r@) =~= string_views(r0).push(lowercase(topics@[i as int]@)));
        i = i + 1;
    }
    assert(string_views(topics@).subrange(0, topics@.len() as int) =~= string_views(topics@));
    r
}

/// Does `s`, lower-cased, contain one of the lower-cased topics?
fn mentions(s: &str, lowered: &Vec<String>, Ghost(topics): Ghost<Seq<Seq<char>>>) -> (b: bool)
    requires
        string_views(lowered@) == topics.map_values(|t: Seq<char>| lowercase(t)),
    ensures
        b == mentions_any(s@, topics),
{
    let low = to_lowercase(s);
    assert(string_views(lowered@).len() == lowered@.len());
    let mut i: usize = 0;
    while i < lowered.len()
        invariant
            i <= lowered@.len(),
            lowered@.len() == topics.len(),
            string_views(lowered@) == topics.map_values(|t: Seq<char>| lowercase(t)),
            low@ == lowercase(s@),
            forall|k: int| 0 <= k < i ==> !#[trigger] contains_seq(lowercase(s@), lowercase(topics[k])),
        decreases lowered@.len() - i,
    {
        assert(string_views(lowered@)[i as int] == lowered@[i as int]@);
        if str_contains(low.as_str(), lowered[i].as_str()) {
            assert(contains_seq(lowercase(s@), lowercase(topics[i as int])));
            return true;
        }
        i = i + 1;
    }
    false
}

fn any_all(topics: &Vec<String>) -> (b: bool)
    ensures
        b == wants_all(string_views(topics@)),
{
    if topics.len() == 0 {
        return true;
    }
    let mut i: usize = 0;
    while i < topics.len()
        invariant
            i <= topics@.len(),
            topics@.len() > 0,
            forall|k: int| 0 <= k < i ==> #[trigger] string_views(topics@)[k] != "all"@,
        decreases topics@.len() - i,
    {
        if str_eq(topics[i].as_str(), "all") {
            assert(string_views(topics@)[i as int] == "all"@);
            return true;
        }
        i = i + 1;
    }
    false
}

proof fn lemma_filter_push_entity(s: Seq<StoredView>, f: spec_fn(StoredView) -> bool, x: StoredView)
    ensures
        s.push(x).filter(f) == (if f(x) { s.filter(f).push(x) } else { s.filter(f) }),
{
    reveal(Seq::filter);
    assert(s.push(x).drop_last() =~= s);
}

fn group_exec(t: &str) -> (g: u8)
    ensures
        g < 4,
        (g == 0) == (group_of(t@) == Group::People),
        (g == 1) == (group_of(t@) == Group::Projects),
        (g == 2) == (group_of(t@) == Group::Interests),
        (g == 3) == (group_of(t@) == Group::Other),
{
    if str_eq(t, "person") || str_eq(t, "user") || str_eq(t, "human") {
        0
    } else if str_eq(t, "project") || str_eq(t, "task") || str_eq(t, "goal") || str_eq(t, "plan") {
        1
    } else if str_eq(t, "skill") || str_eq(t, "interest") || str_eq(t, "hobby") {
        2
    } else {
        3
    }
}

fn label_exec(e: &StoredEntity) -> (s: String)
    ensures
        s@ == label(e@),
{
    if group_exec(e.entity_type.as_str()) == 1 {
        match &e.status {
            Some(st) => {
                if st.as_str().unicode_len() > 0 {
                    let mut s = e.name.clone();
                    s.append(" (");
                    s.append(st.as_str());
                    s.append(")");
                    return s;
                }
            },
            None => {},
        }
    }
    e.name.clone()
}

fn push_part(parts: &mut Vec<String>, heading: &str, names: &Vec<String>)
    ensures
        string_views(final(parts)@) == string_views(old(parts)@) + part(heading@, string_views(names@)),
{
    if names.len() > 0 {
        let mut p = String::from_str(heading);
        let j = join_strings(names, ", ");
        p.append(j.as_str());
        let ghost p0 = parts@;
        parts.push(p);
        assert(string_views(parts@) =~= string_views(p0) + part(heading@, string_views(names@)));
    } else {
        assert(string_views(parts@) =~= string_views(parts@) + part(heading@, string_views(names@)));
    }
}

/// The summary of the given entities, by group.
fn summarize(found: &Vec<&StoredEntity>, Ghost(fs): Ghost<Seq<StoredView>>) -> (s: String)
    requires
        found@.len() == fs.len(),
        forall|i: int| 0 <= i < fs.len() ==> #[trigger] fs[i] == found@[i]@,
    ensures
        s@ == summary_of(fs),
{
    let mut people: Vec<String> = Vec::new();
    let mut projects: Vec<String> = Vec::new();
    let mut skills: Vec<String> = Vec::new();
    let mut other: Vec<String> = Vec::new();
    let mut i: usize = 0;
    while i < found.len()
        invariant
            i <= found@.len(),
            found@.len() == fs.len(),
            forall|k: int| 0 <= k < fs.len() ==> #[trigger] fs[k] == found@[k]@,
            string_views(people@) == group_labels(fs.subrange(0, i as int), Group::People),
            string_views(projects@) == group_labels(fs.subrange(0, i as int), Group::Projects),
            string_views(skills@) == group_labels(fs.subrange(0, i as int), Group::Interests),
            string_views(other@) == group_labels(fs.subrange(0, i as int), Group::Other),
        decreases found@.len() - i,
    {
        let e = found[i];
        let ghost pre = fs.subrange(0, i as int);
        let ghost next = fs.subrange(0, i + 1);
        assert(next.drop_last() =~= pre);
        assert(next.last() == e@);
        let g = group_exec(e.entity_type.as_str());
        let l = label_exec(e);
        if g == 0 {
            let ghost v0 = people@;
            people.push(l);
            assert(string_views(people@) =~= string_views(v0).push(label(e@)));
        } else if g == 1 {
            let ghost v0 = projects@;
            projects.push(l);
            assert(string_views(projects@) =~= string_views(v0).push(label(e@)));
        } else if g == 2 {
            let ghost v0 = skills@;
            skills.push(l);
            assert(string_views(skills@) =~= string_views(v0).push(label(e@)));
        } else {
            let ghost v0 = other@;
            other.push(l);
            assert(string_views(other@) =~= string_views(v0).push(label(e@)));
        }
        i = i + 1;
    }
    assert(fs.subrange(0, found@.len() as int) =~= fs);
    let mut parts: Vec<String> = Vec::new();
    assert(string_views(parts@) =~= Seq::<Seq<char>>::empty());
    push_part(&mut parts, "people: ", &people);
    push_part(&mut parts, "projects: ", &projects);
    push_part(&mut parts, "interests: ", &skills);
    push_part(&mut parts, "other: ", &other);
    assert(string_views(parts@) =~= part("people: "@, group_labels(fs, Group::People)) + part(
        "projects: "@,
        group_labels(fs, Group::Projects),
    ) + part("interests: "@, group_labels(fs, Group::Interests)) + part(
        "other: "@,
        group_labels(fs, Group::Other),
    ));
    join_strings(&parts, "; ")
}

/// What a memory search over `all` for `topics` answers.
pub fn memory_search_summary(all: &Vec<StoredEntity>, topics: &Vec<String>) -> (s: String)
    ensures
        s@ == memory_search_spec(seviews(all@), string_views(topics@)),
{
    let ghost es = seviews(all@);
    let ghost ts = string_views(topics@);
    if all.len() == 0 {
        return owned("I don't have any stored knowledge yet.");
    }
    let everything = any_all(topics);
    let lowered = lower_all(topics);
    let ghost f = |e: StoredView| relevant(e, ts);
    let ghost target = if wants_all(ts) { es } else { es.filter(f) };
    let mut found: Vec<&StoredEntity> = Vec::new();
    let mut i: usize = 0;
    while i < all.len()
        invariant
            i <= all@.len(),
            es == seviews(all@),
            ts == string_views(topics@),
            string_views(lowered@) == ts.map_values(|t: Seq<char>| lowercase(t)),
            everything == wants_all(ts),
            f == (|e: StoredView| relevant(e, ts)),
            found@.map_values(|e: &StoredEntity| e@) == (if everything {
                es.subrange(0, i as int)
            } else {
                es.subrange(0, i as int).filter(f)
            }),
        decreases all@.len() - i,
    {
        let e = &all[i];
        let ghost pre = es.subrange(0, i as int);
        assert(es.subrange(0, i + 1) =~= pre.push(e@));
        proof {
            lemma_filter_push_entity(pre, f, e@);
        }
        let keep = everything || mentions(e.name.as_str(), &lowered, Ghost(ts)) || mentions(
            e.entity_type.as_str(),
            &lowered,
            Ghost(ts),
        );
        let ghost fo = found@;
        if keep {
            found.push(e);
            assert(found@.map_values(|x: &StoredEntity| x@) =~= fo.map_values(
                |x: &StoredEntity| x@,
            ).push(e@));
        }
        i = i + 1;
    }
    assert(es.subrange(0, all@.len() as int) =~= es);
    let ghost fs = found@.map_values(|x: &StoredEntity| x@);
    assert(fs == target);
    if found.len() == 0 {
        return owned("I don't have any knowledge matching those topics.");
    }
    assert forall|k: int| 0 <= k < fs.len() implies #[trigger] fs[k] == found@[k]@ by {}
    summarize(&found, Ghost(fs))
}

/// The conversation line of a turn for the conversation search.
pub open spec fn search_line(t: TurnView) -> Seq<char> {
    (if t.is_from_user { "User: "@ } else { "Companion: "@ }) + t.message
}

/// What a search of the recent conversation answers: all turns when no
/// topic is given or none matches, else the turns that mention a topic,
/// one per line.
pub open spec fn conversation_search_spec(ts: Seq<TurnView>, topics: Seq<Seq<char>>) -> Seq<char> {
    let lines = ts.map_values(|t: TurnView| search_line(t));
    if ts.len() == 0 {
        Seq::empty()
    } else if topics.len() == 0 {
        join_seq(lines, "\n"@)
    } else {
        let hits = lines.filter(|l: Seq<char>| mentions_any(l, topics));
        if hits.len() == 0 {
            join_seq(lines, "\n"@)
        } else {
            join_seq(hits, "\n"@)
        }
    }
}

proof fn lemma_filter_push_line(s: Seq<Seq<char>>, f: spec_fn(Seq<char>) -> bool, x: Seq<char>)
    ensures
        s.push(x).filter(f) == (if f(x) { s.filter(f).push(x) } else { s.filter(f) }),
{
    reveal(Seq::filter);
    assert(s.push(x).drop_last() =~= s);
}

/// Searches the recent conversation for `topics`.
pub fn search_recent_conversation(turns: &Vec<ConversationTurn>, topics: &Vec<String>) -> (s: String)
    ensures
        s@ == conversation_search_spec(tviews(turns@), string_views(topics@)),
{
    let ghost ts = tviews(turns@);
    let ghost tops = string_views(topics@);
    if turns.len() == 0 {
        return String::new();
    }
    let ghost all_lines = ts.map_values(|t: TurnView| search_line(t));
    let ghost f = |l: Seq<char>| mentions_any(l, tops);
    let lowered = lower_all(topics);
    let mut lines: Vec<String> = Vec::new();
    let mut hits: Vec<String> = Vec::new();
    let mut i: usize = 0;
    while i < turns.len()
        invariant
            i <= turns@.len(),
            ts == tviews(turns@),
            tops == string_views(topics@),
            all_lines == ts.map_values(|t: TurnView| search_line(t)),
            f == (|l: Seq<char>| mentions_any(l, tops)),
            string_views(lowered@) == tops.map_values(|t: Seq<char>| lowercase(t)),
            string_views(lines@) == all_lines.subrange(0, i as int),
            string_views(hits@) == all_lines.subrange(0, i as int).filter(f),
        decreases turns@.len() - i,
    {
        let t = &turns[i];
        let mut line = if t.is_from_user { String::from_str("User: ") } else { String::from_str("Companion: ") };
        line.append(t.message.as_str());
        assert(all_lines[i as int] == search_line(ts[i as int]));
        assert(line@ == all_lines[i as int]);
        let ghost pre = all_lines.subrange(0, i as int);
        assert(all_lines.subrange(0, i + 1) =~= pre.push(line@));
        proof {
            lemma_filter_push_line(pre, f, line@);
        }
        let hit = mentions(line.as_str(), &lowered, Ghost(tops));
        if hit {
            let ghost h0 = hits@;
            hits.push(line.clone());
            assert(string_views(hits@) =~= string_views(h0).push(line@));
        }
        let ghost l0 = lines@;
        lines.push(line);
        assert(string_views(lines@) =~= string_views(l0).push(all_lines[i as int]));
        i = i + 1;
    }
    assert(all_lines.subrange(0, turns@.len() as int) =~= all_lines);
    if topics.len() == 0 || hits.len() == 0 {
        join_strings(&lines, "\n")
    } else {
        join_strings(&hits, "\n")
    }
}

/// The recent history block of the reply prompt: the last four turns.
pub open spec fn history_block(ts: Seq<TurnView>) -> Seq<char> {
    let k: int = if ts.len() < 4 { ts.len() as int } else { 4 };
    if ts.len() == 0 {
        Seq::empty()
    } else {
        "\nRecent conversation:\n"@ + join_seq(
            ts.subrange(ts.len() - k, ts.len() as int).map_values(
                |t: TurnView| crate::conversation::turn_line(t),
            ),
            "\n"@,
        ) + "\n"@
    }
}

pub open spec fn block(heading: Seq<char>, body: Seq<char>) -> Seq<char> {
    if body.len() == 0 { Seq::empty() } else { heading + body + "\n"@ }
}

pub open spec fn duplicate_block(is_duplicate: Option<Seq<char>>, message: Seq<char>) -> Seq<char> {
    match is_duplicate {
        Some(orig) => if orig != message {
            "\nNote: the user said something similar before ("@ + take_chars(orig, 50)
                + "). Vary the response.\n"@
        } else {
            "\nNote: the user repeated themselves. Acknowledge briefly and vary the response.\n"@
        },
        None => Seq::empty(),
    }
}

/// The prompt of the final reply.
pub open spec fn respond_prompt_spec(
    message: Seq<char>,
    ts: Seq<TurnView>,
    memory_context: Seq<char>,
    has_prior: bool,
    is_duplicate: Option<Seq<char>>,
    is_new_session: bool,
    memory_result: Option<Seq<char>>,
    conversation_result: Option<Seq<char>>,
    runtime_context: Seq<char>,
) -> Seq<char> {
    "You are a helpful companion. Respond naturally and conversationally.\n\nThe user's message is below. Answer their question, acknowledge their statement, or continue the conversation naturally. Be warm, concise, and helpful. Do NOT list entities or internal state."@
        + history_block(ts) + block("\nContext from memory: "@, memory_context) + block(
        "\nMemory search results: "@,
        match memory_result {
            Some(r) => r,
            None => Seq::empty(),
        },
    ) + block(
        "\nConversation search results:\n"@,
        match conversation_result {
            Some(r) => r,
            None => Seq::empty(),
        },
    ) + (if is_new_session && has_prior {
        "\nThis is the first message after a gap. The user may have returned after being away. Naturally reconnect.\n"@
    } else {
        Seq::empty()
    }) + duplicate_block(is_duplicate, message) + (if trim(runtime_context).len() == 0 {
        Seq::empty()
    } else {
        "\nConfirmed action results (ground truth — only these external actions actually happened):\n"@
            + runtime_context + "\n"@
    })
        + "\nIMPORTANT: If the user asked you to perform an external action (send an email, post a message, create a file, etc.), ONLY claim it was done if the confirmed action results above list it as SUCCEEDED. If an external action is not confirmed, or if no action results are shown, tell the user honestly that it could not be completed. Never claim an external action succeeded unless you have confirmed proof above.\n\nUser message: "@
        + message
}

fn append_block(p: &mut String, heading: &str, body: &str)
    ensures
        final(p)@ == old(p)@ + block(heading@, body@),
{
    if body.unicode_len() > 0 {
        p.append(heading);
        p.append(body);
        p.append("\n");
    } else {
        assert(old(p)@ + block(heading@, body@) =~= old(p)@);
    }
}

/// Builds the prompt of the final reply.
pub fn respond_prompt(
    user_message: &str,
    recent: &Vec<ConversationTurn>,
    memory_context: &str,
    has_prior_knowledge: bool,
    is_duplicate: Option<&str>,
    is_new_session: bool,
    memory_result: Option<&str>,
    conversation_result: Option<&str>,
    runtime_context: &str,
) -> (p: String)
    ensures
        p@ == respond_prompt_spec(
            user_message@,
            tviews(recent@),
            memory_context@,
            has_prior_knowledge,
            match is_duplicate {
                Some(d) => Some(d@),
                None => None,
            },
            is_new_session,
            match memory_result {
                Some(r) => Some(r@),
                None => None,
            },
            match conversation_result {
                Some(r) => Some(r@),
                None => None,
            },
            runtime_context@,
        ),
{
    let ghost ts = tviews(recent@);
    let mut p = String::from_str(
        "You are a helpful companion. Respond naturally and conversationally.\n\nThe user's message is below. Answer their question, acknowledge their statement, or continue the conversation naturally. Be warm, concise, and helpful. Do NOT list entities or internal state.",
    );
    let ghost p0 = p@;
    let n = recent.len();
    if n > 0 {
        let start: usize = if n < 4 { 0 } else { n - 4 };
        let mut lines: Vec<String> = Vec::new();
        let mut i: usize = start;
        while i < n
            invariant
                n == recent@.len(),
                ts == tviews(recent@),
                start <= i <= n,
                start == (if n < 4 { 0 } else { n - 4 }),
                string_views(lines@) == ts.subrange(start as int, i as int).map_values(
                    |t: TurnView| crate::conversation::turn_line(t),
                ),
            decreases n - i,
        {
            let t = &recent[i];
            let mut line = if t.is_from_user { String::from_str("User: ") } else { String::from_str("You: ") };
            line.append(t.message.as_str());
            let ghost l0 = lines@;
            lines.push(line);
            assert(ts.subrange(start as int, i + 1) =~= ts.subrange(start as int, i as int).push(ts[i as int]));
            assert(string_views(lines@) =~= string_views(l0).push(crate::conversation::turn_line(ts[i as int])));
            i = i + 1;
        }
        p.append("\nRecent conversation:\n");
        let j = join_strings(&lines, "\n");
        p.append(j.as_str());
        p.append("\n");
    }
    assert(p@ =~= p0 + history_block(ts));
    append_block(&mut p, "\nContext from memory: ", memory_context);
    match memory_result {
        Some(r) => append_block(&mut p, "\nMemory search results: ", r),
        None => {},
    }
    match conversation_result {
        Some(r) => append_block(&mut p, "\nConversation search results:\n", r),
        None => {},
    }
    let ghost p1 = p@;
    if is_new_session && has_prior_knowledge {
        p.append(
            "\nThis is the first message after a gap. The user may have returned after being away. Naturally reconnect.\n",
        );
    }
    let ghost p2 = p@;
    match is_duplicate {
        Some(orig) => {
            if !str_eq(orig, user_message) {
                p.append("\nNote: the user said something similar before (");
                let cut = prefix_chars(orig, 50);
                p.append(cut.as_str());
                p.append("). Vary the response.\n");
            } else {
                p.append(
                    "\nNote: the user repeated themselves. Acknowledge briefly and vary the response.\n",
                );
            }
        },
        None => {},
    }
    let ghost p3 = p@;
    assert(p3 =~= p2 + duplicate_block(
        match is_duplicate {
            Some(d) => Some(d@),
            None => None,
        },
        user_message@,
    ));
    let rt = trimmed(runtime_context);
    if rt.as_str().unicode_len() > 0 {
        p.append(
            "\nConfirmed action results (ground truth — only these external actions actually happened):\n",
        );
        p.append(runtime_context);
        p.append("\n");
    }
    assert(p@ =~= p3 + (if trim(runtime_context@).len() == 0 {
        Seq::empty()
    } else {
        "\nConfirmed action results (ground truth — only these external actions actually happened):\n"@
            + runtime_context@ + "\n"@
    }));
    p.append(
        "\nIMPORTANT: If the user asked you to perform an external action (send an email, post a message, create a file, etc.), ONLY claim it was done if the confirmed action results above list it as SUCCEEDED. If an external action is not confirmed, or if no action results are shown, tell the user honestly that it could not be completed. Never claim an external action succeeded unless you have confirmed proof above.\n\nUser message: ",
    );
    p.append(user_message);
    p
}

/// The decision made of the model's answer to the reply prompt: the
/// trimmed answer is told to the user unless it is empty; no answer waits.
pub fn reply_decision(answer: Option<&str>) -> (d: Decision)
    ensures
        match answer {
            Some(a) => if trim(a@).len() == 0 {
                d@ is Wait
            } else {
                d@ == (DecisionView::Communicate {
                    recipient: "user"@,
                    message: trim(a@),
                    reason: "response to user message"@,
                })
            },
            None => d@ is Wait,
        },
{
    match answer {
        Some(a) => {
            let content = trimmed(a);
            if content.as_str().unicode_len() == 0 {
                Decision::Wait
            } else {
                Decision::Communicate {
                    recipient: owned("user"),
                    message: content,
                    reason: owned("response to user message"),
                }
            }
        },
        None => Decision::Wait,
    }
}

} // verus!
