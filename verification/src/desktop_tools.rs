//! The primitive desktop capabilities the desktop agent offers the brain,
//! and which of them answer a capability request.

use vstd::prelude::*;

use crate::desktop::pviews;
use crate::text::{
    contains_seq, decimal, decimal_string, join_seq, join_strings, owned, str_contains, str_eq,
    string_views,
};

verus! {

/// A desktop capability: its id, what it does, and its named parameters
/// with their types.
#[derive(Debug)]
pub struct DesktopCapability {
    pub id: &'static str,
    pub description: &'static str,
    pub params: Vec<(&'static str, &'static str)>,
}

/// The ids of the desktop capabilities, in their registration order.
pub open spec fn desktop_capability_ids() -> Seq<Seq<char>> {
    seq![
        "desktop.window.focus"@,
        "desktop.window.close"@,
        "desktop.app.launch"@,
        "input.mouse.move"@,
        "input.mouse.click"@,
        "input.keyboard.type"@,
        "input.keyboard.combo"@,
        "input.keyboard.shortcut"@,
        "desktop.clipboard.set"@,
        "desktop.clipboard.get"@,
        "desktop.window.list"@,
        "desktop.process.list"@,
        "desktop.notification.send"@,
    ]
}

/// The descriptions of the desktop capabilities, in the same order.
pub open spec fn desktop_capability_descriptions() -> Seq<Seq<char>> {
    seq![
        "Focus a window by title"@,
        "Close a window"@,
        "Launch an application"@,
        "Move the mouse cursor"@,
        "Click a mouse button"@,
        "Type text at the keyboard"@,
        "Press a key combination"@,
        "Press a keyboard shortcut"@,
        "Set clipboard content"@,
        "Get clipboard content"@,
        "List open windows"@,
        "List running processes"@,
        "Send a desktop notification"@,
    ]
}

/// The named parameters of each desktop capability, with their types, in
/// the same order.
pub open spec fn desktop_capability_params() -> Seq<Seq<(Seq<char>, Seq<char>)>> {
    seq![
        seq![("title"@, "string"@)],
        seq![("id"@, "string"@)],
        seq![("app"@, "string"@)],
        seq![("x"@, "string"@), ("y"@, "string"@)],
        seq![("button"@, "string"@)],
        seq![("text"@, "string"@)],
        seq![("keys"@, "string"@)],
        seq![("shortcut"@, "string"@)],
        seq![("text"@, "string"@)],
        seq![],
        seq![],
        seq![],
        seq![("title"@, "string"@), ("body"@, "string"@)],
    ]
}

/// How sure the agent is that it can serve a request: a registered
/// capability matched, or none did and the agent offers itself anyway.
#[derive(Debug, Clone, Copy, PartialEq, Eq, Structural)]
pub enum CandidateConfidence {
    Matched,
    Fallback,
}

/// A registered id answers a request when it equals the requested
/// capability or contains it.
pub open spec fn answers(id: Seq<char>, requested: Seq<char>) -> bool {
    id == requested || contains_seq(id, requested)
}

/// How many of `ids` answer `requested`.
pub open spec fn answer_count(ids: Seq<Seq<char>>, requested: Seq<char>) -> nat
    decreases ids.len(),
{
    if ids.len() == 0 {
        0
    } else {
        answer_count(ids.drop_last(), requested) + if answers(ids.last(), requested) {
            1nat
        } else {
            0nat
        }
    }
}

/// The candidates offered for a request: one per answering capability,
/// or a single fallback candidate when none answers.
pub open spec fn candidates_spec(ids: Seq<Seq<char>>, requested: Seq<char>) -> Seq<CandidateConfidence> {
    let n = answer_count(ids, requested);
    if n == 0 {
        seq![CandidateConfidence::Fallback]
    } else {
        Seq::new(n, |i: int| CandidateConfidence::Matched)
    }
}

/// The registry of desktop capabilities.
#[derive(Debug)]
pub struct DesktopToolRegistry {
    pub capabilities: Vec<DesktopCapability>,
}

pub open spec fn cap_ids(s: Seq<DesktopCapability>) -> Seq<Seq<char>> {
    s.map_values(|c: DesktopCapability| c.id@)
}

pub open spec fn cap_descriptions(s: Seq<DesktopCapability>) -> Seq<Seq<char>> {
    s.map_values(|c: DesktopCapability| c.description@)
}

pub open spec fn cap_params(s: Seq<DesktopCapability>) -> Seq<Seq<(Seq<char>, Seq<char>)>> {
    s.map_values(
        |c: DesktopCapability| c.params@.map_values(|p: (&'static str, &'static str)| (p.0@, p.1@)),
    )
}

fn cap(id: &'static str, description: &'static str, params: Vec<(&'static str, &'static str)>) -> (c:
    DesktopCapability)
    ensures
        c.id == id,
        c.description == description,
        c.params@ == params@,
{
    DesktopCapability { id, description, params }
}

impl DesktopToolRegistry {
    /// The thirteen desktop capabilities: window focus and close, app
    /// launch, mouse move and click, typing, key combinations and
    /// shortcuts, clipboard set and get, window and process lists, and
    /// desktop notifications.
    pub fn new() -> (r: Self)
        ensures
            cap_ids(r.capabilities@) == desktop_capability_ids(),
            cap_descriptions(r.capabilities@) == desktop_capability_descriptions(),
            cap_params(r.capabilities@) == desktop_capability_params(),
    {
        let capabilities = vec![
            cap("desktop.window.focus", "Focus a window by title", vec![("title", "string")]),
            cap("desktop.window.close", "Close a window", vec![("id", "string")]),
            cap("desktop.app.launch", "Launch an application", vec![("app", "string")]),
            cap("input.mouse.move", "Move the mouse cursor", vec![("x", "string"), ("y", "string")]),
            cap("input.mouse.click", "Click a mouse button", vec![("button", "string")]),
            cap("input.keyboard.type", "Type text at the keyboard", vec![("text", "string")]),
            cap("input.keyboard.combo", "Press a key combination", vec![("keys", "string")]),
            cap("input.keyboard.shortcut", "Press a keyboard shortcut", vec![("shortcut", "string")]),
            cap("desktop.clipboard.set", "Set clipboard content", vec![("text", "string")]),
            cap("desktop.clipboard.get", "Get clipboard content", vec![]),
            cap("desktop.window.list", "List open windows", vec![]),
            cap("desktop.process.list", "List running processes", vec![]),
            cap(
                "desktop.notification.send",
                "Send a desktop notification",
                vec![("title", "string"), ("body", "string")],
            ),
        ];
        let r = DesktopToolRegistry { capabilities };
        assert(cap_ids(r.capabilities@) =~= desktop_capability_ids());
        assert(cap_descriptions(r.capabilities@) =~= desktop_capability_descriptions());
        assert(cap_params(r.capabilities@)[0] =~= desktop_capability_params()[0]);
        assert(cap_params(r.capabilities@)[1] =~= desktop_capability_params()[1]);
        assert(cap_params(r.capabilities@)[2] =~= desktop_capability_params()[2]);
        assert(cap_params(r.capabilities@)[3] =~= desktop_capability_params()[3]);
        assert(cap_params(r.capabilities@)[4] =~= desktop_capability_params()[4]);
        assert(cap_params(r.capabilities@)[5] =~= desktop_capability_params()[5]);
        assert(cap_params(r.capabilities@)[6] =~= desktop_capability_params()[6]);
        assert(cap_params(r.capabilities@)[7] =~= desktop_capability_params()[7]);
        assert(cap_params(r.capabilities@)[8] =~= desktop_capability_params()[8]);
        assert(cap_params(r.capabilities@)[9] =~= desktop_capability_params()[9]);
        assert(cap_params(r.capabilities@)[10] =~= desktop_capability_params()[10]);
        assert(cap_params(r.capabilities@)[11] =~= desktop_capability_params()[11]);
        assert(cap_params(r.capabilities@)[12] =~= desktop_capability_params()[12]);
        assert(cap_params(r.capabilities@) =~= desktop_capability_params());
        r
    }

    /// The candidates for a requested capability.
    pub fn find_candidates(&self, requested: &str) -> (r: Vec<CandidateConfidence>)
        ensures
            r@ == candidates_spec(cap_ids(self.capabilities@), requested@),
    {
        let ghost ids = cap_ids(self.capabilities@);
        let mut count: usize = 0;
        let mut i: usize = 0;
        while i < self.capabilities.len()
            invariant
                i <= self.capabilities@.len(),
                ids == cap_ids(self.capabilities@),
                count == answer_count(ids.subrange(0, i as int), requested@),
                count <= i,
            decreases self.capabilities@.len() - i,
        {
            let id = self.capabilities[i].id;
            assert(ids.subrange(0, i + 1).drop_last() =~= ids.subrange(0, i as int));
            if str_eq(id, requested) || str_contains(id, requested) {
                count = count + 1;
            }
            i = i + 1;
        }
        assert(ids.subrange(0, i as int) =~= ids);
        let mut r: Vec<CandidateConfidence> = Vec::new();
        if count == 0 {
            r.push(CandidateConfidence::Fallback);
            assert(r@ =~= seq![CandidateConfidence::Fallback]);
        } else {
            let mut k: usize = 0;
            while k < count
                invariant
                    k <= count,
                    r@ == Seq::new(k as nat, |j: int| CandidateConfidence::Matched),
                decreases count - k,
            {
                r.push(CandidateConfidence::Matched);
                k = k + 1;
                assert(r@ =~= Seq::new(k as nat, |j: int| CandidateConfidence::Matched));
            }
        }
        r
    }

    /// The id and description of every capability, in order.
    pub fn list_capabilities(&self) -> (r: Vec<(&'static str, &'static str)>)
        ensures
            r@.len() == self.capabilities@.len(),
            forall|i: int|
                0 <= i < r@.len() ==> #[trigger] r@[i] == (
                    self.capabilities@[i].id,
                    self.capabilities@[i].description,
                ),
    {
        let mut r: Vec<(&'static str, &'static str)> = Vec::new();
        let mut i: usize = 0;
        while i < self.capabilities.len()
            invariant
                i <= self.capabilities@.len(),
                r@.len() == i,
                forall|j: int|
                    0 <= j < i ==> #[trigger] r@[j] == (
                        self.capabilities@[j].id,
                        self.capabilities@[j].description,
                    ),
            decreases self.capabilities@.len() - i,
        {
            r.push((self.capabilities[i].id, self.capabilities[i].description));
            i = i + 1;
        }
        r
    }
}


/// A value in a tool requirement of the brain's plan. A number is held as
/// the decimal text that Rust prints for it; a map holds its entries in the
/// order they were read.
#[derive(Debug)]
pub enum ToolValue {
    String(String),
    Number(String),
    Bool(bool),
    FilePath(String),
    DurationMs(u64),
    Null,
    List(Vec<ToolValue>),
    Pairs(Vec<(String, ToolValue)>),
}

/// The plain text the operator receives for a value: lists joined with
/// ",", maps as "key=value" joined with "&", null as nothing.
pub open spec fn value_text(v: ToolValue) -> Seq<char>
    decreases v,
{
    match v {
        ToolValue::String(s) => s@,
        ToolValue::Number(t) => t@,
        ToolValue::Bool(b) => if b { "true"@ } else { "false"@ },
        ToolValue::FilePath(p) => p@,
        ToolValue::DurationMs(ms) => decimal(ms as nat),
        ToolValue::Null => Seq::empty(),
        ToolValue::List(items) => join_seq(item_texts(items@), ","@),
        ToolValue::Pairs(entries) => join_seq(entry_texts(entries@), "&"@),
    }
}

/// The texts of the items of a list.
pub open spec fn item_texts(items: Seq<ToolValue>) -> Seq<Seq<char>>
    decreases items,
{
    if items.len() == 0 {
        Seq::empty()
    } else {
        item_texts(items.drop_last()).push(value_text(items.last()))
    }
}

/// The "key=value" texts of the entries of a map.
pub open spec fn entry_texts(entries: Seq<(String, ToolValue)>) -> Seq<Seq<char>>
    decreases entries,
{
    if entries.len() == 0 {
        Seq::empty()
    } else {
        entry_texts(entries.drop_last()).push(
            entries.last().0@ + "="@ + value_text(entries.last().1),
        )
    }
}

/// The text of a value, for the operator's parameters.
pub fn tool_value_to_string(v: &ToolValue) -> (r: String)
    ensures
        r@ == value_text(*v),
    decreases v,
{
    match v {
        ToolValue::String(s) => s.clone(),
        ToolValue::Number(t) => t.clone(),
        ToolValue::Bool(b) => {
            if *b {
                owned("true")
            } else {
                owned("false")
            }
        },
        ToolValue::FilePath(p) => p.clone(),
        ToolValue::DurationMs(ms) => decimal_string(*ms),
        ToolValue::Null => String::new(),
        ToolValue::List(items) => {
            let mut parts: Vec<String> = Vec::new();
            let mut i: usize = 0;
            while i < items.len()
                invariant
                    i <= items@.len(),
                    *v == ToolValue::List(*items),
                    string_views(parts@) == item_texts(items@.subrange(0, i as int)),
                decreases items@.len() - i,
            {
                proof {
                    assert((*v)->List_0 == *items);
                    assert(decreases_to!(*v => (*v)->List_0));
                    assert(decreases_to!(*items => items@));
                    assert(decreases_to!(items@ => items@[i as int]));
                    assert(decreases_to!(*v => items@[i as int]));
                }
                let t = tool_value_to_string(&items[i]);
                let ghost before = parts@;
                parts.push(t);
                proof {
                    let next = items@.subrange(0, i + 1);
                    assert(next.drop_last() =~= items@.subrange(0, i as int));
                    assert(string_views(parts@) =~= string_views(before).push(t@));
                }
                i = i + 1;
            }
            assert(items@.subrange(0, i as int) =~= items@);
            join_strings(&parts, ",")
        },
        ToolValue::Pairs(entries) => {
            let mut parts: Vec<String> = Vec::new();
            let mut i: usize = 0;
            while i < entries.len()
                invariant
                    i <= entries@.len(),
                    *v == ToolValue::Pairs(*entries),
                    string_views(parts@) == entry_texts(entries@.subrange(0, i as int)),
                decreases entries@.len() - i,
            {
                proof {
                    assert((*v)->Pairs_0 == *entries);
                    assert(decreases_to!(*v => (*v)->Pairs_0));
                    assert(decreases_to!(*entries => entries@));
                    assert(decreases_to!(entries@ => entries@[i as int]));
                    assert(decreases_to!(entries@[i as int] => entries@[i as int].1));
                    assert(decreases_to!(*v => entries@[i as int].1));
                }
                let inner = tool_value_to_string(&entries[i].1);
                let mut t = entries[i].0.clone();
                t.append("=");
                t.append(inner.as_str());
                let ghost before = parts@;
                parts.push(t);
                proof {
                    let next = entries@.subrange(0, i + 1);
                    assert(next.drop_last() =~= entries@.subrange(0, i as int));
                    assert(string_views(parts@) =~= string_views(before).push(t@));
                }
                i = i + 1;
            }
            assert(entries@.subrange(0, i as int) =~= entries@);
            join_strings(&parts, "&")
        },
    }
}

/// The inputs of a tool requirement as text, in order.
pub open spec fn input_texts(inputs: Seq<(String, ToolValue)>) -> Seq<(Seq<char>, Seq<char>)> {
    inputs.map_values(|p: (String, ToolValue)| (p.0@, value_text(p.1)))
}

/// The inputs of a tool requirement with every value as the operator's
/// text.
pub fn inputs_as_text(inputs: &Vec<(String, ToolValue)>) -> (r: Vec<(String, String)>)
    ensures
        pviews(r@) == input_texts(inputs@),
{
    let mut r: Vec<(String, String)> = Vec::new();
    let mut i: usize = 0;
    while i < inputs.len()
        invariant
            i <= inputs@.len(),
            pviews(r@) == input_texts(inputs@.subrange(0, i as int)),
        decreases inputs@.len() - i,
    {
        let t = tool_value_to_string(&inputs[i].1);
        let k = inputs[i].0.clone();
        let ghost before = r@;
        r.push((k, t));
        assert(pviews(r@) =~= pviews(before).push((inputs@[i as int].0@, value_text(inputs@[i as int].1))));
        assert(input_texts(inputs@.subrange(0, i + 1)) =~= input_texts(inputs@.subrange(0, i as int)).push(
            (inputs@[i as int].0@, value_text(inputs@[i as int].1)),
        ));
        i = i + 1;
    }
    assert(inputs@.subrange(0, i as int) =~= inputs@);
    r
}

} // verus!
