//! Strategy selection: for each desktop capability, the ordered list of
//! concrete strategies the operator tries until one of them verifies.

use vstd::prelude::*;

use crate::desktop::{
    get_param, param_lookup, param_or_default, param_or_empty, pviews, DesktopState,
    WindowInfoView,
};
use crate::numbers::{parse_i32, parse_i32_opt, parse_u64, parse_u64_opt};
use crate::text::{
    char_is_space, chars_of, contains_seq, is_space, lowercase, owned, str_contains, str_eq,
    string_of, to_lowercase, trim, trim_chars,
};

verus! {

/// One concrete way of carrying out an action.
#[derive(Debug)]
pub enum ActionStrategy {
    FocusWindow { title: String, partial: bool },
    CloseWindow { title: String },
    OpenUrl { url: String },
    LaunchApp { app: String },
    MouseMove { x: i32, y: i32 },
    MouseClick { button: String },
    MouseMoveClick { x: i32, y: i32, button: String },
    KeyboardType { text: String },
    KeyboardCombo { keys: Vec<String> },
    ClipboardSet { text: String },
    ShellCommand { command: Vec<String> },
    WaitMs { duration_ms: u64 },
    Noop,
}

/// A strategy as plain values.
pub enum StrategyView {
    FocusWindow { title: Seq<char>, partial: bool },
    CloseWindow { title: Seq<char> },
    OpenUrl { url: Seq<char> },
    LaunchApp { app: Seq<char> },
    MouseMove { x: i32, y: i32 },
    MouseClick { button: Seq<char> },
    MouseMoveClick { x: i32, y: i32, button: Seq<char> },
    KeyboardType { text: Seq<char> },
    KeyboardCombo { keys: Seq<Seq<char>> },
    ClipboardSet { text: Seq<char> },
    ShellCommand { command: Seq<Seq<char>> },
    WaitMs { duration_ms: u64 },
    Noop,
}

pub open spec fn svs(s: Seq<String>) -> Seq<Seq<char>> {
    s.map_values(|x: String| x@)
}

impl View for ActionStrategy {
    type V = StrategyView;

    open spec fn view(&self) -> StrategyView {
        match self {
            ActionStrategy::FocusWindow { title, partial } => StrategyView::FocusWindow {
                title: title@,
                partial: *partial,
            },
            ActionStrategy::CloseWindow { title } => StrategyView::CloseWindow { title: title@ },
            ActionStrategy::OpenUrl { url } => StrategyView::OpenUrl { url: url@ },
            ActionStrategy::LaunchApp { app } => StrategyView::LaunchApp { app: app@ },
            ActionStrategy::MouseMove { x, y } => StrategyView::MouseMove { x: *x, y: *y },
            ActionStrategy::MouseClick { button } => StrategyView::MouseClick { button: button@ },
            ActionStrategy::MouseMoveClick { x, y, button } => StrategyView::MouseMoveClick {
                x: *x,
                y: *y,
                button: button@,
            },
            ActionStrategy::KeyboardType { text } => StrategyView::KeyboardType { text: text@ },
            ActionStrategy::KeyboardCombo { keys } => StrategyView::KeyboardCombo {
                keys: svs(keys@),
            },
            ActionStrategy::ClipboardSet { text } => StrategyView::ClipboardSet { text: text@ },
            ActionStrategy::ShellCommand { command } => StrategyView::ShellCommand {
                command: svs(command@),
            },
            ActionStrategy::WaitMs { duration_ms } => StrategyView::WaitMs {
                duration_ms: *duration_ms,
            },
            ActionStrategy::Noop => StrategyView::Noop,
        }
    }
}

pub open spec fn stviews(s: Seq<ActionStrategy>) -> Seq<StrategyView> {
    s.map_values(|x: ActionStrategy| x@)
}

/// The pieces of `s` between occurrences of `c` (`str::split` on a char):
/// one more piece than there are occurrences, empty pieces included.
pub open spec fn split_char(s: Seq<char>, c: char) -> Seq<Seq<char>>
    decreases s.len(),
{
    if s.len() == 0 {
        seq![Seq::<char>::empty()]
    } else {
        let p = split_char(s.drop_last(), c);
        if s.last() == c {
            p.push(Seq::<char>::empty())
        } else {
            p.update(p.len() - 1, p.last().push(s.last()))
        }
    }
}

proof fn lemma_split_nonempty(s: Seq<char>, c: char)
    ensures
        split_char(s, c).len() >= 1,
    decreases s.len(),
{
    if s.len() > 0 {
        lemma_split_nonempty(s.drop_last(), c);
    }
}

/// The maximal runs of non-whitespace characters of `s`
/// (`str::split_whitespace`).
pub open spec fn words(s: Seq<char>) -> Seq<Seq<char>>
    decreases s.len(),
{
    if s.len() == 0 {
        Seq::empty()
    } else {
        let w = words(s.drop_last());
        let c = s.last();
        if is_space(c) {
            w
        } else if s.len() == 1 || is_space(s[s.len() - 2]) {
            w.push(seq![c])
        } else {
            w.update(w.len() - 1, w.last().push(c))
        }
    }
}

proof fn lemma_words_nonempty(s: Seq<char>)
    requires
        s.len() > 0,
        !is_space(s.last()),
    ensures
        words(s).len() > 0,
    decreases s.len(),
{
    if s.len() > 1 && !is_space(s[s.len() - 2]) {
        assert(s.drop_last().last() == s[s.len() - 2]);
        lemma_words_nonempty(s.drop_last());
    }
}

/// `s` with every ASCII space replaced by '+'.
pub open spec fn plus_for_spaces(s: Seq<char>) -> Seq<char> {
    s.map_values(|c: char| if c == ' ' { '+' } else { c })
}

/// The title that a focus action names: its `title`, else its `id`.
pub open spec fn focus_title(ps: Seq<(Seq<char>, Seq<char>)>) -> Seq<char> {
    match param_lookup(ps, "title"@) {
        Some(t) => t,
        None => param_or_empty(ps, "id"@),
    }
}

/// Some window title contains `title`, ignoring case.
pub open spec fn any_title_matches(titles: Seq<Seq<char>>, title: Seq<char>) -> bool {
    exists|i: int|
        0 <= i < titles.len() && #[trigger] contains_seq(lowercase(titles[i]), lowercase(title))
}

pub open spec fn titles_of(ws: Seq<WindowInfoView>) -> Seq<Seq<char>> {
    ws.map_values(|w: WindowInfoView| w.title)
}

/// An integer parameter, 0 where it is missing or not an `i32`.
pub open spec fn int_param(ps: Seq<(Seq<char>, Seq<char>)>, key: Seq<char>) -> i32 {
    match param_lookup(ps, key) {
        Some(v) => match parse_i32(v) {
            Some(n) => n as i32,
            None => 0,
        },
        None => 0,
    }
}

/// The wait duration parameter, 500 ms where it is missing or not a `u64`.
pub open spec fn wait_ms(ps: Seq<(Seq<char>, Seq<char>)>) -> u64 {
    match param_lookup(ps, "ms"@) {
        Some(v) => match parse_u64(v) {
            Some(n) => n as u64,
            None => 500,
        },
        None => 500,
    }
}

pub open spec fn focus_strategies(title: Seq<char>, titles: Seq<Seq<char>>) -> Seq<StrategyView> {
    if any_title_matches(titles, title) {
        seq![
            StrategyView::FocusWindow { title, partial: false },
            StrategyView::FocusWindow { title, partial: true },
        ]
    } else {
        seq![StrategyView::FocusWindow { title, partial: false }]
    }
}

/// The strategies for `cap` with parameters `ps` on a desktop whose windows
/// have `titles`, in the order in which they are tried.
pub open spec fn strategies_spec(
    cap: Seq<char>,
    ps: Seq<(Seq<char>, Seq<char>)>,
    titles: Seq<Seq<char>>,
) -> Seq<StrategyView> {
    if cap == "desktop.window.focus"@ {
        focus_strategies(focus_title(ps), titles)
    } else if cap == "desktop.window.close"@ {
        seq![
            StrategyView::CloseWindow { title: param_or_empty(ps, "id"@) },
            StrategyView::KeyboardCombo { keys: seq!["alt"@, "F4"@] },
        ]
    } else if cap == "desktop.app.launch"@ {
        seq![StrategyView::LaunchApp { app: param_or_empty(ps, "app"@) }]
    } else if cap == "input.mouse.move"@ {
        seq![StrategyView::MouseMove { x: int_param(ps, "x"@), y: int_param(ps, "y"@) }]
    } else if cap == "input.mouse.click"@ {
        seq![
            StrategyView::MouseClick {
                button: match param_lookup(ps, "button"@) {
                    Some(b) => b,
                    None => "1"@,
                },
            },
        ]
    } else if cap == "input.keyboard.type"@ {
        seq![StrategyView::KeyboardType { text: param_or_empty(ps, "text"@) }]
    } else if cap == "input.keyboard.combo"@ || cap == "input.keyboard.shortcut"@ {
        let raw = match param_lookup(ps, "keys"@) {
            Some(k) => k,
            None => param_or_empty(ps, "shortcut"@),
        };
        seq![
            StrategyView::KeyboardCombo {
                keys: split_char(raw, '+').map_values(|p: Seq<char>| trim(p)),
            },
        ]
    } else if cap == "desktop.clipboard.set"@ {
        seq![StrategyView::ClipboardSet { text: param_or_empty(ps, "text"@) }]
    } else if cap == "browser.open_url"@ || cap == "open_website"@ {
        let url = param_or_empty(ps, "url"@);
        if url.len() == 0 {
            seq![StrategyView::Noop]
        } else {
            seq![StrategyView::OpenUrl { url }]
        }
    } else if cap == "search_web"@ || cap == "search"@ {
        let q = param_or_empty(ps, "query"@);
        if q.len() == 0 {
            seq![StrategyView::Noop]
        } else {
            seq![StrategyView::OpenUrl { url: "https://google.com/search?q="@ + plus_for_spaces(q) }]
        }
    } else if cap == "wait"@ || cap == "delay"@ || cap == "sleep"@ {
        seq![StrategyView::WaitMs { duration_ms: wait_ms(ps) }]
    } else {
        let cmd = match param_lookup(ps, "command"@) {
            Some(c) => words(c),
            None => Seq::empty(),
        };
        if cmd.len() > 0 {
            seq![StrategyView::ShellCommand { command: cmd }]
        } else {
            seq![StrategyView::Noop]
        }
    }
}

/// Every capability has at least one strategy to try: an unknown one
/// without a command falls back to doing nothing.
pub proof fn lemma_strategies_nonempty(
    cap: Seq<char>,
    ps: Seq<(Seq<char>, Seq<char>)>,
    titles: Seq<Seq<char>>,
)
    ensures
        strategies_spec(cap, ps, titles).len() > 0,
{
}

/// Chooses strategies for desktop capabilities.
pub struct StrategySelector;

fn int_param_exec(params: &Vec<(String, String)>, key: &str) -> (r: i32)
    ensures
        r == int_param(pviews(params@), key@),
{
    match get_param(params, key) {
        Some(v) => match parse_i32_opt(v.as_str()) {
            Some(n) => n,
            None => 0,
        },
        None => 0,
    }
}

fn one(s: ActionStrategy) -> (r: Vec<ActionStrategy>)
    ensures
        stviews(r@) == seq![s@],
{
    let r = vec![s];
    assert(stviews(r@) =~= seq![s@]);
    r
}

/// `raw.split('+')`, each piece trimmed.
fn split_keys(raw: &str) -> (r: Vec<String>)
    ensures
        svs(r@) == split_char(raw@, '+').map_values(|p: Seq<char>| trim(p)),
{
    let v = chars_of(raw);
    let n = v.len();
    let mut pieces: Vec<String> = Vec::new();
    let mut cur: Vec<char> = Vec::new();
    let mut i: usize = 0;
    while i < n
        invariant
            n == v@.len(),
            v@ == raw@,
            i <= n,
            split_char(v@.subrange(0, i as int), '+').len() >= 1,
            svs(pieces@) == split_char(v@.subrange(0, i as int), '+').drop_last().map_values(
                |p: Seq<char>| trim(p),
            ),
            cur@ == split_char(v@.subrange(0, i as int), '+').last(),
        decreases n - i,
    {
        let ghost pre = v@.subrange(0, i as int);
        let ghost next = v@.subrange(0, i + 1);
        assert(next.drop_last() =~= pre);
        proof {
            lemma_split_nonempty(pre, '+');
            lemma_split_nonempty(next, '+');
        }
        let c = v[i];
        if c == '+' {
            let t = trim_chars(&cur);
            let ghost p0 = pieces@;
            pieces.push(string_of(&t));
            cur = Vec::new();
            assert(svs(pieces@) =~= svs(p0).push(trim(split_char(pre, '+').last())));
            assert(split_char(next, '+') == split_char(pre, '+').push(Seq::<char>::empty()));
            assert(split_char(next, '+').drop_last() =~= split_char(pre, '+'));
            assert(split_char(pre, '+') =~= split_char(pre, '+').drop_last().push(
                split_char(pre, '+').last(),
            ));
            assert(svs(pieces@) =~= split_char(next, '+').drop_last().map_values(
                |p: Seq<char>| trim(p),
            ));
            assert(cur@ =~= split_char(next, '+').last());
        } else {
            cur.push(c);
            assert(split_char(next, '+').drop_last() =~= split_char(pre, '+').drop_last());
            assert(cur@ =~= split_char(next, '+').last());
        }
        i = i + 1;
    }
    assert(v@.subrange(0, n as int) =~= v@);
    let ghost all = split_char(v@, '+');
    proof {
        lemma_split_nonempty(v@, '+');
    }
    let t = trim_chars(&cur);
    let ghost p0 = pieces@;
    pieces.push(string_of(&t));
    assert(all =~= all.drop_last().push(all.last()));
    assert(svs(pieces@) =~= svs(p0).push(trim(all.last())));
    assert(svs(pieces@) =~= all.map_values(|p: Seq<char>| trim(p)));
    pieces
}

/// `s.split(c)`, as owned strings.
pub fn split_on(s: &str, c: char) -> (r: Vec<String>)
    ensures
        svs(r@) == split_char(s@, c),
{
    let v = chars_of(s);
    let n = v.len();
    let mut pieces: Vec<String> = Vec::new();
    let mut cur: Vec<char> = Vec::new();
    let mut i: usize = 0;
    while i < n
        invariant
            n == v@.len(),
            v@ == s@,
            i <= n,
            split_char(v@.subrange(0, i as int), c).len() >= 1,
            svs(pieces@) == split_char(v@.subrange(0, i as int), c).drop_last(),
            cur@ == split_char(v@.subrange(0, i as int), c).last(),
        decreases n - i,
    {
        let ghost pre = v@.subrange(0, i as int);
        let ghost next = v@.subrange(0, i + 1);
        assert(next.drop_last() =~= pre);
        proof {
            lemma_split_nonempty(pre, c);
            lemma_split_nonempty(next, c);
        }
        let d = v[i];
        if d == c {
            let ghost p0 = pieces@;
            pieces.push(string_of(&cur));
            cur = Vec::new();
            assert(svs(pieces@) =~= svs(p0).push(split_char(pre, c).last()));
            assert(split_char(next, c).drop_last() =~= split_char(pre, c));
            assert(split_char(pre, c) =~= split_char(pre, c).drop_last().push(split_char(pre, c).last()));
            assert(cur@ =~= split_char(next, c).last());
        } else {
            cur.push(d);
            assert(split_char(next, c).drop_last() =~= split_char(pre, c).drop_last());
            assert(cur@ =~= split_char(next, c).last());
        }
        i = i + 1;
    }
    assert(v@.subrange(0, n as int) =~= v@);
    let ghost all = split_char(v@, c);
    proof {
        lemma_split_nonempty(v@, c);
    }
    let ghost p0 = pieces@;
    pieces.push(string_of(&cur));
    assert(all =~= all.drop_last().push(all.last()));
    assert(svs(pieces@) =~= svs(p0).push(all.last()));
    pieces
}

/// `s.split_whitespace()`, as owned strings.
pub fn split_words(s: &str) -> (r: Vec<String>)
    ensures
        svs(r@) == words(s@),
{
    let v = chars_of(s);
    let n = v.len();
    let mut pieces: Vec<String> = Vec::new();
    let mut cur: Vec<char> = Vec::new();
    let mut in_word = false;
    let mut i: usize = 0;
    while i < n
        invariant
            n == v@.len(),
            v@ == s@,
            i <= n,
            in_word == (i > 0 && !is_space(v@[i - 1])),
            in_word ==> words(v@.subrange(0, i as int)) == svs(pieces@).push(cur@),
            !in_word ==> words(v@.subrange(0, i as int)) == svs(pieces@),
        decreases n - i,
    {
        let ghost pre = v@.subrange(0, i as int);
        let ghost next = v@.subrange(0, i + 1);
        assert(next.drop_last() =~= pre);
        let c = v[i];
        assert(next.last() == c);
        if char_is_space(c) {
            if in_word {
                let ghost p0 = pieces@;
                pieces.push(string_of(&cur));
                cur = Vec::new();
                assert(svs(pieces@) =~= svs(p0).push(words(pre).last()));
                assert(words(pre) =~= svs(p0).push(words(pre).last()));
            }
            in_word = false;
        } else {
            if in_word {
                assert(next[next.len() - 2] == v@[i - 1]);
                let ghost w0 = words(pre);
                cur.push(c);
                assert(words(next) =~= svs(pieces@).push(cur@));
            } else {
                if i > 0 {
                    assert(next[next.len() - 2] == v@[i - 1]);
                }
                cur = Vec::new();
                cur.push(c);
                assert(cur@ =~= seq![c]);
            }
            in_word = true;
        }
        i = i + 1;
    }
    assert(v@.subrange(0, n as int) =~= v@);
    if in_word {
        let ghost p0 = pieces@;
        pieces.push(string_of(&cur));
        assert(svs(pieces@) =~= svs(p0).push(cur@));
    }
    pieces
}

/// `q` with every ASCII space replaced by '+'.
fn plus_spaces(q: &str) -> (r: String)
    ensures
        r@ == plus_for_spaces(q@),
{
    let v = chars_of(q);
    let mut w: Vec<char> = Vec::new();
    let mut i: usize = 0;
    while i < v.len()
        invariant
            i <= v@.len(),
            w@ == plus_for_spaces(v@.subrange(0, i as int)),
        decreases v@.len() - i,
    {
        let c = v[i];
        w.push(if c == ' ' { '+' } else { c });
        i = i + 1;
        assert(w@ =~= plus_for_spaces(v@.subrange(0, i as int)));
    }
    assert(v@.subrange(0, v@.len() as int) =~= v@);
    string_of(&w)
}

impl StrategySelector {
    /// The strategies to try for `capability_id` with `params` on the
    /// desktop `state`, in order.
    pub fn strategies_for(
        capability_id: &str,
        params: &Vec<(String, String)>,
        state: &DesktopState,
    ) -> (r: Vec<ActionStrategy>)
        ensures
            stviews(r@) == strategies_spec(
                capability_id@,
                pviews(params@),
                titles_of(state@.windows),
            ),
            r@.len() > 0,
    {
        proof {
            lemma_strategies_nonempty(capability_id@, pviews(params@), titles_of(state@.windows));
        }
        let cap = capability_id;
        if str_eq(cap, "desktop.window.focus") {
            let title = match get_param(params, "title") {
                Some(t) => t,
                None => param_or_default(params, "id"),
            };
            Self::focus_window_strategies(title.as_str(), state)
        } else if str_eq(cap, "desktop.window.close") {
            let title = param_or_default(params, "id");
            Self::close_window_strategies(title.as_str())
        } else if str_eq(cap, "desktop.app.launch") {
            let app = param_or_default(params, "app");
            one(ActionStrategy::LaunchApp { app })
        } else if str_eq(cap, "input.mouse.move") {
            let x = int_param_exec(params, "x");
            let y = int_param_exec(params, "y");
            one(ActionStrategy::MouseMove { x, y })
        } else if str_eq(cap, "input.mouse.click") {
            let button = match get_param(params, "button") {
                Some(b) => b,
                None => owned("1"),
            };
            one(ActionStrategy::MouseClick { button })
        } else if str_eq(cap, "input.keyboard.type") {
            let text = param_or_default(params, "text");
            one(ActionStrategy::KeyboardType { text })
        } else if str_eq(cap, "input.keyboard.combo") || str_eq(cap, "input.keyboard.shortcut") {
            let raw = match get_param(params, "keys") {
                Some(k) => k,
                None => param_or_default(params, "shortcut"),
            };
            let keys = split_keys(raw.as_str());
            one(ActionStrategy::KeyboardCombo { keys })
        } else if str_eq(cap, "desktop.clipboard.set") {
            let text = param_or_default(params, "text");
            one(ActionStrategy::ClipboardSet { text })
        } else if str_eq(cap, "browser.open_url") || str_eq(cap, "open_website") {
            let url = param_or_default(params, "url");
            if url.as_str().unicode_len() == 0 {
                one(ActionStrategy::Noop)
            } else {
                one(ActionStrategy::OpenUrl { url })
            }
        } else if str_eq(cap, "search_web") || str_eq(cap, "search") {
            let query = param_or_default(params, "query");
            if query.as_str().unicode_len() == 0 {
                one(ActionStrategy::Noop)
            } else {
                let mut url = String::from_str("https://google.com/search?q=");
                let enc = plus_spaces(query.as_str());
                url.append(enc.as_str());
                one(ActionStrategy::OpenUrl { url })
            }
        } else if str_eq(cap, "wait") || str_eq(cap, "delay") || str_eq(cap, "sleep") {
            let ms = match get_param(params, "ms") {
                Some(v) => match parse_u64_opt(v.as_str()) {
                    Some(n) => n,
                    None => 500,
                },
                None => 500,
            };
            one(ActionStrategy::WaitMs { duration_ms: ms })
        } else {
            let command = match get_param(params, "command") {
                Some(c) => split_words(c.as_str()),
                None => Vec::new(),
            };
            assert(svs(Seq::<String>::empty()) =~= Seq::<Seq<char>>::empty());
            if command.len() > 0 {
                one(ActionStrategy::ShellCommand { command })
            } else {
                one(ActionStrategy::Noop)
            }
        }
    }

    fn focus_window_strategies(title: &str, state: &DesktopState) -> (r: Vec<ActionStrategy>)
        ensures
            stviews(r@) == focus_strategies(title@, titles_of(state@.windows)),
    {
        let mut strategies: Vec<ActionStrategy> = Vec::new();
        strategies.push(ActionStrategy::FocusWindow { title: owned(title), partial: false });
        let wanted = to_lowercase(title);
        let ghost titles = titles_of(state@.windows);
        let n = state.windows.len();
        let mut found = false;
        let mut i: usize = 0;
        while i < n && !found
            invariant
                n == state.windows@.len(),
                titles == titles_of(state@.windows),
                wanted@ == lowercase(title@),
                i <= n,
                found == any_title_matches(titles.subrange(0, i as int), title@),
            decreases n - i,
        {
            let low = to_lowercase(state.windows[i].title.as_str());
            let hit = str_contains(low.as_str(), wanted.as_str());
            let ghost pre = titles.subrange(0, i as int);
            let ghost next = titles.subrange(0, i + 1);
            assert(titles[i as int] == state.windows@[i as int].title@);
            assert(next[i as int] == titles[i as int]);
            if hit {
                assert(contains_seq(lowercase(next[i as int]), lowercase(title@)));
            } else {
                assert forall|k: int| 0 <= k < next.len() implies !#[trigger] contains_seq(
                    lowercase(next[k]),
                    lowercase(title@),
                ) by {
                    if k < i {
                        assert(next[k] == pre[k]);
                    }
                }
            }
            found = hit;
            i = i + 1;
        }
        if found {
            assert forall|k: int| 0 <= k < i implies titles.subrange(0, i as int)[k] == titles[k] by {}
            let ghost w = choose|k: int|
                0 <= k < i && #[trigger] contains_seq(
                    lowercase(titles.subrange(0, i as int)[k]),
                    lowercase(title@),
                );
            assert(contains_seq(lowercase(titles[w]), lowercase(title@)));
            strategies.push(ActionStrategy::FocusWindow { title: owned(title), partial: true });
        } else {
            assert(titles.subrange(0, n as int) =~= titles);
        }
        assert(stviews(strategies@) =~= focus_strategies(title@, titles));
        strategies
    }

    fn close_window_strategies(title: &str) -> (r: Vec<ActionStrategy>)
        ensures
            stviews(r@) == seq![
                StrategyView::CloseWindow { title: title@ },
                StrategyView::KeyboardCombo { keys: seq!["alt"@, "F4"@] },
            ],
    {
        let keys = vec![owned("alt"), owned("F4")];
        assert(svs(keys@) =~= seq!["alt"@, "F4"@]);
        let r = vec![
            ActionStrategy::CloseWindow { title: owned(title) },
            ActionStrategy::KeyboardCombo { keys },
        ];
        assert(stviews(r@) =~= seq![
            StrategyView::CloseWindow { title: title@ },
            StrategyView::KeyboardCombo { keys: seq!["alt"@, "F4"@] },
        ]);
        r
    }
}

} // verus!
