//! What the desktop operator sees of the desktop, and the actions it is
//! asked to perform. A snapshot holds the plain values that strategy
//! selection and verification read; the observer fills it.

use vstd::prelude::*;

use crate::text::{owned, str_eq};

verus! {

/// One open window.
#[derive(Debug)]
pub struct WindowInfo {
    pub window_id: String,
    pub title: String,
}

pub struct WindowInfoView {
    pub window_id: Seq<char>,
    pub title: Seq<char>,
}

impl View for WindowInfo {
    type V = WindowInfoView;

    open spec fn view(&self) -> WindowInfoView {
        WindowInfoView { window_id: self.window_id@, title: self.title@ }
    }
}

impl Clone for WindowInfo {
    fn clone(&self) -> (r: Self)
        ensures
            r@ == self@,
    {
        WindowInfo { window_id: self.window_id.clone(), title: self.title.clone() }
    }
}

/// A snapshot of the desktop.
#[derive(Debug)]
pub struct DesktopState {
    pub windows: Vec<WindowInfo>,
    pub focused_window: Option<WindowInfo>,
    pub cursor_position: (i32, i32),
    pub clipboard: Option<String>,
}

pub struct DesktopStateView {
    pub windows: Seq<WindowInfoView>,
    pub focused_window: Option<WindowInfoView>,
    pub cursor_position: (i32, i32),
    pub clipboard: Option<Seq<char>>,
}

pub open spec fn wviews(s: Seq<WindowInfo>) -> Seq<WindowInfoView> {
    s.map_values(|w: WindowInfo| w@)
}

pub open spec fn opt_view(o: Option<String>) -> Option<Seq<char>> {
    match o {
        Some(s) => Some(s@),
        None => None,
    }
}

impl View for DesktopState {
    type V = DesktopStateView;

    open spec fn view(&self) -> DesktopStateView {
        DesktopStateView {
            windows: wviews(self.windows@),
            focused_window: match self.focused_window {
                Some(w) => Some(w@),
                None => None,
            },
            cursor_position: self.cursor_position,
            clipboard: opt_view(self.clipboard),
        }
    }
}

impl DesktopState {
    /// A desktop with no windows, no focus, the cursor at the origin and an
    /// empty clipboard (what an observer that failed reports).
    pub fn empty() -> (s: Self)
        ensures
            s@.windows.len() == 0,
            s@.focused_window is None,
            s@.cursor_position == (0i32, 0i32),
            s@.clipboard is None,
    {
        let s = DesktopState {
            windows: Vec::new(),
            focused_window: None,
            cursor_position: (0, 0),
            clipboard: None,
        };
        assert(wviews(s.windows@) =~= Seq::<WindowInfoView>::empty());
        s
    }
}

/// Parameters of an action, as (name, value) pairs.
pub open spec fn pviews(s: Seq<(String, String)>) -> Seq<(Seq<char>, Seq<char>)> {
    s.map_values(|p: (String, String)| (p.0@, p.1@))
}

/// The value of the first parameter named `key`.
pub open spec fn param_lookup(ps: Seq<(Seq<char>, Seq<char>)>, key: Seq<char>) -> Option<Seq<char>>
    decreases ps.len(),
{
    if ps.len() == 0 {
        None
    } else if ps[0].0 == key {
        Some(ps[0].1)
    } else {
        param_lookup(ps.drop_first(), key)
    }
}

/// The value of parameter `key`, or the empty string.
pub open spec fn param_or_empty(ps: Seq<(Seq<char>, Seq<char>)>, key: Seq<char>) -> Seq<char> {
    match param_lookup(ps, key) {
        Some(v) => v,
        None => Seq::empty(),
    }
}

/// The value of the first parameter named `key`.
pub fn get_param(params: &Vec<(String, String)>, key: &str) -> (r: Option<String>)
    ensures
        opt_view(r) == param_lookup(pviews(params@), key@),
{
    let ghost ps = pviews(params@);
    let n = params.len();
    let mut i: usize = 0;
    assert(ps.subrange(0, n as int) =~= ps);
    while i < n
        invariant
            n == params@.len(),
            ps == pviews(params@),
            i <= n,
            param_lookup(ps, key@) == param_lookup(ps.subrange(i as int, n as int), key@),
        decreases n - i,
    {
        let ghost rest = ps.subrange(i as int, n as int);
        assert(rest[0] == (params@[i as int].0@, params@[i as int].1@));
        if str_eq(params[i].0.as_str(), key) {
            return Some(params[i].1.clone());
        }
        assert(rest.drop_first() =~= ps.subrange(i + 1, n as int));
        i = i + 1;
    }
    None
}

/// The value of parameter `key`, or the empty string.
pub fn param_or_default(params: &Vec<(String, String)>, key: &str) -> (r: String)
    ensures
        r@ == param_or_empty(pviews(params@), key@),
{
    match get_param(params, key) {
        Some(v) => v,
        None => String::new(),
    }
}

/// A desktop action: a capability and its parameters.
#[derive(Debug)]
pub struct Action {
    pub capability_id: String,
    pub params: Vec<(String, String)>,
}

impl Action {
    /// An action on `capability_id` with no parameters.
    pub fn new(capability_id: &str) -> (a: Self)
        ensures
            a.capability_id@ == capability_id@,
            a.params@.len() == 0,
    {
        Action { capability_id: owned(capability_id), params: Vec::new() }
    }
}

} // verus!
