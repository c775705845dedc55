//! Outcome verification: compares the desktop before and after an action
//! to decide whether it had the expected effect, with generic desktop
//! observations only.

use vstd::prelude::*;

use crate::desktop::{
    get_param, opt_view, param_lookup, param_or_default, param_or_empty, pviews, DesktopState,
    DesktopStateView,
};
use crate::desktop_strategy::int_param;
use crate::numbers::{parse_i32_opt, push_signed, signed_decimal};
use crate::text::{decimal, owned, push_decimal, str_eq};

verus! {

/// Result of verifying an action's outcome.
#[derive(Debug)]
pub enum VerificationResult {
    Success,
    PartialSuccess { reason: String },
    Failed { reason: String },
}

pub enum VerificationView {
    Success,
    PartialSuccess { reason: Seq<char> },
    Failed { reason: Seq<char> },
}

impl View for VerificationResult {
    type V = VerificationView;

    open spec fn view(&self) -> VerificationView {
        match self {
            VerificationResult::Success => VerificationView::Success,
            VerificationResult::PartialSuccess { reason } => VerificationView::PartialSuccess {
                reason: reason@,
            },
            VerificationResult::Failed { reason } => VerificationView::Failed { reason: reason@ },
        }
    }
}

impl Clone for VerificationResult {
    fn clone(&self) -> (r: Self)
        ensures
            r@ == self@,
    {
        match self {
            VerificationResult::Success => VerificationResult::Success,
            VerificationResult::PartialSuccess { reason } => VerificationResult::PartialSuccess {
                reason: reason.clone(),
            },
            VerificationResult::Failed { reason } => VerificationResult::Failed {
                reason: reason.clone(),
            },
        }
    }
}

impl VerificationResult {
    /// Only a full success counts.
    pub fn is_success(&self) -> (b: bool)
        ensures
            b == (self@ is Success),
    {
        match self {
            VerificationResult::Success => true,
            _ => false,
        }
    }
}

/// The focused window's id, if a window is focused.
pub open spec fn focused_id(s: DesktopStateView) -> Option<Seq<char>> {
    match s.focused_window {
        Some(w) => Some(w.window_id),
        None => None,
    }
}

/// Did anything observable change between `before` and `after`?
pub open spec fn state_changed(before: DesktopStateView, after: DesktopStateView) -> bool {
    after.windows.len() != before.windows.len()
        || focused_id(after) != focused_id(before)
        || after.cursor_position != before.cursor_position
        || after.clipboard != before.clipboard
}

pub open spec fn verify_state_changed_spec(
    before: DesktopStateView,
    after: DesktopStateView,
) -> VerificationView {
    if state_changed(before, after) {
        VerificationView::Success
    } else {
        VerificationView::PartialSuccess { reason: "no observable change detected"@ }
    }
}

/// Distance from `a` to `b` is under 10 on both axes.
pub open spec fn near(a: (i32, i32), tx: int, ty: int) -> bool {
    -10 < a.0 - tx < 10 && -10 < a.1 - ty < 10
}

pub open spec fn mouse_reason(at: (i32, i32), tx: int, ty: int) -> Seq<char> {
    "cursor at ("@ + signed_decimal(at.0 as int) + ","@ + signed_decimal(at.1 as int)
        + "), expected near ("@ + signed_decimal(tx) + ","@ + signed_decimal(ty) + ")"@
}

pub open spec fn window_count_reason(was: nat, now: nat) -> Seq<char> {
    "window count did not decrease (was "@ + decimal(was) + ", now "@ + decimal(now) + ")"@
}

/// The verdict on capability `cap` with parameters `ps`, given the desktop
/// before and after the action.
pub open spec fn verify_spec(
    cap: Seq<char>,
    ps: Seq<(Seq<char>, Seq<char>)>,
    before: DesktopStateView,
    after: DesktopStateView,
) -> VerificationView {
    if cap == "desktop.window.focus"@ {
        if after.focused_window is Some {
            VerificationView::Success
        } else {
            VerificationView::PartialSuccess { reason: "no window appears focused"@ }
        }
    } else if cap == "desktop.window.close"@ {
        if after.windows.len() < before.windows.len() {
            VerificationView::Success
        } else {
            VerificationView::Failed {
                reason: window_count_reason(before.windows.len(), after.windows.len()),
            }
        }
    } else if cap == "desktop.app.launch"@ {
        if after.windows.len() > before.windows.len() {
            VerificationView::Success
        } else {
            VerificationView::PartialSuccess { reason: "no new window appeared"@ }
        }
    } else if cap == "input.mouse.move"@ {
        let tx = int_param(ps, "x"@) as int;
        let ty = int_param(ps, "y"@) as int;
        if near(after.cursor_position, tx, ty) {
            VerificationView::Success
        } else {
            VerificationView::Failed { reason: mouse_reason(after.cursor_position, tx, ty) }
        }
    } else if cap == "input.mouse.click"@ {
        VerificationView::Success
    } else if cap == "input.keyboard.type"@ {
        verify_state_changed_spec(before, after)
    } else if cap == "desktop.clipboard.set"@ {
        let expected = param_or_empty(ps, "text"@);
        if after.clipboard == Some(expected) {
            VerificationView::Success
        } else if after.clipboard is Some {
            VerificationView::PartialSuccess {
                reason: "clipboard content changed but does not match expected"@,
            }
        } else {
            VerificationView::Failed { reason: "clipboard is empty"@ }
        }
    } else {
        verify_state_changed_spec(before, after)
    }
}

/// Compares desktop snapshots.
pub struct VerificationEngine;

fn opt_str_eq(a: &Option<String>, b: &Option<String>) -> (r: bool)
    ensures
        r == (opt_view(*a) == opt_view(*b)),
{
    match (a, b) {
        (Some(x), Some(y)) => str_eq(x.as_str(), y.as_str()),
        (None, None) => true,
        _ => false,
    }
}

fn i32_param(params: &Vec<(String, String)>, key: &str) -> (r: i32)
    ensures
        r == int_param(pviews(params@), key@),
{
    match get_param(params, key) {
        Some(v) => match parse_i32_opt(v.as_str()) {
            Some(n) => n,
            None => 0,
        },
        None => 0,
    }
}

impl VerificationEngine {
    /// Whether the action on `capability_id` had the expected effect.
    pub fn verify(
        capability_id: &str,
        params: &Vec<(String, String)>,
        before: &DesktopState,
        after: &DesktopState,
    ) -> (r: VerificationResult)
        ensures
            r@ == verify_spec(capability_id@, pviews(params@), before@, after@),
    {
        let cap = capability_id;
        if str_eq(cap, "desktop.window.focus") {
            Self::verify_window_focus(after)
        } else if str_eq(cap, "desktop.window.close") {
            Self::verify_window_closed(before, after)
        } else if str_eq(cap, "desktop.app.launch") {
            Self::verify_window_count_increased(before, after)
        } else if str_eq(cap, "input.mouse.move") {
            Self::verify_mouse_moved(params, after)
        } else if str_eq(cap, "input.mouse.click") {
            VerificationResult::Success
        } else if str_eq(cap, "input.keyboard.type") {
            Self::verify_state_changed(before, after)
        } else if str_eq(cap, "desktop.clipboard.set") {
            Self::verify_clipboard_set(params, after)
        } else {
            Self::verify_state_changed(before, after)
        }
    }

    fn verify_window_focus(after: &DesktopState) -> (r: VerificationResult)
        ensures
            r@ == (if after@.focused_window is Some {
                VerificationView::Success
            } else {
                VerificationView::PartialSuccess { reason: "no window appears focused"@ }
            }),
    {
        if after.focused_window.is_some() {
            VerificationResult::Success
        } else {
            VerificationResult::PartialSuccess { reason: owned("no window appears focused") }
        }
    }

    fn verify_window_closed(before: &DesktopState, after: &DesktopState) -> (r: VerificationResult)
        ensures
            r@ == (if after@.windows.len() < before@.windows.len() {
                VerificationView::Success
            } else {
                VerificationView::Failed {
                    reason: window_count_reason(before@.windows.len(), after@.windows.len()),
                }
            }),
    {
        let b = before.windows.len();
        let a = after.windows.len();
        if a < b {
            VerificationResult::Success
        } else {
            let mut reason = String::from_str("window count did not decrease (was ");
            push_decimal(&mut reason, b as u64);
            reason.append(", now ");
            push_decimal(&mut reason, a as u64);
            reason.append(")");
            VerificationResult::Failed { reason }
        }
    }

    fn verify_window_count_increased(before: &DesktopState, after: &DesktopState) -> (r:
        VerificationResult)
        ensures
            r@ == (if after@.windows.len() > before@.windows.len() {
                VerificationView::Success
            } else {
                VerificationView::PartialSuccess { reason: "no new window appeared"@ }
            }),
    {
        if after.windows.len() > before.windows.len() {
            VerificationResult::Success
        } else {
            VerificationResult::PartialSuccess { reason: owned("no new window appeared") }
        }
    }

    fn verify_mouse_moved(params: &Vec<(String, String)>, after: &DesktopState) -> (r:
        VerificationResult)
        ensures
            r@ == (if near(
                after@.cursor_position,
                int_param(pviews(params@), "x"@) as int,
                int_param(pviews(params@), "y"@) as int,
            ) {
                VerificationView::Success
            } else {
                VerificationView::Failed {
                    reason: mouse_reason(
                        after@.cursor_position,
                        int_param(pviews(params@), "x"@) as int,
                        int_param(pviews(params@), "y"@) as int,
                    ),
                }
            }),
    {
        let tx = i32_param(params, "x");
        let ty = i32_param(params, "y");
        let (ax, ay) = after.cursor_position;
        let dx: i64 = ax as i64 - tx as i64;
        let dy: i64 = ay as i64 - ty as i64;
        if -10 < dx && dx < 10 && -10 < dy && dy < 10 {
            VerificationResult::Success
        } else {
            let mut reason = String::from_str("cursor at (");
            push_signed(&mut reason, ax as i64);
            reason.append(",");
            push_signed(&mut reason, ay as i64);
            reason.append("), expected near (");
            push_signed(&mut reason, tx as i64);
            reason.append(",");
            push_signed(&mut reason, ty as i64);
            reason.append(")");
            VerificationResult::Failed { reason }
        }
    }

    fn verify_clipboard_set(params: &Vec<(String, String)>, after: &DesktopState) -> (r:
        VerificationResult)
        ensures
            r@ == (if after@.clipboard == Some(param_or_empty(pviews(params@), "text"@)) {
                VerificationView::Success
            } else if after@.clipboard is Some {
                VerificationView::PartialSuccess {
                    reason: "clipboard content changed but does not match expected"@,
                }
            } else {
                VerificationView::Failed { reason: "clipboard is empty"@ }
            }),
    {
        let expected = param_or_default(params, "text");
        match &after.clipboard {
            Some(c) => {
                if str_eq(c.as_str(), expected.as_str()) {
                    VerificationResult::Success
                } else {
                    VerificationResult::PartialSuccess {
                        reason: owned("clipboard content changed but does not match expected"),
                    }
                }
            },
            None => VerificationResult::Failed { reason: owned("clipboard is empty") },
        }
    }

    fn verify_state_changed(before: &DesktopState, after: &DesktopState) -> (r: VerificationResult)
        ensures
            r@ == verify_state_changed_spec(before@, after@),
    {
        let ids_differ = match (&after.focused_window, &before.focused_window) {
            (Some(a), Some(b)) => !str_eq(a.window_id.as_str(), b.window_id.as_str()),
            (None, None) => false,
            _ => true,
        };
        if after.windows.len() != before.windows.len() || ids_differ
            || after.cursor_position.0 != before.cursor_position.0
            || after.cursor_position.1 != before.cursor_position.1 || !opt_str_eq(
            &after.clipboard,
            &before.clipboard,
        ) {
            VerificationResult::Success
        } else {
            VerificationResult::PartialSuccess { reason: owned("no observable change detected") }
        }
    }
}

} // verus!
