//! The desktop operator's decisions: how each attempted strategy updates
//! the result of an action (observe, execute and observe again happen
//! outside), and how the agent classifies a request and reports results.

use vstd::prelude::*;

use crate::desktop::{opt_view, param_lookup, pviews, Action, DesktopState};
use crate::desktop_strategy::{svs, ActionStrategy, StrategyView};
use crate::numbers::{push_signed, signed_decimal};
use crate::desktop_verify::{verify_spec, VerificationEngine, VerificationResult, VerificationView};
use crate::text::{
    byte_len, decimal, join_seq, join_strings, owned, push_decimal, str_eq, string_views, trim,
    trimmed, utf8_len,
};

verus! {

/// The name of a strategy's variant (what the operator reports as the
/// strategy it used).
pub open spec fn strategy_name(s: StrategyView) -> Seq<char> {
    match s {
        StrategyView::FocusWindow { .. } => "FocusWindow"@,
        StrategyView::CloseWindow { .. } => "CloseWindow"@,
        StrategyView::OpenUrl { .. } => "OpenUrl"@,
        StrategyView::LaunchApp { .. } => "LaunchApp"@,
        StrategyView::MouseMove { .. } => "MouseMove"@,
        StrategyView::MouseClick { .. } => "MouseClick"@,
        StrategyView::MouseMoveClick { .. } => "MouseMoveClick"@,
        StrategyView::KeyboardType { .. } => "KeyboardType"@,
        StrategyView::KeyboardCombo { .. } => "KeyboardCombo"@,
        StrategyView::ClipboardSet { .. } => "ClipboardSet"@,
        StrategyView::ShellCommand { .. } => "ShellCommand"@,
        StrategyView::WaitMs { .. } => "WaitMs"@,
        StrategyView::Noop => "Noop"@,
    }
}

/// The variant name of `s`.
pub fn strategy_label(s: &ActionStrategy) -> (r: String)
    ensures
        r@ == strategy_name(s@),
{
    match s {
        ActionStrategy::FocusWindow { .. } => owned("FocusWindow"),
        ActionStrategy::CloseWindow { .. } => owned("CloseWindow"),
        ActionStrategy::OpenUrl { .. } => owned("OpenUrl"),
        ActionStrategy::LaunchApp { .. } => owned("LaunchApp"),
        ActionStrategy::MouseMove { .. } => owned("MouseMove"),
        ActionStrategy::MouseClick { .. } => owned("MouseClick"),
        ActionStrategy::MouseMoveClick { .. } => owned("MouseMoveClick"),
        ActionStrategy::KeyboardType { .. } => owned("KeyboardType"),
        ActionStrategy::KeyboardCombo { .. } => owned("KeyboardCombo"),
        ActionStrategy::ClipboardSet { .. } => owned("ClipboardSet"),
        ActionStrategy::ShellCommand { .. } => owned("ShellCommand"),
        ActionStrategy::WaitMs { .. } => owned("WaitMs"),
        ActionStrategy::Noop => owned("Noop"),
    }
}

/// What executing one strategy gave: the desktop observed afterwards, or
/// the execution error and the desktop observed after it.
pub enum AttemptOutcome {
    Executed { after: DesktopState },
    Failed { error: String, after: DesktopState },
}

/// The result of carrying out one action.
#[derive(Debug)]
pub struct ActionResult {
    pub capability_id: String,
    pub success: bool,
    pub strategy_used: String,
    pub attempts: u32,
    pub before_state: DesktopState,
    pub after_state: DesktopState,
    pub verification: VerificationResult,
    pub error: Option<String>,
}

impl ActionResult {
    /// Before any strategy was tried: no success, strategy "none", no
    /// attempts, and a failed verification that says so.
    pub fn begin(capability_id: &str, before: DesktopState, after: DesktopState) -> (r: Self)
        ensures
            r.capability_id@ == capability_id@,
            !r.success,
            r.strategy_used@ == "none"@,
            r.attempts == 0,
            r.before_state@ == before@,
            r.after_state@ == after@,
            r.verification@ == (VerificationView::Failed { reason: "no strategies attempted"@ }),
            r.error is None,
    {
        ActionResult {
            capability_id: owned(capability_id),
            success: false,
            strategy_used: owned("none"),
            attempts: 0,
            before_state: before,
            after_state: after,
            verification: VerificationResult::Failed { reason: owned("no strategies attempted") },
            error: None,
        }
    }

    /// Records one attempt of `strategy` for `action`. An executed strategy
    /// is verified against the desktop before the action; a verified one
    /// ends the action with success. Returns whether to stop trying.
    pub fn record_attempt(
        &mut self,
        action: &Action,
        strategy: &ActionStrategy,
        outcome: AttemptOutcome,
    ) -> (stop: bool)
        requires
            old(self).attempts < u32::MAX,
            !old(self).success,
        ensures
            final(self).attempts == old(self).attempts + 1,
            final(self).strategy_used@ == strategy_name(strategy@),
            final(self).capability_id@ == old(self).capability_id@,
            final(self).before_state@ == old(self).before_state@,
            match outcome {
                AttemptOutcome::Executed { after } => {
                    let v = verify_spec(
                        action.capability_id@,
                        pviews(action.params@),
                        old(self).before_state@,
                        after@,
                    );
                    &&& final(self).after_state@ == after@
                    &&& final(self).verification@ == v
                    &&& final(self).success == (v is Success)
                    &&& stop == (v is Success)
                    &&& (v is Success) ==> opt_view(final(self).error) == opt_view(old(self).error)
                    &&& !(v is Success) ==> opt_view(final(self).error) == Some("verification failed"@)
                },
                AttemptOutcome::Failed { error, after } => {
                    &&& final(self).after_state@ == after@
                    &&& final(self).verification@ == old(self).verification@
                    &&& !final(self).success
                    &&& !stop
                    &&& opt_view(final(self).error) == Some(error@)
                },
            },
    {
        self.attempts = self.attempts + 1;
        self.strategy_used = strategy_label(strategy);
        match outcome {
            AttemptOutcome::Executed { after } => {
                let v = VerificationEngine::verify(
                    action.capability_id.as_str(),
                    &action.params,
                    &self.before_state,
                    &after,
                );
                self.after_state = after;
                let ok = v.is_success();
                self.verification = v;
                if ok {
                    self.success = true;
                    true
                } else {
                    self.error = Some(owned("verification failed"));
                    false
                }
            },
            AttemptOutcome::Failed { error, after } => {
                self.error = Some(error);
                self.after_state = after;
                false
            },
        }
    }
}

/// How the agent treats a line of input.
pub enum InputKind {
    /// Nothing but whitespace: answered with an empty reply.
    Empty,
    /// `help` or `?`: answered with the help text.
    Help,
    /// Anything else, trimmed, goes to the brain.
    Request { text: String },
}

/// Classifies a line of user input.
pub fn classify_input(input: &str) -> (k: InputKind)
    ensures
        trim(input@).len() == 0 <==> k is Empty,
        (trim(input@) == "help"@ || trim(input@) == "?"@) && trim(input@).len() > 0 <==> k is Help,
        k matches InputKind::Request { text } ==> text@ == trim(input@),
{
    let t = trimmed(input);
    if t.as_str().unicode_len() == 0 {
        InputKind::Empty
    } else if str_eq(t.as_str(), "help") || str_eq(t.as_str(), "?") {
        InputKind::Help
    } else {
        InputKind::Request { text: t }
    }
}

pub open spec fn help_spec() -> Seq<char> {
    "AI-OS Desktop Agent\nDescribe what you'd like done in natural language.\nThe Brain will understand, plan, and request actions.\nThe Desktop Operator executes each action one at a time."@
}

/// The agent's help text.
pub fn help_text() -> (s: String)
    ensures
        s@ == help_spec(),
{
    owned(
        "AI-OS Desktop Agent\nDescribe what you'd like done in natural language.\nThe Brain will understand, plan, and request actions.\nThe Desktop Operator executes each action one at a time.",
    )
}

/// The report line for one action.
pub open spec fn action_line_spec(
    cap: Seq<char>,
    success: bool,
    strategy: Seq<char>,
    attempts: nat,
    error: Option<Seq<char>>,
) -> Seq<char> {
    if success {
        "  [ok] "@ + cap + " (strategy: "@ + strategy + ", "@ + decimal(attempts) + " attempt(s))"@
    } else {
        "  [!!] "@ + cap + " (failed after "@ + decimal(attempts) + " attempt(s): "@ + (match error {
            Some(e) => e,
            None => "unknown"@,
        }) + ")"@
    }
}

/// The report line for one action's result.
pub fn action_line(r: &ActionResult) -> (s: String)
    ensures
        s@ == action_line_spec(
            r.capability_id@,
            r.success,
            r.strategy_used@,
            r.attempts as nat,
            opt_view(r.error),
        ),
{
    let mut s: String;
    if r.success {
        s = String::from_str("  [ok] ");
        s.append(r.capability_id.as_str());
        s.append(" (strategy: ");
        s.append(r.strategy_used.as_str());
        s.append(", ");
        push_decimal(&mut s, r.attempts as u64);
        s.append(" attempt(s))");
    } else {
        s = String::from_str("  [!!] ");
        s.append(r.capability_id.as_str());
        s.append(" (failed after ");
        push_decimal(&mut s, r.attempts as u64);
        s.append(" attempt(s): ");
        match &r.error {
            Some(e) => s.append(e.as_str()),
            None => s.append("unknown"),
        }
        s.append(")");
    }
    s
}

/// The agent's reply: the brain's summary, followed by the action report
/// lines when any action ran.
pub open spec fn reply_spec(summary: Seq<char>, lines: Seq<Seq<char>>) -> Seq<char> {
    if lines.len() == 0 {
        summary
    } else {
        summary + "\n\nActions:\n"@ + join_seq(lines, "\n"@)
    }
}

/// Composes the agent's reply.
pub fn compose_reply(summary: &str, lines: &Vec<String>) -> (s: String)
    ensures
        s@ == reply_spec(summary@, string_views(lines@)),
{
    if lines.len() == 0 {
        owned(summary)
    } else {
        let mut s = String::from_str(summary);
        s.append("\n\nActions:\n");
        let j = join_strings(lines, "\n");
        s.append(j.as_str());
        s
    }
}

pub open spec fn without_key(
    ps: Seq<(Seq<char>, Seq<char>)>,
    key: Seq<char>,
) -> Seq<(Seq<char>, Seq<char>)> {
    ps.filter(|p: (Seq<char>, Seq<char>)| p.0 != key)
}

proof fn lemma_filter_push_pair(
    s: Seq<(Seq<char>, Seq<char>)>,
    f: spec_fn((Seq<char>, Seq<char>)) -> bool,
    x: (Seq<char>, Seq<char>),
)
    ensures
        s.push(x).filter(f) == (if f(x) { s.filter(f).push(x) } else { s.filter(f) }),
{
    reveal(Seq::filter);
    assert(s.push(x).drop_last() =~= s);
}

/// The action for one tool requirement of a plan: the capability is the
/// `__cap` input (else `fallback_capability`), and the parameters are the
/// other inputs, in order.
pub fn requirement_action(inputs: &Vec<(String, String)>, fallback_capability: &str) -> (a: Action)
    ensures
        a.capability_id@ == (match param_lookup(pviews(inputs@), "__cap"@) {
            Some(c) => c,
            None => fallback_capability@,
        }),
        pviews(a.params@) == without_key(pviews(inputs@), "__cap"@),
{
    let cap = match crate::desktop::get_param(inputs, "__cap") {
        Some(c) => c,
        None => owned(fallback_capability),
    };
    let ghost ps = pviews(inputs@);
    let ghost f = |p: (Seq<char>, Seq<char>)| p.0 != "__cap"@;
    let mut params: Vec<(String, String)> = Vec::new();
    let n = inputs.len();
    let mut i: usize = 0;
    while i < n
        invariant
            n == inputs@.len(),
            ps == pviews(inputs@),
            f == (|p: (Seq<char>, Seq<char>)| p.0 != "__cap"@),
            i <= n,
            pviews(params@) == ps.subrange(0, i as int).filter(f),
        decreases n - i,
    {
        let ghost pre = ps.subrange(0, i as int);
        assert(ps.subrange(0, i + 1) =~= pre.push(ps[i as int]));
        proof {
            lemma_filter_push_pair(pre, f, ps[i as int]);
        }
        let k = &inputs[i].0;
        if !str_eq(k.as_str(), "__cap") {
            let ghost p0 = params@;
            params.push((k.clone(), inputs[i].1.clone()));
            assert(pviews(params@) =~= pviews(p0).push(ps[i as int]));
        }
        i = i + 1;
    }
    assert(ps.subrange(0, n as int) =~= ps);
    Action { capability_id: cap, params }
}

/// The outside call a strategy step makes.
#[derive(Debug, Clone, Copy, PartialEq, Eq, Structural)]
pub enum KernelStep {
    Focus,
    Close,
    OpenUrl,
    Launch,
    MouseMove,
    Click,
    Type,
    KeyCombo,
    ClipboardSet,
    Command,
}

/// How the failure of a step is reported, before its error text.
pub open spec fn step_label(s: KernelStep) -> Seq<char> {
    match s {
        KernelStep::Focus => "focus failed: "@,
        KernelStep::Close => "close failed: "@,
        KernelStep::OpenUrl => "open URL failed: "@,
        KernelStep::Launch => "launch failed: "@,
        KernelStep::MouseMove => "mousemove failed: "@,
        KernelStep::Click => "click failed: "@,
        KernelStep::Type => "type failed: "@,
        KernelStep::KeyCombo => "key combo failed: "@,
        KernelStep::ClipboardSet => "clipboard set failed: "@,
        KernelStep::Command => "command failed: "@,
    }
}

fn step_label_text(s: KernelStep) -> (r: &'static str)
    ensures
        r@ == step_label(s),
{
    match s {
        KernelStep::Focus => "focus failed: ",
        KernelStep::Close => "close failed: ",
        KernelStep::OpenUrl => "open URL failed: ",
        KernelStep::Launch => "launch failed: ",
        KernelStep::MouseMove => "mousemove failed: ",
        KernelStep::Click => "click failed: ",
        KernelStep::Type => "type failed: ",
        KernelStep::KeyCombo => "key combo failed: ",
        KernelStep::ClipboardSet => "clipboard set failed: ",
        KernelStep::Command => "command failed: ",
    }
}

/// What the outside work of a strategy reported.
pub enum StrategyRun {
    /// Every outside call succeeded; `stdout` is what a command printed
    /// (empty for the other strategies).
    Succeeded { stdout: String },
    /// The outside call of `step` failed with `error`.
    CallFailed { step: KernelStep, error: String },
    /// The command ran and exited unsuccessfully, with its exit code when
    /// it had one, and what it printed on its error stream.
    CommandExited { code: Option<i32>, stderr: String },
}

/// What `format!("{:?}", keys)` gives for a list of strings.
pub uninterp spec fn debug_string_list(keys: Seq<Seq<char>>) -> Seq<char>;

/// Calls std's `Debug` formatting of a list of strings
/// (`format!("{:?}", keys)`): the strings quoted and escaped, separated by
/// ", ", in brackets. The text depends on the characters alone; it is
/// named, not spelled out.
#[verifier::external_body]
fn debug_keys(keys: &Vec<String>) -> (r: String)
    ensures
        r@ == debug_string_list(svs(keys@)),
{
    format!("{:?}", keys)
}

/// A point as the operator reports it: "(x, y)".
pub open spec fn pair_text(x: i32, y: i32) -> Seq<char> {
    "("@ + signed_decimal(x as int) + ", "@ + signed_decimal(y as int) + ")"@
}

/// What a strategy reports when all its outside calls succeeded.
pub open spec fn success_message(s: StrategyView, stdout: Seq<char>) -> Seq<char> {
    match s {
        StrategyView::FocusWindow { title, .. } => "focused window '"@ + title + "'"@,
        StrategyView::CloseWindow { title } => "closed window '"@ + title + "'"@,
        StrategyView::OpenUrl { url } => "opened URL: "@ + url,
        StrategyView::LaunchApp { app } => "launched app '"@ + app + "'"@,
        StrategyView::MouseMove { x, y } => "moved mouse to "@ + pair_text(x, y),
        StrategyView::MouseClick { button } => "clicked button "@ + button,
        StrategyView::MouseMoveClick { x, y, .. } => "clicked at "@ + pair_text(x, y),
        StrategyView::KeyboardType { text } => "typed "@ + decimal(utf8_len(text)) + " chars"@,
        StrategyView::KeyboardCombo { keys } => "sent key combo: "@ + debug_string_list(keys),
        StrategyView::ClipboardSet { text } => "set clipboard ("@ + decimal(utf8_len(text))
            + " bytes)"@,
        StrategyView::ShellCommand { .. } => trim(stdout),
        StrategyView::WaitMs { duration_ms } => "waited "@ + decimal(duration_ms as nat) + "ms"@,
        StrategyView::Noop => "no operation"@,
    }
}

/// `{:?}` of an optional exit code.
pub open spec fn exit_code_text(code: Option<i32>) -> Seq<char> {
    match code {
        Some(c) => "Some("@ + signed_decimal(c as int) + ")"@,
        None => "None"@,
    }
}

/// The result of executing a strategy, given what its outside work
/// reported: a shell command with no words is refused before anything
/// runs; a failed call is reported with its step; a command that exited
/// unsuccessfully with its exit code and error output; otherwise the
/// strategy's success message.
pub open spec fn execution_result_spec(s: StrategyView, run: StrategyRun) -> Result<
    Seq<char>,
    Seq<char>,
> {
    if s matches StrategyView::ShellCommand { command } && command.len() == 0 {
        Err("empty command"@)
    } else {
        match run {
            StrategyRun::CallFailed { step, error } => Err(step_label(step) + error@),
            StrategyRun::CommandExited { code, stderr } => Err(
                "exit="@ + exit_code_text(code) + ": "@ + trim(stderr@),
            ),
            StrategyRun::Succeeded { stdout } => Ok(success_message(s, stdout@)),
        }
    }
}

fn push_pair(s: &mut String, x: i32, y: i32)
    ensures
        final(s)@ == old(s)@ + pair_text(x, y),
{
    s.append("(");
    push_signed(s, x as i64);
    s.append(", ");
    push_signed(s, y as i64);
    s.append(")");
}

/// The message of a strategy whose outside calls all succeeded.
fn success_text(strategy: &ActionStrategy, stdout: &str) -> (r: String)
    ensures
        r@ == success_message(strategy@, stdout@),
{
    match strategy {
        ActionStrategy::FocusWindow { title, .. } => {
            let mut r = String::from_str("focused window '");
            r.append(title.as_str());
            r.append("'");
            r
        },
        ActionStrategy::CloseWindow { title } => {
            let mut r = String::from_str("closed window '");
            r.append(title.as_str());
            r.append("'");
            r
        },
        ActionStrategy::OpenUrl { url } => {
            let mut r = String::from_str("opened URL: ");
            r.append(url.as_str());
            r
        },
        ActionStrategy::LaunchApp { app } => {
            let mut r = String::from_str("launched app '");
            r.append(app.as_str());
            r.append("'");
            r
        },
        ActionStrategy::MouseMove { x, y } => {
            let mut r = String::from_str("moved mouse to ");
            push_pair(&mut r, *x, *y);
            r
        },
        ActionStrategy::MouseClick { button } => {
            let mut r = String::from_str("clicked button ");
            r.append(button.as_str());
            r
        },
        ActionStrategy::MouseMoveClick { x, y, .. } => {
            let mut r = String::from_str("clicked at ");
            push_pair(&mut r, *x, *y);
            r
        },
        ActionStrategy::KeyboardType { text } => {
            let mut r = String::from_str("typed ");
            push_decimal(&mut r, byte_len(text.as_str()) as u64);
            r.append(" chars");
            r
        },
        ActionStrategy::KeyboardCombo { keys } => {
            let mut r = String::from_str("sent key combo: ");
            let d = debug_keys(keys);
            r.append(d.as_str());
            r
        },
        ActionStrategy::ClipboardSet { text } => {
            let mut r = String::from_str("set clipboard (");
            push_decimal(&mut r, byte_len(text.as_str()) as u64);
            r.append(" bytes)");
            r
        },
        ActionStrategy::ShellCommand { .. } => trimmed(stdout),
        ActionStrategy::WaitMs { duration_ms } => {
            let mut r = String::from_str("waited ");
            push_decimal(&mut r, *duration_ms);
            r.append("ms");
            r
        },
        ActionStrategy::Noop => owned("no operation"),
    }
}

/// Whether the result of executing `strategy` is refused before any
/// outside call: a shell command with no words.
pub fn refused_before_run(strategy: &ActionStrategy) -> (b: bool)
    ensures
        b == (strategy@ matches StrategyView::ShellCommand { command } && command.len() == 0),
{
    match strategy {
        ActionStrategy::ShellCommand { command } => command.len() == 0,
        _ => false,
    }
}

/// The result of executing `strategy`, given what its outside work
/// reported (`run` is not looked at when the strategy is refused before
/// running).
pub fn execution_result(strategy: &ActionStrategy, run: StrategyRun) -> (r: Result<String, String>)
    ensures
        match (r, execution_result_spec(strategy@, run)) {
            (Ok(a), Ok(b)) => a@ == b,
            (Err(a), Err(b)) => a@ == b,
            _ => false,
        },
{
    if refused_before_run(strategy) {
        return Err(owned("empty command"));
    }
    match run {
        StrategyRun::CallFailed { step, error } => {
            let mut r = owned(step_label_text(step));
            r.append(error.as_str());
            Err(r)
        },
        StrategyRun::CommandExited { code, stderr } => {
            let mut r = String::from_str("exit=");
            match code {
                Some(c) => {
                    r.append("Some(");
                    push_signed(&mut r, c as i64);
                    r.append(")");
                },
                None => {
                    r.append("None");
                },
            }
            r.append(": ");
            let t = trimmed(stderr.as_str());
            r.append(t.as_str());
            Err(r)
        },
        StrategyRun::Succeeded { stdout } => Ok(success_text(strategy, stdout.as_str())),
    }
}

} // verus!
