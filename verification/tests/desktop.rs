use brain_coordinator::desktop::{get_param, Action, DesktopState, WindowInfo};
use brain_coordinator::desktop_operator::{
    action_line, classify_input, compose_reply, execution_result, help_text, refused_before_run,
    requirement_action, strategy_label, ActionResult, AttemptOutcome, InputKind, KernelStep,
    StrategyRun,
};
use brain_coordinator::desktop_strategy::{ActionStrategy, StrategySelector};
use brain_coordinator::desktop_verify::{VerificationEngine, VerificationResult};

fn params(v: &[(&str, &str)]) -> Vec<(String, String)> {
    v.iter().map(|(k, x)| (k.to_string(), x.to_string())).collect()
}

fn state_with(titles: &[&str]) -> DesktopState {
    let mut s = DesktopState::empty();
    for (i, t) in titles.iter().enumerate() {
        s.windows.push(WindowInfo { window_id: format!("w{i}"), title: t.to_string() });
    }
    s
}

#[test]
fn action_new_has_no_params() {
    let a = Action::new("desktop.app.launch");
    assert_eq!(a.capability_id, "desktop.app.launch");
    assert!(a.params.is_empty());
}

#[test]
fn focus_adds_partial_match_when_a_title_contains_it() {
    let s = state_with(&["Mozilla FIREFOX", "Terminal"]);
    let r = StrategySelector::strategies_for("desktop.window.focus", &params(&[("title", "firefox")]), &s);
    assert_eq!(r.len(), 2);
    assert!(matches!(&r[1], ActionStrategy::FocusWindow { title, partial: true } if title == "firefox"));
    let r = StrategySelector::strategies_for("desktop.window.focus", &params(&[("id", "Vim")]), &s);
    assert_eq!(r.len(), 1);
    assert!(matches!(&r[0], ActionStrategy::FocusWindow { title, partial: false } if title == "Vim"));
}

#[test]
fn close_falls_back_to_alt_f4() {
    let r = StrategySelector::strategies_for("desktop.window.close", &params(&[("id", "x")]), &DesktopState::empty());
    assert_eq!(r.len(), 2);
    assert!(matches!(&r[1], ActionStrategy::KeyboardCombo { keys } if keys == &vec!["alt".to_string(), "F4".to_string()]));
}

#[test]
fn mouse_and_wait_parameters_parse_like_rust() {
    let s = DesktopState::empty();
    let r = StrategySelector::strategies_for("input.mouse.move", &params(&[("x", "-12"), ("y", "abc")]), &s);
    assert!(matches!(r[0], ActionStrategy::MouseMove { x: -12, y: 0 }));
    let r = StrategySelector::strategies_for("input.mouse.move", &params(&[("x", "+7"), ("y", "99999999999")]), &s);
    assert!(matches!(r[0], ActionStrategy::MouseMove { x: 7, y: 0 }));
    let r = StrategySelector::strategies_for("wait", &params(&[("ms", "250")]), &s);
    assert!(matches!(r[0], ActionStrategy::WaitMs { duration_ms: 250 }));
    let r = StrategySelector::strategies_for("sleep", &params(&[("ms", "-1")]), &s);
    assert!(matches!(r[0], ActionStrategy::WaitMs { duration_ms: 500 }));
    let r = StrategySelector::strategies_for("input.mouse.click", &params(&[]), &s);
    assert!(matches!(&r[0], ActionStrategy::MouseClick { button } if button == "1"));
}

#[test]
fn combos_search_urls_and_commands() {
    let s = DesktopState::empty();
    let r = StrategySelector::strategies_for("input.keyboard.shortcut", &params(&[("shortcut", "ctrl + shift+t")]), &s);
    assert!(matches!(&r[0], ActionStrategy::KeyboardCombo { keys } if keys == &vec!["ctrl".to_string(), "shift".to_string(), "t".to_string()]));
    let r = StrategySelector::strategies_for("search", &params(&[("query", "rust verus")]), &s);
    assert!(matches!(&r[0], ActionStrategy::OpenUrl { url } if url == "https://google.com/search?q=rust+verus"));
    let r = StrategySelector::strategies_for("open_website", &params(&[]), &s);
    assert!(matches!(r[0], ActionStrategy::Noop));
    let r = StrategySelector::strategies_for("run", &params(&[("command", "  ls   -la ")]), &s);
    assert!(matches!(&r[0], ActionStrategy::ShellCommand { command } if command == &vec!["ls".to_string(), "-la".to_string()]));
    let r = StrategySelector::strategies_for("run", &params(&[]), &s);
    assert!(matches!(r[0], ActionStrategy::Noop));
}

#[test]
fn verification_rules() {
    let before = state_with(&["a", "b"]);
    let after = state_with(&["a"]);
    assert!(VerificationEngine::verify("desktop.window.close", &params(&[]), &before, &after).is_success());
    match VerificationEngine::verify("desktop.window.close", &params(&[]), &after, &before) {
        VerificationResult::Failed { reason } => assert_eq!(reason, "window count did not decrease (was 1, now 2)"),
        _ => panic!("expected failure"),
    }
    let mut moved = DesktopState::empty();
    moved.cursor_position = (105, -3);
    assert!(VerificationEngine::verify("input.mouse.move", &params(&[("x", "100"), ("y", "0")]), &before, &moved).is_success());
    match VerificationEngine::verify("input.mouse.move", &params(&[("x", "-50")]), &before, &moved) {
        VerificationResult::Failed { reason } => assert_eq!(reason, "cursor at (105,-3), expected near (-50,0)"),
        _ => panic!("expected failure"),
    }
    let mut clip = DesktopState::empty();
    clip.clipboard = Some("hi".to_string());
    assert!(VerificationEngine::verify("desktop.clipboard.set", &params(&[("text", "hi")]), &before, &clip).is_success());
    assert!(matches!(
        VerificationEngine::verify("desktop.clipboard.set", &params(&[("text", "x")]), &before, &clip),
        VerificationResult::PartialSuccess { .. }
    ));
    assert!(matches!(
        VerificationEngine::verify("input.keyboard.type", &params(&[]), &DesktopState::empty(), &DesktopState::empty()),
        VerificationResult::PartialSuccess { .. }
    ));
}

#[test]
fn attempts_stop_at_the_first_verified_strategy() {
    let action = Action { capability_id: "desktop.app.launch".into(), params: params(&[("app", "gedit")]) };
    let mut r = ActionResult::begin("desktop.app.launch", DesktopState::empty(), DesktopState::empty());
    assert_eq!(r.strategy_used, "none");
    let s = ActionStrategy::LaunchApp { app: "gedit".into() };
    let stop = r.record_attempt(&action, &s, AttemptOutcome::Failed { error: "launch failed: x".into(), after: DesktopState::empty() });
    assert!(!stop);
    assert_eq!(r.error.as_deref(), Some("launch failed: x"));
    let stop = r.record_attempt(&action, &s, AttemptOutcome::Executed { after: state_with(&["gedit"]) });
    assert!(stop);
    assert!(r.success);
    assert_eq!(r.attempts, 2);
    assert_eq!(r.strategy_used, "LaunchApp");
    assert_eq!(action_line(&r), "  [ok] desktop.app.launch (strategy: LaunchApp, 2 attempt(s))");
}

#[test]
fn failed_action_line_and_reply() {
    let mut r = ActionResult::begin("x", DesktopState::empty(), DesktopState::empty());
    let action = Action::new("x");
    r.record_attempt(&action, &ActionStrategy::Noop, AttemptOutcome::Executed { after: DesktopState::empty() });
    assert_eq!(action_line(&r), "  [!!] x (failed after 1 attempt(s): verification failed)");
    assert_eq!(strategy_label(&ActionStrategy::Noop), "Noop");
    assert_eq!(compose_reply("Done", &vec![]), "Done");
    assert_eq!(compose_reply("Done", &vec!["a".into(), "b".into()]), "Done\n\nActions:\na\nb");
}

#[test]
fn input_classification() {
    assert!(matches!(classify_input("   "), InputKind::Empty));
    assert!(matches!(classify_input(" help "), InputKind::Help));
    assert!(matches!(classify_input("?"), InputKind::Help));
    assert!(matches!(classify_input(" open firefox "), InputKind::Request { text } if text == "open firefox"));
    assert!(help_text().starts_with("AI-OS Desktop Agent\n"));
}

#[test]
fn requirement_to_action() {
    let inputs = params(&[("__cap", "desktop.app.launch"), ("app", "gedit")]);
    let a = requirement_action(&inputs, "Fallback");
    assert_eq!(a.capability_id, "desktop.app.launch");
    assert_eq!(a.params, params(&[("app", "gedit")]));
    let b = requirement_action(&params(&[("x", "1")]), "Fallback");
    assert_eq!(b.capability_id, "Fallback");
    assert_eq!(get_param(&b.params, "x"), Some("1".to_string()));
}

fn ok_run() -> StrategyRun {
    StrategyRun::Succeeded { stdout: String::new() }
}

#[test]
fn execution_reports_success_messages() {
    let focus = ActionStrategy::FocusWindow { title: "Editor".to_string(), partial: true };
    assert_eq!(execution_result(&focus, ok_run()), Ok("focused window 'Editor'".to_string()));
    let mv = ActionStrategy::MouseMove { x: -5, y: 40 };
    assert_eq!(execution_result(&mv, ok_run()), Ok("moved mouse to (-5, 40)".to_string()));
    let mc = ActionStrategy::MouseMoveClick { x: 1, y: 2, button: "left".to_string() };
    assert_eq!(execution_result(&mc, ok_run()), Ok("clicked at (1, 2)".to_string()));
    let ty = ActionStrategy::KeyboardType { text: "héllo".to_string() };
    assert_eq!(execution_result(&ty, ok_run()), Ok("typed 6 chars".to_string()));
    let combo = ActionStrategy::KeyboardCombo { keys: vec!["ctrl".to_string(), "c".to_string()] };
    assert_eq!(execution_result(&combo, ok_run()), Ok("sent key combo: [\"ctrl\", \"c\"]".to_string()));
    let clip = ActionStrategy::ClipboardSet { text: "abc".to_string() };
    assert_eq!(execution_result(&clip, ok_run()), Ok("set clipboard (3 bytes)".to_string()));
    let wait = ActionStrategy::WaitMs { duration_ms: 250 };
    assert_eq!(execution_result(&wait, ok_run()), Ok("waited 250ms".to_string()));
    assert_eq!(execution_result(&ActionStrategy::Noop, ok_run()), Ok("no operation".to_string()));
    let url = ActionStrategy::OpenUrl { url: "https://example.org".to_string() };
    assert_eq!(execution_result(&url, ok_run()), Ok("opened URL: https://example.org".to_string()));
}

#[test]
fn execution_reports_failures() {
    let empty = ActionStrategy::ShellCommand { command: Vec::new() };
    assert!(refused_before_run(&empty));
    assert_eq!(execution_result(&empty, ok_run()), Err("empty command".to_string()));
    let cmd = ActionStrategy::ShellCommand { command: vec!["ls".to_string()] };
    assert!(!refused_before_run(&cmd));
    assert_eq!(
        execution_result(&cmd, StrategyRun::Succeeded { stdout: "  a\nb \n".to_string() }),
        Ok("a\nb".to_string())
    );
    assert_eq!(
        execution_result(&cmd, StrategyRun::CommandExited { code: Some(2), stderr: " no such file\n".to_string() }),
        Err("exit=Some(2): no such file".to_string())
    );
    assert_eq!(
        execution_result(&cmd, StrategyRun::CommandExited { code: None, stderr: String::new() }),
        Err("exit=None: ".to_string())
    );
    let close = ActionStrategy::CloseWindow { title: "X".to_string() };
    assert_eq!(
        execution_result(&close, StrategyRun::CallFailed { step: KernelStep::Close, error: "denied".to_string() }),
        Err("close failed: denied".to_string())
    );
    assert_eq!(
        execution_result(&cmd, StrategyRun::CallFailed { step: KernelStep::Command, error: "not found".to_string() }),
        Err("command failed: not found".to_string())
    );
}
