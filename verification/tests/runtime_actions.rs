use brain_coordinator::planner::{Plan, PlannedAction};
use brain_coordinator::runtime_actions::{
    capability_missing, dispatch_failed, format_runtime_completion, format_runtime_results,
    is_in_memory_action, runtime_input_for, runtime_steps, RuntimeInput, RuntimeOutcome,
    IN_MEMORY_ACTIONS,
};

fn plan_with(actions: Vec<(&str, Vec<String>)>) -> Plan {
    Plan {
        actions: actions
            .into_iter()
            .map(|(ty, topics)| PlannedAction { action_type: ty.into(), topics, reason: String::new() })
            .collect(),
    }
}

fn succeeded() -> RuntimeOutcome {
    RuntimeOutcome { succeeded: true, error: None }
}

#[test]
fn test_in_memory_actions_are_recognized() {
    for ty in IN_MEMORY_ACTIONS {
        assert!(is_in_memory_action(ty), "{ty} should be in-memory");
    }
    assert!(!is_in_memory_action("email.send"));
    assert!(!is_in_memory_action("telegram.inject_inbound"));
}

#[test]
fn test_planned_to_runtime_action_maps_email_topics() {
    let action = PlannedAction {
        action_type: "email.send".into(),
        topics: vec!["a@b.c".into(), "subject".into(), "body".into()],
        reason: "user requested".into(),
    };
    match runtime_input_for(&action).unwrap() {
        RuntimeInput::Fields(f) => {
            assert_eq!(f[0], ("to".to_string(), "a@b.c".to_string()));
            assert_eq!(f[1], ("subject".to_string(), "subject".to_string()));
            assert_eq!(f[2], ("body".to_string(), "body".to_string()));
        }
        other => panic!("unexpected input {other:?}"),
    }
}

#[test]
fn test_in_memory_actions_do_not_map_to_runtime() {
    let plan = plan_with(vec![("respond", vec![])]);
    assert!(runtime_input_for(&plan.actions[0]).is_none());
}

#[test]
fn test_format_runtime_results_empty_is_empty() {
    assert_eq!(format_runtime_results(&vec![]), "");
}

#[test]
fn test_format_runtime_results_shows_status() {
    let results = vec![
        ("email.send".to_string(), succeeded()),
        ("telegram.send".to_string(), capability_missing("telegram.send")),
    ];
    let block = format_runtime_results(&results);
    assert!(block.contains("email.send: SUCCEEDED"));
    assert!(block.contains("telegram.send: FAILED"));
    assert!(block.contains("capability_not_found"));
    assert_eq!(
        block,
        "- email.send: SUCCEEDED\n- telegram.send: FAILED (code: capability_not_found, capability 'telegram.send' not registered)"
    );
}

#[test]
fn test_format_runtime_completion_reports_status() {
    let ok = format_runtime_completion("email.send", &succeeded());
    assert!(ok.contains("runtime 'email.send' succeeded"));
    let failed = RuntimeOutcome {
        succeeded: false,
        error: Some(("capability_not_found".into(), "not registered".into())),
    };
    let err = format_runtime_completion("telegram.send", &failed);
    assert!(err.contains("runtime 'telegram.send' failed"));
    assert!(err.contains("not registered"));
    assert_eq!(err, "runtime 'telegram.send' failed (not registered)");
}

#[test]
fn missing_topics_become_empty_fields() {
    let a = PlannedAction { action_type: "telegram.send".into(), topics: vec!["42".into()], reason: String::new() };
    match runtime_input_for(&a).unwrap() {
        RuntimeInput::Fields(f) => {
            assert_eq!(f, vec![("chat_id".to_string(), "42".to_string()), ("text".to_string(), String::new())]);
        }
        other => panic!("unexpected input {other:?}"),
    }
}

#[test]
fn unknown_capability_uses_topics_envelope() {
    let a = PlannedAction { action_type: "custom.thing".into(), topics: vec!["x".into()], reason: "why".into() };
    match runtime_input_for(&a).unwrap() {
        RuntimeInput::Topics { topics, reason } => {
            assert_eq!(topics, vec!["x".to_string()]);
            assert_eq!(reason, "why");
        }
        other => panic!("unexpected input {other:?}"),
    }
    let b = PlannedAction { action_type: "custom.thing".into(), topics: vec![], reason: "why".into() };
    match runtime_input_for(&b).unwrap() {
        RuntimeInput::Fields(f) => assert!(f.is_empty()),
        other => panic!("unexpected input {other:?}"),
    }
}

#[test]
fn runtime_steps_skip_in_memory_actions() {
    let plan = plan_with(vec![
        ("search_memory", vec![]),
        ("email.send", vec!["a".into()]),
        ("respond", vec![]),
    ]);
    let steps = runtime_steps(&plan);
    assert_eq!(steps.len(), 1);
    assert_eq!(steps[0].0, "email.send");
}

#[test]
fn dispatch_failure_outcome() {
    let o = dispatch_failed("boom".to_string());
    assert!(!o.succeeded);
    assert_eq!(o.error, Some(("dispatch_error".to_string(), "boom".to_string())));
}
