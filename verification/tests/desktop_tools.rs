use brain_coordinator::desktop_tools::{
    inputs_as_text, tool_value_to_string, CandidateConfidence, DesktopToolRegistry, ToolValue,
};

#[test]
fn registry_lists_thirteen_capabilities() {
    let r = DesktopToolRegistry::new();
    let list = r.list_capabilities();
    assert_eq!(list.len(), 13);
    assert_eq!(list[0], ("desktop.window.focus", "Focus a window by title"));
    assert_eq!(list[12], ("desktop.notification.send", "Send a desktop notification"));
    assert_eq!(r.capabilities[3].params, vec![("x", "string"), ("y", "string")]);
}

#[test]
fn candidates_for_requested_capability() {
    let r = DesktopToolRegistry::new();
    assert_eq!(r.find_candidates("desktop.window.focus"), vec![CandidateConfidence::Matched]);
    assert_eq!(r.find_candidates("clipboard").len(), 2);
    assert_eq!(r.find_candidates("input.keyboard"), vec![CandidateConfidence::Matched; 3]);
    assert_eq!(r.find_candidates("email.send"), vec![CandidateConfidence::Fallback]);
}

#[test]
fn tool_values_become_operator_text() {
    assert_eq!(tool_value_to_string(&ToolValue::String("Firefox".into())), "Firefox");
    assert_eq!(tool_value_to_string(&ToolValue::Number("2.5".into())), "2.5");
    assert_eq!(tool_value_to_string(&ToolValue::Bool(true)), "true");
    assert_eq!(tool_value_to_string(&ToolValue::DurationMs(1500)), "1500");
    assert_eq!(tool_value_to_string(&ToolValue::Null), "");
    let list = ToolValue::List(vec![ToolValue::String("ctrl".into()), ToolValue::String("c".into())]);
    assert_eq!(tool_value_to_string(&list), "ctrl,c");
    let map = ToolValue::Pairs(vec![
        ("x".to_string(), ToolValue::Number("10".into())),
        ("keys".to_string(), list),
    ]);
    assert_eq!(tool_value_to_string(&map), "x=10&keys=ctrl,c");
    let inputs = vec![
        ("__cap".to_string(), ToolValue::String("input.keyboard.type".into())),
        ("text".to_string(), ToolValue::FilePath("/tmp/a".into())),
    ];
    assert_eq!(
        inputs_as_text(&inputs),
        vec![
            ("__cap".to_string(), "input.keyboard.type".to_string()),
            ("text".to_string(), "/tmp/a".to_string())
        ]
    );
}
