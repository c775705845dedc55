use brain_coordinator::desktop_tools::{inputs_as_text, ToolValue};
use brain_coordinator::errors::CoordinatorError;
use brain_coordinator::orchestrator::{
    build_requirement, entity_values, find_entity_for_capability, goal_type_hint, needs_repair,
    plan_health, requirements_for, retry_candidates,
};
use brain_coordinator::recovery::GoalStatus;

fn e(t: &str, n: &str, v: &str) -> (String, String, String) {
    (t.to_string(), n.to_string(), v.to_string())
}

fn texts(inputs: &Vec<(String, ToolValue)>) -> Vec<(String, String)> {
    inputs_as_text(inputs)
}

fn pairs(v: &[(&str, &str)]) -> Vec<(String, String)> {
    v.iter().map(|(a, b)| (a.to_string(), b.to_string())).collect()
}

#[test]
fn entity_table_keeps_first_value_per_key() {
    let t = entity_values(&vec![e("app", "browser", "firefox"), e("app", "", "chrome"), e("", "url", "x.org")]);
    assert_eq!(t, pairs(&[("app", "firefox"), ("browser", "firefox"), ("url", "x.org")]));
}

#[test]
fn capability_gets_its_needed_entity() {
    let t = pairs(&[("url", "x.org"), ("app", "firefox")]);
    assert_eq!(find_entity_for_capability("launch_app", &t), Some(("app".to_string(), "firefox".to_string())));
    assert_eq!(find_entity_for_capability("browser.open_url", &t), Some(("url".to_string(), "x.org".to_string())));
    assert_eq!(find_entity_for_capability("desktop.window.list", &t), None);
    let fallback = find_entity_for_capability("type_text", &t).unwrap();
    assert!(t.contains(&fallback));
    assert_eq!(find_entity_for_capability("type_text", &Vec::new()), None);
}

#[test]
fn requirements_carry_capability_and_entity() {
    let r = build_requirement("launch_app", Some(("app".to_string(), "firefox".to_string())));
    assert_eq!(texts(&r), pairs(&[("__cap", "launch_app"), ("app", "firefox")]));
    let r = build_requirement("desktop.window.list", None);
    assert_eq!(texts(&r), pairs(&[("__cap", "desktop.window.list")]));
    let reqs = requirements_for(
        &vec!["launch_app".to_string(), "search".to_string()],
        &vec![e("app", "", "firefox"), e("query", "", "rust verus")],
    );
    assert_eq!(reqs.len(), 2);
    assert_eq!(texts(&reqs[0]), pairs(&[("__cap", "launch_app"), ("app", "firefox")]));
    assert_eq!(texts(&reqs[1]), pairs(&[("__cap", "search"), ("query", "rust verus")]));
    assert!(requirements_for(&Vec::new(), &vec![e("app", "", "x")]).is_empty());
}

#[test]
fn goal_type_defaults_to_unknown() {
    assert_eq!(goal_type_hint(""), "unknown");
    assert_eq!(goal_type_hint("deploy"), "deploy");
}

#[test]
fn plan_health_and_repair() {
    match plan_health(false, GoalStatus::Active, "g1") {
        Err(CoordinatorError::Planning(m)) => assert_eq!(m, "no strategy assigned"),
        other => panic!("unexpected {other:?}"),
    }
    match plan_health(true, GoalStatus::Failed, "g1") {
        Err(CoordinatorError::Planning(m)) => assert_eq!(m, "goal g1 is in failed state"),
        other => panic!("unexpected {other:?}"),
    }
    assert!(plan_health(true, GoalStatus::Executing, "g1").is_ok());
    assert!(needs_repair(GoalStatus::Failed, true));
    assert!(needs_repair(GoalStatus::Active, false));
    assert!(!needs_repair(GoalStatus::Active, true));
    let goals = vec![
        (1u128, GoalStatus::Failed, 0u32),
        (2, GoalStatus::Failed, 3),
        (3, GoalStatus::Active, 0),
        (4, GoalStatus::Failed, 2),
    ];
    assert_eq!(retry_candidates(&goals), vec![1, 4]);
}
