use brain_coordinator::evolution::{
    entity_changes, find_by_name, matching_relationship, relationship_step, resolve_endpoint, resolved,
    RelationshipStep,
};
use brain_coordinator::goal_scheduler::GoalPriority;
use brain_coordinator::numbers::{parse_i32_opt, parse_u64_opt, push_signed};
use brain_coordinator::orchestrator::{plan_goal_tick, priority_value, tick_skips_goals};
use brain_coordinator::recovery::GoalStatus;
use brain_coordinator::strategy_engine::{ExecutionStrategy, ResourceState, StrategyEngine};
use brain_coordinator::world_model::{resource_state, LoadBand, WorldModelService};

fn strings(v: &[&str]) -> Vec<String> {
    v.iter().map(|s| s.to_string()).collect()
}

#[test]
fn observed_entity_matches_name_ignoring_case() {
    let c = strings(&["Bob", "alice", "Alice"]);
    assert_eq!(find_by_name(&c, "ALICE"), Some(1));
    assert_eq!(find_by_name(&c, "Carol"), None);
}

#[test]
fn entity_update_lists_changes() {
    let (type_changed, changes) = entity_changes(
        "project",
        "person",
        true,
        false,
        &strings(&["status", "owner", "status"]),
        &strings(&["owner"]),
    );
    assert!(type_changed);
    assert_eq!(
        changes,
        strings(&[
            "entity_type",
            "confidence",
            "property:status",
            "property:owner (updated)",
            "property:status (updated)"
        ])
    );
    let (t, c) = entity_changes("", "person", false, false, &Vec::new(), &Vec::new());
    assert!(!t);
    assert!(c.is_empty());
}

#[test]
fn repeated_relationship_is_strengthened() {
    let types = strings(&["works_with", "knows"]);
    assert_eq!(matching_relationship(&types, "knows"), Some(1));
    assert_eq!(matching_relationship(&types, "manages"), None);
}

#[test]
fn fullest_resource_sets_the_state() {
    assert_eq!(resource_state(LoadBand::Normal, LoadBand::Normal, LoadBand::Normal), ResourceState::Healthy);
    assert_eq!(resource_state(LoadBand::Elevated, LoadBand::Normal, LoadBand::Normal), ResourceState::Degraded);
    assert_eq!(resource_state(LoadBand::Elevated, LoadBand::High, LoadBand::Normal), ResourceState::Critical);
    assert_eq!(resource_state(LoadBand::Normal, LoadBand::High, LoadBand::Full), ResourceState::Exhausted);
}

#[test]
fn world_model_users_and_environment() {
    let mut w = WorldModelService::new();
    w.set_user_preference("ghost", "k", "v");
    assert!(w.users.is_empty());
    w.register_user("ana", Some("Ana"));
    w.set_user_preference("ana", "theme", "dark");
    w.set_user_preference("ana", "theme", "light");
    assert_eq!(w.get_user_preference("ana", "theme").as_deref(), Some("light"));
    assert_eq!(w.get_user_preference("ana", "lang"), None);
    assert_eq!(w.get_user_preference("bo", "theme"), None);
    w.set_env("HOME", "/home/ana");
    w.set_env("HOME", "/root");
    assert_eq!(w.get_env("HOME").as_deref(), Some("/root"));
    assert_eq!(w.get_env("PATH"), None);
}

#[test]
fn goal_tick_plans() {
    assert_eq!(priority_value(GoalPriority::Critical), 8);
    assert_eq!(priority_value(GoalPriority::Low), 2);
    assert!(tick_skips_goals(ResourceState::Exhausted));
    assert!(!tick_skips_goals(ResourceState::Critical));
    let mut e = StrategyEngine::new();
    let p = plan_goal_tick(&mut e, "data_analysis", GoalPriority::Normal, GoalStatus::Active, false, ResourceState::Healthy);
    assert_eq!(p.strategy.approach, ExecutionStrategy::Parallel);
    assert!(p.add_objective);
    assert!(!p.delegate);
    e.set_rule("outreach", ExecutionStrategy::Delegated);
    let p = plan_goal_tick(&mut e, "outreach", GoalPriority::High, GoalStatus::Executing, true, ResourceState::Healthy);
    assert!(p.delegate);
    assert!(!p.add_objective);
}

#[test]
fn number_parsing_and_formatting() {
    assert_eq!(parse_i32_opt("42"), Some(42));
    assert_eq!(parse_i32_opt("-7"), Some(-7));
    assert_eq!(parse_i32_opt("+5"), Some(5));
    assert_eq!(parse_i32_opt("2147483648"), None);
    assert_eq!(parse_i32_opt("-2147483648"), Some(i32::MIN));
    assert_eq!(parse_i32_opt("x1"), None);
    assert_eq!(parse_i32_opt(""), None);
    assert_eq!(parse_u64_opt("18446744073709551615"), Some(u64::MAX));
    assert_eq!(parse_u64_opt("18446744073709551616"), None);
    assert_eq!(parse_u64_opt("-1"), None);
    let mut s = String::from("t=");
    push_signed(&mut s, -12);
    push_signed(&mut s, i64::MIN);
    assert_eq!(s, "t=-12-9223372036854775808");
}

#[test]
fn relationship_step_skips_unresolved_endpoints() {
    let types = vec!["works_on".to_string()];
    assert_eq!(relationship_step(None, Some(2), &types, "works_on"), RelationshipStep::Skip);
    assert_eq!(relationship_step(Some(1), None, &types, "works_on"), RelationshipStep::Skip);
}

#[test]
fn relationship_step_strengthens_matching_type() {
    let types = vec!["knows".to_string(), "works_on".to_string()];
    assert_eq!(relationship_step(Some(1), Some(2), &types, "works_on"), RelationshipStep::Strengthen(1));
}

#[test]
fn relationship_step_creates_new_type() {
    let types = vec!["knows".to_string()];
    assert_eq!(relationship_step(Some(1), Some(2), &types, "likes"), RelationshipStep::Create);
    assert_eq!(relationship_step(Some(1), Some(2), &Vec::new(), "likes"), RelationshipStep::Create);
}

#[test]
fn resolved_takes_latest_entry() {
    let table = vec![("Rust".to_string(), 1u128), ("Alice".to_string(), 2), ("Rust".to_string(), 3)];
    assert_eq!(resolved(&table, "Rust"), Some(3));
    assert_eq!(resolved(&table, "Alice"), Some(2));
    assert_eq!(resolved(&table, "Bob"), None);
}

#[test]
fn resolve_endpoint_records_search_result() {
    let mut table = vec![("Alice".to_string(), 2u128)];
    assert_eq!(resolve_endpoint(&mut table, "Alice", Some(9)), Some(2));
    assert_eq!(table.len(), 1);
    assert_eq!(resolve_endpoint(&mut table, "Rust", Some(7)), Some(7));
    assert_eq!(table.len(), 2);
    assert_eq!(resolved(&table, "Rust"), Some(7));
    assert_eq!(resolve_endpoint(&mut table, "Bob", None), None);
    assert_eq!(table.len(), 2);
}
