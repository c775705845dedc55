use brain_coordinator::strategy_engine::{
    ExecutionStrategy, ExplorationBias, ResourceState, RiskTolerance, StrategyEngine,
};

#[test]
fn default_rules_by_goal_type() {
    let e = StrategyEngine::new();
    assert_eq!(e.get_rule("research"), Some(ExecutionStrategy::ResearchThenExecute));
    assert_eq!(e.get_rule("browsing"), Some(ExecutionStrategy::Direct));
    assert_eq!(e.get_rule("data_analysis"), Some(ExecutionStrategy::Parallel));
    assert_eq!(e.get_rule("monitoring"), Some(ExecutionStrategy::Iterative));
    assert_eq!(e.get_rule("deployment"), Some(ExecutionStrategy::Sequential));
    assert_eq!(e.get_rule("cooking"), None);
}

#[test]
fn goal_type_is_normalized_before_lookup() {
    let e = StrategyEngine::new();
    assert_eq!(e.approach_for_goal_type("Data Analysis"), ExecutionStrategy::Parallel);
    assert_eq!(e.approach_for_goal_type("FILE MANAGEMENT"), ExecutionStrategy::Direct);
    assert_eq!(e.approach_for_goal_type("cooking"), ExecutionStrategy::ResearchThenExecute);
}

#[test]
fn set_rule_replaces_earlier_rule() {
    let mut e = StrategyEngine::empty();
    assert_eq!(e.get_rule("x"), None);
    e.set_rule("x", ExecutionStrategy::Direct);
    e.set_rule("x", ExecutionStrategy::Delegated);
    e.set_rule("y", ExecutionStrategy::Parallel);
    assert_eq!(e.get_rule("x"), Some(ExecutionStrategy::Delegated));
    assert_eq!(e.get_rule("y"), Some(ExecutionStrategy::Parallel));
}

#[test]
fn resources_adjust_the_strategy() {
    let mut e = StrategyEngine::new();
    let c = e.select_strategy("data_analysis", 3, ResourceState::Healthy);
    assert_eq!(c.approach, ExecutionStrategy::Parallel);
    assert_eq!(c.max_delegation_depth, 3);
    assert!(!c.requires_human_approval);
    assert_eq!(c.risk_tolerance, RiskTolerance::High);
    assert_eq!(c.name, "strategy-data_analysis");
    assert_eq!(c.description, "Default data_analysis execution strategy");

    let c = e.select_strategy("data_analysis", 3, ResourceState::Degraded);
    assert_eq!(c.approach, ExecutionStrategy::Sequential);
    assert_eq!(c.max_delegation_depth, 1);
    let c = e.select_strategy("data_analysis", 7, ResourceState::Degraded);
    assert_eq!(c.approach, ExecutionStrategy::Parallel);
    assert_eq!(c.risk_tolerance, RiskTolerance::Low);

    let c = e.select_strategy("research", 5, ResourceState::Critical);
    assert_eq!(c.approach, ExecutionStrategy::Direct);
    assert_eq!(c.risk_tolerance, RiskTolerance::Medium);
    assert_eq!(c.exploration_bias, ExplorationBias::High);

    let c = e.select_strategy("deployment", 1, ResourceState::Exhausted);
    assert_eq!(c.approach, ExecutionStrategy::HumanAssisted);
    assert!(c.requires_human_approval);
    assert_eq!(c.exploration_bias, ExplorationBias::Low);
}

#[test]
fn chosen_profiles_are_registered() {
    let mut e = StrategyEngine::new();
    assert!(e.list_profiles().is_empty());
    let a = e.select_strategy("research", 2, ResourceState::Healthy);
    let b = e.select_strategy("deployment", 8, ResourceState::Degraded);
    assert_ne!(a.strategy_id, b.strategy_id);
    let listed = e.list_profiles();
    assert_eq!(listed.len(), 2);
    assert!(listed.iter().any(|p| p.strategy_id == a.strategy_id && p.name == "strategy-research"));
    let got = e.get_profile(b.strategy_id).unwrap();
    assert_eq!(got.name, "strategy-deployment");
    assert_eq!(got.approach, ExecutionStrategy::Sequential);
    let unknown = a.strategy_id.wrapping_add(1);
    if unknown != b.strategy_id {
        assert!(e.get_profile(unknown).is_none());
    }
    let mut replacement = got.clone();
    replacement.name = "renamed".to_string();
    e.register_profile(replacement);
    assert_eq!(e.list_profiles().len(), 2);
    assert_eq!(e.get_profile(b.strategy_id).unwrap().name, "renamed");
}
