use brain_coordinator::delegations::{ActiveDelegations, DelegationStatus};
use brain_coordinator::event_driver::{
    affected_goals, deferred_ready, falls_back_to_active, is_maintenance_event, RuntimeEvent,
};
use brain_coordinator::recovery::{GoalStatus, RecoveryManager};

#[test]
fn interrupted_and_paused_goals_are_found_in_order() {
    let goals = vec![
        (1u128, GoalStatus::Active),
        (2, GoalStatus::Paused),
        (3, GoalStatus::Completed),
        (4, GoalStatus::Executing),
        (5, GoalStatus::Blocked),
        (6, GoalStatus::Recovering),
    ];
    assert_eq!(RecoveryManager::find_interrupted_goals(&goals), vec![1, 4, 6]);
    assert_eq!(RecoveryManager::find_paused_goals(&goals), vec![2, 5]);
    assert!(RecoveryManager::find_interrupted_goals(&Vec::new()).is_empty());
    assert_eq!(RecoveryManager::resumed(vec![1, 4], vec![2, 5]), vec![1, 4, 2, 5]);
}

#[test]
fn runtime_event_builders() {
    let e = RuntimeEvent::new("deploy.done").with_payload("ok").for_goal(9);
    assert_eq!(e.event_type, "deploy.done");
    assert_eq!(e.payload.as_deref(), Some("ok"));
    assert_eq!(e.goal_id, Some(9));
}

#[test]
fn goals_affected_by_an_event() {
    assert_eq!(affected_goals(vec![1, 2], Some(3)), vec![1, 2, 3]);
    assert_eq!(affected_goals(vec![1, 2], Some(2)), vec![1, 2]);
    assert_eq!(affected_goals(vec![1], None), vec![1]);
    assert!(is_maintenance_event("runtime.maintenance.heartbeat"));
    assert!(!is_maintenance_event("deploy.done"));
    assert!(falls_back_to_active(&Vec::new(), "deploy.done"));
    assert!(!falls_back_to_active(&Vec::new(), "runtime.maintenance.heartbeat"));
    assert!(!falls_back_to_active(&vec![1], "deploy.done"));
}

#[test]
fn deferred_goals_become_ready() {
    let goals = vec![(1u128, Some(100i64)), (2, None), (3, Some(50)), (4, Some(101))];
    assert_eq!(deferred_ready(&goals, 100), vec![1, 3]);
}

#[test]
fn failed_delegation_stays_active_until_cancelled() {
    let mut d = ActiveDelegations::new();
    assert_eq!(d.status(1), DelegationStatus::Completed);
    d.record(1, 77, false);
    assert_eq!(d.status(1), DelegationStatus::InProgress);
    d.record(2, 88, true);
    assert_eq!(d.status(2), DelegationStatus::Completed);
    assert_eq!(d.cancel(1), Some(77));
    assert_eq!(d.status(1), DelegationStatus::Completed);
    assert_eq!(d.cancel(1), None);
}
