use brain_coordinator::runtime::{
    default_subscriptions, default_workers, resource_notice, worker_task, BackgroundWorker,
    RuntimeLifecycle, RuntimeStatus, TickAction, WorkerTask,
};
use brain_coordinator::strategy_engine::ResourceState;

#[test]
fn test_default_workers_configured() {
    let workers = default_workers();
    assert_eq!(workers.len(), 5);
    assert_eq!(workers[0].name, "goal_monitor");
    assert_eq!(workers[3].name, "learning_scheduler");
    assert_eq!(workers[4].name, "persistence");
}

#[test]
fn start_stop_cycle() {
    let mut rt = RuntimeLifecycle::new();
    assert!(matches!(rt.status(), RuntimeStatus::Stopped));
    rt.start().unwrap();
    assert!(matches!(rt.status(), RuntimeStatus::Running));
    rt.stop();
    assert!(matches!(rt.status(), RuntimeStatus::Stopped));
}

#[test]
fn pause_resume() {
    let mut rt = RuntimeLifecycle::new();
    rt.start().unwrap();
    rt.pause();
    assert!(matches!(rt.status(), RuntimeStatus::Paused));
    assert_eq!(rt.tick_action(), TickAction::Skip);
    rt.resume();
    assert!(matches!(rt.status(), RuntimeStatus::Running));
    assert_eq!(rt.tick_action(), TickAction::Work);
    rt.stop();
    assert_eq!(rt.tick_action(), TickAction::Exit);
}

#[test]
fn double_start_rejected() {
    let mut rt = RuntimeLifecycle::new();
    rt.start().unwrap();
    let result = rt.start();
    assert!(result.is_err());
    rt.stop();
}

#[test]
fn default_subscriptions_for_deploy() {
    let subs = default_subscriptions("deploy website");
    assert!(subs.iter().any(|s| s.matches("runtime.task.completed")));
    assert!(subs.iter().any(|s| s.matches("brain.goal.created")));
}

#[test]
fn default_subscriptions_for_code() {
    let subs = default_subscriptions("code review");
    assert!(subs.iter().any(|s| s.matches("brain.plan.updated")));
    assert!(!subs.iter().any(|s| s.matches("runtime.task.completed")));
}

#[test]
fn default_subscriptions_generic_follow_workflows() {
    let subs = default_subscriptions("misc");
    assert_eq!(subs.len(), 3);
    assert!(subs.iter().any(|s| s.matches("brain.workflow.failed")));
}

#[test]
fn worker_tasks_by_name() {
    assert_eq!(worker_task("goal_monitor"), WorkerTask::GoalMonitor);
    assert_eq!(worker_task("persistence"), WorkerTask::Persistence);
    assert_eq!(worker_task("other"), WorkerTask::Nothing);
    let w = BackgroundWorker::disabled("x", 5);
    assert!(!w.enabled);
    assert_eq!(w.interval_secs, 5);
}

#[test]
fn resource_notices() {
    assert_eq!(resource_notice(ResourceState::Exhausted).unwrap().title, "Resources exhausted");
    assert_eq!(resource_notice(ResourceState::Critical).unwrap().title, "Resources critical");
    assert!(resource_notice(ResourceState::Healthy).is_none());
    assert!(resource_notice(ResourceState::Degraded).is_none());
}
