use brain_coordinator::event_replay::{EventJournal, EventReplayManager};
use brain_coordinator::goal_scheduler::{EventSubscription, GoalPriority, GoalScheduler};

#[test]
fn register_and_unregister() {
    let mut scheduler = GoalScheduler::new();
    let gid: u128 = 41;
    assert!(scheduler.is_empty());
    scheduler.register(gid, GoalPriority::Normal, vec![]);
    assert_eq!(scheduler.len(), 1);
    scheduler.unregister(&gid);
    assert!(scheduler.is_empty());
}

#[test]
fn exact_match_wakes_goal() {
    let mut scheduler = GoalScheduler::new();
    let gid: u128 = 42;
    scheduler.register(gid, GoalPriority::Normal, vec![EventSubscription::exact("brain.goal.completed")]);
    assert_eq!(scheduler.match_event("brain.goal.completed"), vec![gid]);
}

#[test]
fn prefix_match_wakes_goal() {
    let mut scheduler = GoalScheduler::new();
    let gid: u128 = 43;
    scheduler.register(gid, GoalPriority::Normal, vec![EventSubscription::prefix("runtime.task.")]);
    assert_eq!(scheduler.match_event("runtime.task.completed"), vec![gid]);
}

#[test]
fn no_match_returns_empty() {
    let mut scheduler = GoalScheduler::new();
    scheduler.register(44, GoalPriority::Normal, vec![EventSubscription::exact("brain.goal.completed")]);
    assert!(scheduler.match_event("unrelated.event").is_empty());
}

#[test]
fn due_goals_returns_expired_timers() {
    let mut scheduler = GoalScheduler::new();
    let gid: u128 = 45;
    scheduler.register(gid, GoalPriority::Normal, vec![]);
    assert_eq!(scheduler.due_goals(), vec![gid]);
}

#[test]
fn reset_timer_postpones_review() {
    let mut scheduler = GoalScheduler::new();
    let gid: u128 = 46;
    scheduler.register(gid, GoalPriority::Normal, vec![]);
    scheduler.reset_timer(&gid);
    assert!(scheduler.due_goals().is_empty());
}

#[test]
fn update_priority_changes_interval() {
    let mut scheduler = GoalScheduler::new();
    let gid: u128 = 47;
    scheduler.register(gid, GoalPriority::Low, vec![]);
    assert_eq!(scheduler.review_interval(&gid), Some(60_000));
    scheduler.update_priority(&gid, GoalPriority::Critical);
    assert_eq!(scheduler.review_interval(&gid), Some(500));
}

#[test]
fn add_subscription_to_existing_goal() {
    let mut scheduler = GoalScheduler::new();
    let gid: u128 = 48;
    scheduler.register(gid, GoalPriority::Normal, vec![]);
    scheduler.add_subscription(&gid, EventSubscription::exact("brain.model.updated"));
    assert_eq!(scheduler.match_event("brain.model.updated"), vec![gid]);
}

#[test]
fn scheduler_timers_follow_adaptive_interval() {
    let mut scheduler = GoalScheduler::new();
    scheduler.register_at(1, GoalPriority::Critical, vec![], 1_000);
    scheduler.register_at(2, GoalPriority::Normal, vec![], 5_000);
    assert_eq!(scheduler.due_goals_at(1_000), vec![1]);
    assert_eq!(scheduler.due_goals_at(5_000), vec![1, 2]);
    scheduler.reset_timer_at(&1, 5_000);
    // Critical goals come back after half their base interval.
    assert_eq!(scheduler.due_goals_at(5_249), vec![2]);
    assert_eq!(scheduler.due_goals_at(5_250), vec![1, 2]);
    assert_eq!(scheduler.review_interval(&9), None);
}

#[test]
fn record_and_replay() {
    let mut journal = EventJournal::new();
    let mut scheduler = GoalScheduler::new();
    let gid: u128 = 50;
    scheduler.register(gid, GoalPriority::Normal, vec![EventSubscription::exact("test.event")]);
    journal.record("test.event", None, None);
    assert_eq!(journal.len(), 1);
    let manager = EventReplayManager::new(journal);
    assert_eq!(manager.replay(&mut scheduler), vec![gid]);
}

#[test]
fn replay_and_clear_empties_journal() {
    let mut journal = EventJournal::new();
    let mut scheduler = GoalScheduler::new();
    journal.record("test.event", None, None);
    journal.record("other.event", None, None);
    let mut manager = EventReplayManager::new(journal);
    let _woken = manager.replay_and_clear(&mut scheduler);
    assert!(manager.journal_ref().is_empty());
}

#[test]
fn empty_journal_replay() {
    let mut scheduler = GoalScheduler::new();
    let manager = EventReplayManager::new(EventJournal::new());
    assert!(manager.replay(&mut scheduler).is_empty());
}

#[test]
fn journal_max_entries() {
    let mut journal = EventJournal::new().with_max_entries(3);
    for i in 0..5 {
        journal.record(&format!("event.{i}"), None, None);
    }
    assert_eq!(journal.len(), 3);
    let all = journal.all();
    assert_eq!(all[0].event_type, "event.2");
    assert_eq!(all[2].event_type, "event.4");
}

#[test]
fn goal_scoped_event_replay() {
    let mut journal = EventJournal::new();
    let mut scheduler = GoalScheduler::new();
    let gid: u128 = 51;
    scheduler.register(gid, GoalPriority::Normal, vec![]);
    journal.record("custom.event", None, Some(gid));
    let manager = EventReplayManager::new(journal);
    assert_eq!(manager.replay(&mut scheduler), vec![gid]);
}

#[test]
fn replay_wakes_each_goal_once_in_first_order() {
    let mut journal = EventJournal::new();
    let mut scheduler = GoalScheduler::new();
    scheduler.register(1, GoalPriority::Normal, vec![EventSubscription::prefix("a.")]);
    scheduler.register(2, GoalPriority::Normal, vec![EventSubscription::exact("b.x")]);
    journal.record("b.x", None, None);
    journal.record("a.y", None, Some(2));
    journal.record("a.z", None, Some(7));
    let manager = EventReplayManager::new(journal);
    assert_eq!(manager.replay(&mut scheduler), vec![2, 1, 7]);
}

#[test]
fn match_event_lists_each_matching_goal_once() {
    let mut scheduler = GoalScheduler::new();
    scheduler.register(
        1,
        GoalPriority::Normal,
        vec![EventSubscription::prefix("brain."), EventSubscription::exact("brain.goal.completed")],
    );
    scheduler.register(2, GoalPriority::High, vec![EventSubscription::exact("other")]);
    scheduler.register(3, GoalPriority::Low, vec![EventSubscription::prefix("brain.goal")]);
    assert_eq!(scheduler.match_event("brain.goal.completed"), vec![1, 3]);
    assert_eq!(scheduler.len(), 3);
}
