use brain_coordinator::notifications::{
    Notification, NotificationCategory, NotificationLevel, NotificationService,
};

#[test]
fn test_notify_and_pending() {
    let mut svc = NotificationService::new();
    assert_eq!(svc.pending().len(), 0);

    svc.notify_simple(NotificationLevel::Info, NotificationCategory::GoalCompleted, "done", "goal finished");
    assert_eq!(svc.pending().len(), 1);

    let n = svc.pending().remove(0);
    assert_eq!(n.title, "done");
    assert!(!n.acknowledged);

    assert!(svc.acknowledge(n.id));
    assert_eq!(svc.pending().len(), 0);
}

#[test]
fn test_notification_expiry() {
    let mut svc = NotificationService::new();
    let past = chrono::Utc::now().timestamp_millis() - 10_000;
    svc.notify(
        Notification::new(NotificationLevel::Info, NotificationCategory::ExternalEvent, "expired", "already gone")
            .expires(past),
    );
    assert_eq!(svc.pending().len(), 0);
}

#[test]
fn test_goal_scoped_notifications() {
    let mut svc = NotificationService::new();
    let gid: u128 = 0x1234_5678_9abc_def0;
    svc.notify(
        Notification::new(NotificationLevel::Success, NotificationCategory::GoalCompleted, "g1", "goal one")
            .for_goal(gid),
    );
    svc.notify_simple(NotificationLevel::Info, NotificationCategory::GoalCreated, "nog", "no goal");
    assert_eq!(svc.for_goal(&gid).len(), 1);
}

#[test]
fn test_max_pending_eviction() {
    let mut svc = NotificationService::new().with_max_pending(3);
    for i in 0..5 {
        svc.notify_simple(
            NotificationLevel::Info,
            NotificationCategory::ExternalEvent,
            &format!("n{}", i),
            &format!("msg {}", i),
        );
    }
    assert_eq!(svc.all().len(), 3);
    assert_eq!(svc.all().first().unwrap().title, "n2");
}

#[test]
fn test_unacknowledged_count() {
    let mut svc = NotificationService::new();
    assert_eq!(svc.unacknowledged_count(), 0);
    svc.notify_simple(NotificationLevel::Warning, NotificationCategory::ResourceExhaustion, "warn", "low resources");
    assert_eq!(svc.unacknowledged_count(), 1);
}

#[test]
fn acknowledge_unknown_id_is_false() {
    let mut svc = NotificationService::new();
    svc.notify(Notification::new_at(7, 0, NotificationLevel::Info, NotificationCategory::GoalCreated, "t", "m"));
    assert!(!svc.acknowledge(8));
    assert!(svc.acknowledge(7));
    assert_eq!(svc.unacknowledged_count_at(0), 0);
}

#[test]
fn expired_notification_not_pending_at_its_time() {
    let mut svc = NotificationService::new();
    svc.notify(
        Notification::new_at(1, 0, NotificationLevel::Info, NotificationCategory::ExternalEvent, "t", "m").expires(100),
    );
    assert_eq!(svc.pending_at(99).len(), 1);
    assert_eq!(svc.pending_at(100).len(), 0);
}
