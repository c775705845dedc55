use brain_coordinator::communication_policy::{CommunicationPolicy, MessageOrigin, PolicyVerdict};
use brain_coordinator::settings::{CommunicationSettings, NotificationPriority};

fn policy() -> CommunicationPolicy {
    CommunicationPolicy {
        quiet_hours_enabled: true,
        quiet_start_hour: 22,
        quiet_end_hour: 8,
        quiet_min_priority: NotificationPriority::High,
    }
}

#[test]
fn user_initiated_always_delivered_even_in_quiet_hours() {
    let p = policy();
    assert_eq!(
        p.evaluate(MessageOrigin::UserInitiated, NotificationPriority::Low, 23),
        PolicyVerdict::Allow
    );
    assert_eq!(
        p.evaluate(MessageOrigin::UserInitiated, NotificationPriority::Normal, 3),
        PolicyVerdict::Allow
    );
}

#[test]
fn proactive_normal_deferred_during_quiet_hours() {
    let p = policy();
    assert_eq!(
        p.evaluate(MessageOrigin::Proactive, NotificationPriority::Normal, 23),
        PolicyVerdict::Defer
    );
    assert_eq!(
        p.evaluate(MessageOrigin::Proactive, NotificationPriority::Normal, 2),
        PolicyVerdict::Defer
    );
}

#[test]
fn proactive_low_stored_during_quiet_hours() {
    let p = policy();
    assert_eq!(
        p.evaluate(MessageOrigin::Proactive, NotificationPriority::Low, 23),
        PolicyVerdict::Store
    );
}

#[test]
fn critical_interrupts_during_quiet_hours() {
    let p = policy();
    assert_eq!(
        p.evaluate(MessageOrigin::Proactive, NotificationPriority::Critical, 3),
        PolicyVerdict::AllowCritical
    );
}

#[test]
fn allowed_outside_quiet_hours() {
    let p = policy();
    assert_eq!(
        p.evaluate(MessageOrigin::Proactive, NotificationPriority::Normal, 12),
        PolicyVerdict::Allow
    );
    assert_eq!(
        p.evaluate(MessageOrigin::Proactive, NotificationPriority::Low, 12),
        PolicyVerdict::Allow
    );
}

#[test]
fn quiet_hour_boundaries() {
    let p = policy();
    assert!(!p.is_quiet_hour(21), "21:00 is before quiet hours");
    assert!(p.is_quiet_hour(22), "22:00 is quiet");
    assert!(p.is_quiet_hour(23), "23:00 is quiet");
    assert!(p.is_quiet_hour(7), "07:00 is still quiet");
    assert!(!p.is_quiet_hour(8), "08:00 ends quiet hours");
    assert!(!p.is_quiet_hour(9), "09:00 is not quiet");
}

#[test]
fn quiet_hours_disabled_always_allows() {
    let p = CommunicationPolicy {
        quiet_hours_enabled: false,
        ..policy()
    };
    assert!(!p.is_quiet_hour(23));
    assert_eq!(
        p.evaluate(MessageOrigin::Proactive, NotificationPriority::Normal, 3),
        PolicyVerdict::Allow
    );
}

#[test]
fn equal_start_end_disables_window() {
    let p = CommunicationPolicy {
        quiet_start_hour: 0,
        quiet_end_hour: 0,
        ..policy()
    };
    assert!(!p.is_quiet_hour(0));
}

#[test]
fn now_hour_in_range() {
    let h = CommunicationPolicy::now_hour();
    assert!((0..=23).contains(&h), "hour should be 0-23, got {h}");
}

#[test]
fn high_priority_interrupts_quiet_hours_at_threshold() {
    let p = policy();
    assert_eq!(
        p.evaluate(MessageOrigin::Proactive, NotificationPriority::High, 1),
        PolicyVerdict::AllowCritical
    );
}

#[test]
fn window_within_a_day() {
    let p = CommunicationPolicy {
        quiet_start_hour: 9,
        quiet_end_hour: 17,
        ..policy()
    };
    assert!(!p.is_quiet_hour(8));
    assert!(p.is_quiet_hour(9));
    assert!(p.is_quiet_hour(16));
    assert!(!p.is_quiet_hour(17));
}

#[test]
fn default_policy_matches_default_settings() {
    let p = CommunicationPolicy::default_policy();
    let s = CommunicationSettings::default();
    assert_eq!(p, CommunicationPolicy::from_settings(&s));
    assert!(p.quiet_hours_enabled);
    assert_eq!(p.quiet_start_hour, 22);
    assert_eq!(p.quiet_end_hour, 8);
    assert_eq!(p.quiet_min_priority, NotificationPriority::High);
}
