use brain_coordinator::audit_log::{ActivityCategory, AuditLog};
use brain_coordinator::capability_policy::{
    audit_detail, audit_trace, decision_kind, default_permissions, default_policies, DecisionKind,
    RiskLevel,
};
use brain_coordinator::companion::{
    activity_summary, audit_log_path, default_observation_config, default_source_names,
    permitted_sources, record_cycle, telegram_identities_path, AUTOSAVE_INTERVAL_SECS,
};
use brain_coordinator::conversation::Decision;
use brain_coordinator::permissions::{PermissionRegistry, PermissionState};

#[test]
fn only_granted_sources_observe() {
    let mut reg = PermissionRegistry::new();
    let names = vec!["time".to_string(), "system".to_string(), "desktop".to_string()];
    assert!(permitted_sources(&reg, &names).is_empty());
    reg.set("desktop", PermissionState::Granted);
    assert_eq!(permitted_sources(&reg, &names), vec![2]);
    let all = PermissionRegistry::all_granted();
    assert_eq!(permitted_sources(&all, &names), vec![0, 1, 2]);
}

#[test]
fn long_activity_is_summarized() {
    assert_eq!(activity_summary("short"), "short");
    let long = "x".repeat(100);
    let s = activity_summary(&long);
    assert_eq!(s.len(), 80);
    assert!(s.ends_with("..."));
    assert_eq!(&s[..77], &long[..77]);
    let exact = "y".repeat(80);
    assert_eq!(activity_summary(&exact), exact);
}

#[test]
fn cycle_records_observation_and_communication() {
    let mut log = AuditLog::new(10);
    let wait = record_cycle(&mut log, 1000, "time: 10:00", &Decision::Wait);
    assert!(wait.is_none());
    let d = Decision::Communicate {
        recipient: "user".to_string(),
        message: "Hello".to_string(),
        reason: "greeting".to_string(),
    };
    let n = record_cycle(&mut log, 2000, "time: 10:01", &d);
    assert_eq!(n, Some(("Hello".to_string(), "greeting".to_string())));
    let entries = log.entries();
    assert_eq!(entries.len(), 3);
    assert_eq!(entries[2].category, ActivityCategory::Observation);
    assert_eq!(entries[1].category, ActivityCategory::Observation);
    assert_eq!(entries[0].category, ActivityCategory::Notification);
    assert_eq!(entries[0].summary, "Hello");
    assert_eq!(entries[0].details, "greeting");
    assert_eq!(entries[0].timestamp, 2000);
}

#[test]
fn companion_defaults_and_paths() {
    assert_eq!(AUTOSAVE_INTERVAL_SECS, 300);
    let c = default_observation_config(30);
    assert_eq!(c.interval_secs, 30);
    assert_eq!(c.max_history, 100);
    assert_eq!(default_source_names(), vec!["time".to_string(), "system".to_string()]);
    assert_eq!(
        audit_log_path("/home/ana"),
        "/home/ana/.local/share/ai-os-companion/audit_log.json"
    );
    assert!(telegram_identities_path("/home/ana").starts_with("/home/ana/.local/share/ai-os-companion/"));
}

#[test]
fn email_send_is_high_risk_and_confirmed() {
    let p = default_policies();
    let email = p.iter().find(|r| r.capability == "email.send").unwrap();
    assert_eq!(email.risk, RiskLevel::High);
    assert!(email.requires_confirmation);
    assert_eq!(email.required_permission, Some("email.compose"));
    let root = p.iter().find(|r| r.capability == "filesystem.write_root").unwrap();
    assert!(root.denied);
    assert_eq!(default_permissions().len(), 8);
}

#[test]
fn policy_decisions_are_classified() {
    assert_eq!(decision_kind(true, true, None), DecisionKind::Confirmed);
    assert_eq!(decision_kind(true, false, None), DecisionKind::Executed);
    assert_eq!(
        decision_kind(false, false, Some("missing permissions: email.compose")),
        DecisionKind::PermissionDenied
    );
    assert_eq!(decision_kind(false, false, Some("capability denied")), DecisionKind::Denied);
    assert_eq!(decision_kind(false, false, None), DecisionKind::Denied);
    assert_eq!(audit_detail(None), "allowed");
    assert_eq!(audit_detail(Some("nope")), "nope");
    assert_eq!(audit_trace("email.send"), "capability:email.send");
}
