use brain_coordinator::audit_log::{ActivityCategory, AuditLog};

#[test]
fn test_record_and_retrieve() {
    let mut log = AuditLog::new(100);
    log.record(ActivityCategory::Observation, "Observed desktop", "Active window: Firefox");
    log.record(ActivityCategory::MemoryCreated, "Created entity", "Name: AI-OS");

    assert_eq!(log.len(), 2);
    let entries = log.entries();
    assert_eq!(entries.len(), 2);
    assert_eq!(entries[0].summary, "Created entity");
    assert_eq!(entries[1].summary, "Observed desktop");
}

#[test]
fn test_max_entries() {
    let mut log = AuditLog::new(5);
    for i in 0..10 {
        log.record(ActivityCategory::Observation, &format!("entry {i}"), "");
    }
    assert_eq!(log.len(), 5);
    let entries = log.entries();
    assert_eq!(entries[0].summary, "entry 9");
    assert_eq!(entries[4].summary, "entry 5");
}

#[test]
fn test_filter_by_category() {
    let mut log = AuditLog::new(100);
    log.record(ActivityCategory::Observation, "obs1", "");
    log.record(ActivityCategory::Conversation, "chat1", "");
    log.record(ActivityCategory::Observation, "obs2", "");

    let obs_entries = log.entries_by_category(&ActivityCategory::Observation);
    assert_eq!(obs_entries.len(), 2);
}

#[test]
fn filter_keeps_newest_first() {
    let mut log = AuditLog::new(100);
    log.record_at(1, ActivityCategory::Observation, "obs1", "");
    log.record_at(2, ActivityCategory::Conversation, "chat1", "");
    log.record_at(3, ActivityCategory::Observation, "obs2", "");
    let obs = log.entries_by_category(&ActivityCategory::Observation);
    assert_eq!(obs[0].summary, "obs2");
    assert_eq!(obs[1].summary, "obs1");
    assert_eq!(obs[0].timestamp, 3);
}

#[test]
fn full_log_drops_oldest_only() {
    let mut log = AuditLog::new(2);
    log.record_at(1, ActivityCategory::Backup, "a", "");
    log.record_at(2, ActivityCategory::Backup, "b", "");
    log.record_at(3, ActivityCategory::Backup, "c", "d");
    let e = log.entries();
    assert_eq!(e.len(), 2);
    assert_eq!(e[0].summary, "c");
    assert_eq!(e[0].details, "d");
    assert_eq!(e[1].summary, "b");
}

#[test]
fn category_labels() {
    assert_eq!(ActivityCategory::Observation.to_string(), "Observation");
    assert_eq!(ActivityCategory::MemoryCreated.to_string(), "Memory created");
}
