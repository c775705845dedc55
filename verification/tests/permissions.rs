use brain_coordinator::permissions::{PermissionRegistry, PermissionState};

#[test]
fn test_default_all_denied() {
    let reg = PermissionRegistry::new();
    assert!(!reg.is_granted("time"));
    assert!(!reg.is_granted("system"));
    assert!(!reg.is_granted("desktop"));
    assert!(!reg.is_granted("unknown_source"));
}

#[test]
fn test_all_granted() {
    let reg = PermissionRegistry::all_granted();
    assert!(reg.is_granted("time"));
    assert!(reg.is_granted("system"));
}

#[test]
fn test_set_permission() {
    let mut reg = PermissionRegistry::new();
    assert!(!reg.is_granted("desktop"));
    reg.set("desktop", PermissionState::Granted);
    assert!(reg.is_granted("desktop"));
    reg.set("desktop", PermissionState::Denied);
    assert!(!reg.is_granted("desktop"));
}

#[test]
fn test_category_mapping() {
    assert_eq!(PermissionRegistry::category_for_source("time"), "time");
    assert_eq!(PermissionRegistry::category_for_source("system"), "system");
    assert_eq!(PermissionRegistry::category_for_source("desktop"), "desktop");
    assert_eq!(
        PermissionRegistry::category_for_source("custom_thing"),
        "custom_thing"
    );
}

#[test]
fn test_unknown_source_not_granted() {
    let reg = PermissionRegistry::new();
    assert!(!reg.is_granted("does_not_exist"));
}

#[test]
fn set_on_unknown_category_is_ignored() {
    let mut reg = PermissionRegistry::new();
    reg.set("telepathy", PermissionState::Granted);
    assert!(!reg.is_granted("telepathy"));
    assert_eq!(reg.permissions.len(), 11);
}

#[test]
fn all_known_lists_eleven_categories_in_order() {
    let known = PermissionRegistry::all_known();
    assert_eq!(known.len(), 11);
    assert_eq!(known[0].0, "time");
    assert_eq!(known[10].0, "camera");
    let reg = PermissionRegistry::new();
    assert_eq!(reg.permissions[2].0, "desktop");
    assert_eq!(reg.permissions[2].1.state, PermissionState::Denied);
}

#[test]
fn known_categories_carry_their_descriptions() {
    let known = PermissionRegistry::all_known();
    assert_eq!(known[1].1, "Monitor system load and memory usage");
    assert_eq!(known[9].1, "Access microphone");
    let reg = PermissionRegistry::all_granted();
    assert_eq!(reg.permissions[0].1.description, "Track time of day for context awareness");
    assert_eq!(reg.permissions[10].1.description, "Access camera");
}
