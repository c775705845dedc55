use brain_coordinator::capabilities::{Capability, CapabilityRegistry};

#[test]
fn test_default_registry_has_standard_capabilities() {
    let reg = CapabilityRegistry::default();
    assert!(reg.get("search_memory").is_some());
    assert!(reg.get("respond").is_some());
    assert!(reg.get("ignore").is_some());
    assert!(reg.get("observe").is_some());
}

#[test]
fn test_custom_capability_registration() {
    let mut reg = CapabilityRegistry::new();
    reg.register(Capability {
        name: "web_search".into(),
        description: "Search the web for information.".into(),
    });
    assert!(reg.get("web_search").is_some());
}

#[test]
fn test_list_returns_sorted_capabilities() {
    let reg = CapabilityRegistry::default();
    let list = reg.list();
    assert!(!list.is_empty());
    for i in 1..list.len() {
        assert!(list[i - 1].name <= list[i].name);
    }
}

#[test]
fn register_replaces_description() {
    let mut reg = CapabilityRegistry::new();
    reg.register(Capability { name: "a".into(), description: "one".into() });
    reg.register(Capability { name: "a".into(), description: "two".into() });
    assert_eq!(reg.list().len(), 1);
    assert_eq!(reg.get("a").unwrap().description, "two");
    assert!(reg.get("b").is_none());
}
