use brain_coordinator::agents::{AgentDirectory, AgentEntry};

fn entry(id: u128, name: &str, role: &str, caps: &[&str]) -> AgentEntry {
    AgentEntry {
        id,
        name: name.to_string(),
        role: role.to_string(),
        capabilities: caps.iter().map(|c| c.to_string()).collect(),
    }
}

#[test]
fn agents_are_found_by_role_and_capability() {
    let mut d = AgentDirectory::new();
    d.register_entry(entry(1, "coder", "developer", &["code.write", "code.review"]));
    d.register_entry(entry(2, "ops", "operator", &["deploy"]));
    assert_eq!(d.find_by_role("operator"), Some(2));
    assert_eq!(d.find_by_role("designer"), None);
    assert_eq!(d.find_by_capability("code.review"), Some((1, "developer".to_string())));
    assert_eq!(d.find_by_capability("paint"), None);
    let list = d.list_agents();
    assert_eq!(list.len(), 2);
    let ops = list.iter().find(|a| a.agent_id == 2).unwrap();
    assert_eq!(ops.name, "ops");
    assert_eq!(ops.role, "operator");
    assert!(ops.is_available);
    assert_eq!(ops.max_concurrent_tasks, 5);
    assert_eq!(ops.current_tasks, 0);
    assert!(list.iter().any(|a| a.agent_id == 1 && a.name == "coder"));
}

#[test]
fn registering_same_id_replaces_and_unregister_reports() {
    let mut d = AgentDirectory::new();
    d.register_entry(entry(7, "a", "r1", &[]));
    d.register_entry(entry(7, "b", "r2", &[]));
    assert_eq!(d.list_agents().len(), 1);
    assert_eq!(d.list_agents()[0].name, "b");
    let id = d.register("c", "r3", Vec::new());
    assert!(d.has_agent(id));
    assert!(d.unregister(7));
    assert!(!d.unregister(7));
    assert!(!d.has_agent(7));
    assert_eq!(d.find_by_role("r3"), Some(id));
}

#[test]
fn registered_agent_keeps_its_capabilities() {
    let mut d = AgentDirectory::new();
    let id = d.register("critic", "developer", vec!["code.review".to_string()]);
    assert_eq!(d.find_by_capability("code.review"), Some((id, "developer".to_string())));
    assert_eq!(d.find_by_role("developer"), Some(id));
}
