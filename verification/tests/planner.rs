use brain_coordinator::capabilities::{Capability, CapabilityRegistry};
use brain_coordinator::conversation::{ConversationTurn, Decision};
use brain_coordinator::executor::{
    memory_search_summary, reply_decision, respond_prompt, search_recent_conversation, StoredEntity,
};
use brain_coordinator::planner::{
    classify_action, clean_model_json, plan_from_reply, planner_prompt, Plan, PlannedAction,
    PlannedStep, Planner, PlannerReply,
};

fn action(t: &str, topics: &[&str], reason: &str) -> PlannedAction {
    PlannedAction {
        action_type: t.into(),
        topics: topics.iter().map(|s| s.to_string()).collect(),
        reason: reason.into(),
    }
}

#[test]
fn planner_returns_plan() {
    let plan = Plan { actions: vec![action("respond", &[], "user said hello")] };
    let result = plan_from_reply(PlannerReply::Parsed(plan));
    assert_eq!(result.actions.len(), 1);
    assert_eq!(result.actions[0].action_type, "respond");
    assert_eq!(result.actions[0].reason, "user said hello");
}

#[test]
fn planner_empty_plan_falls_back() {
    let result = plan_from_reply(PlannerReply::Parsed(Plan { actions: vec![] }));
    assert_eq!(result.actions.len(), 1);
    assert_eq!(result.actions[0].action_type, "respond");
    assert_eq!(result.actions[0].reason, "empty plan fallback");
    let result = plan_from_reply(PlannerReply::Unparsable("bad".into()));
    assert_eq!(result.actions[0].reason, "parse error: bad");
    let result = plan_from_reply(PlannerReply::Failed("down".into()));
    assert_eq!(result.actions[0].reason, "LLM error: down");
    assert!(!result.is_empty());
}

#[test]
fn model_replies_lose_their_fences() {
    assert_eq!(clean_model_json("  ```json\n{\"a\":1}\n```  "), "{\"a\":1}");
    assert_eq!(clean_model_json("```[1]```"), "[1]");
    assert_eq!(clean_model_json(" {} "), "{}");
}

#[test]
fn planner_prompt_lists_capabilities_and_placeholders() {
    let caps = vec![Capability { name: "respond".into(), description: "Reply.".into() }];
    let p = planner_prompt(&caps, "hi", "", "", false);
    assert!(p.contains("Available capabilities:\n- respond: Reply.\n\nRecent conversation:\n(no recent conversation)"));
    assert!(p.contains("Memory context:\n(no stored knowledge)"));
    assert!(p.ends_with("Has prior knowledge: false\n\nUser message: hi"));
    let planner = Planner::new();
    let q = planner.plan_prompt("hi", "User: hi", "I remember x", true);
    assert!(q.contains("- ask_clarification:"));
    assert!(q.contains("Recent conversation:\nUser: hi"));
    assert!(q.contains("Has prior knowledge: true"));
    let custom = Planner::new_with_capabilities(CapabilityRegistry::new());
    assert!(custom.plan_prompt("x", "", "", false).contains("Available capabilities:\n\n\nRecent"));
}

#[test]
fn actions_become_steps() {
    assert!(matches!(classify_action(&action("search_memory", &[], "")), PlannedStep::SearchMemory));
    assert!(matches!(classify_action(&action("respond", &[], "")), PlannedStep::Respond));
    match classify_action(&action("ask_clarification", &[], "why")) {
        PlannedStep::Decide(Decision::Communicate { message, reason, .. }) => {
            assert_eq!(message, "Could you clarify what you mean?");
            assert_eq!(reason, "why");
        }
        _ => panic!("expected a question"),
    }
    assert!(matches!(classify_action(&action("observe", &[], "")), PlannedStep::Decide(Decision::Wait)));
    assert!(matches!(classify_action(&action("mystery", &[], "")), PlannedStep::Skip));
}

fn entity(name: &str, t: &str, status: Option<&str>) -> StoredEntity {
    StoredEntity { name: name.into(), entity_type: t.into(), status: status.map(|s| s.to_string()) }
}

#[test]
fn memory_search_summaries() {
    assert_eq!(memory_search_summary(&vec![], &vec![]), "I don't have any stored knowledge yet.");
    let all = vec![
        entity("Alice", "person", None),
        entity("AI-OS", "project", Some("in progress")),
        entity("Rust", "skill", None),
        entity("Rome", "place", None),
    ];
    assert_eq!(
        memory_search_summary(&all, &vec![]),
        "people: Alice; projects: AI-OS (in progress); interests: Rust; other: Rome"
    );
    assert_eq!(memory_search_summary(&all, &vec!["RUST".into()]), "interests: Rust");
    assert_eq!(memory_search_summary(&all, &vec!["proj".into()]), "projects: AI-OS (in progress)");
    assert_eq!(memory_search_summary(&all, &vec!["zzz".into()]), "I don't have any knowledge matching those topics.");
    assert_eq!(memory_search_summary(&all, &vec!["zzz".into(), "all".into()]).len() > 0, true);
}

fn turn(m: &str, user: bool) -> ConversationTurn {
    ConversationTurn { message: m.into(), timestamp: 0, is_from_user: user }
}

#[test]
fn conversation_search() {
    let turns = vec![turn("I like Rust", true), turn("Nice", false)];
    assert_eq!(search_recent_conversation(&vec![], &vec![]), "");
    assert_eq!(search_recent_conversation(&turns, &vec![]), "User: I like Rust\nCompanion: Nice");
    assert_eq!(search_recent_conversation(&turns, &vec!["rust".into()]), "User: I like Rust");
    assert_eq!(search_recent_conversation(&turns, &vec!["go".into()]), "User: I like Rust\nCompanion: Nice");
}

#[test]
fn reply_prompt_blocks() {
    let turns = vec![turn("hi", true)];
    let p = respond_prompt("hi", &turns, "", true, Some("hi"), true, Some("people: Alice"), None, "  ");
    assert!(p.contains("\nRecent conversation:\nUser: hi\n"));
    assert!(p.contains("\nMemory search results: people: Alice\n"));
    assert!(p.contains("first message after a gap"));
    assert!(p.contains("the user repeated themselves"));
    assert!(!p.contains("Confirmed action results"));
    assert!(p.ends_with("User message: hi"));
    let long = "x".repeat(60);
    let q = respond_prompt("other", &vec![], "ctx", false, Some(&long), false, None, Some(""), "- email.send: SUCCEEDED");
    assert!(q.contains(&format!("similar before ({}). Vary", "x".repeat(50))));
    assert!(q.contains("\nContext from memory: ctx\n"));
    assert!(q.contains("only these external actions actually happened):\n- email.send: SUCCEEDED\n"));
    assert!(!q.contains("Conversation search results"));
}

#[test]
fn reply_decisions() {
    assert!(matches!(reply_decision(None), Decision::Wait));
    assert!(matches!(reply_decision(Some("   ")), Decision::Wait));
    match reply_decision(Some("  Hello! ")) {
        Decision::Communicate { recipient, message, reason } => {
            assert_eq!(recipient, "user");
            assert_eq!(message, "Hello!");
            assert_eq!(reason, "response to user message");
        }
        _ => panic!("expected a reply"),
    }
}
