use brain_coordinator::attention::{AttentionOutcome, Rhythm};
use brain_coordinator::conversation::{
    decide_on_context, fallback_decision, format_context_summary, greeting_for_hour, honor_ask_user,
    hour_of_day, reflection_outcome, snapshot_of, stagnation_message, tick_decision,
    ConversationTurn, ConversationWindow, Decision, ReflectionLog, ReflectionRhythm,
};

const FORBIDDEN_TERMS: &[&str] = &[
    "world model",
    "entity",
    "relationship",
    "confidence",
    "attention score",
    "cognitive loop",
    "prediction engine",
    "memory graph",
    "strength=",
    "threshold",
    "signal strength",
    "Noted:",
    "Continuing where we left off",
    "Escalation:",
    "I've noted you",
    "I see you're working on",
    "(\n",
    "detected (strength=",
];

fn assert_no_internal_terms(msg: &str, context: &str) {
    let lower = msg.to_lowercase();
    for term in FORBIDDEN_TERMS {
        assert!(!lower.contains(term), "[{context}] message leaked internal term '{term}': {msg}");
    }
}

#[test]
fn test_stagnation_message_no_internal_leaks() {
    let types = ["project", "task", "person", "user", "skill", "custom_type"];
    for entity_type in &types {
        let msg = stagnation_message(entity_type, "AI-OS Project");
        assert_no_internal_terms(&msg, &format!("stagnation_message({entity_type})"));
    }
}

fn turn(m: &str, t: i64, user: bool) -> ConversationTurn {
    ConversationTurn { message: m.to_string(), timestamp: t, is_from_user: user }
}

fn message_of(d: &Decision) -> String {
    match d {
        Decision::Communicate { message, .. } => message.clone(),
        _ => String::new(),
    }
}

#[test]
fn stagnation_message_templates_by_name_length() {
    assert_eq!(stagnation_message("project", "Abcd"), "I noticed we haven't talked about Abcd in a while?");
    assert_eq!(stagnation_message("task", "A"), "Just thinking about A — how's it going??");
    assert_eq!(stagnation_message("person", "Bob"), "I haven't heard from Bob lately?");
    assert_eq!(stagnation_message("person", "Bo"), "I was thinking about Bo today?");
    assert_eq!(stagnation_message("skill", "Go"), "I was thinking about Go — making any progress??");
    assert_eq!(stagnation_message("place", "Rome"), "I noticed Rome — anything new?");
}

#[test]
fn window_keeps_last_ten_turns() {
    let mut w = ConversationWindow::new();
    for i in 0..12 {
        w.push(turn(&format!("m{i}"), i, true));
    }
    assert_eq!(w.turns().len(), 10);
    assert_eq!(w.turns()[0].message, "m2");
    assert_eq!(w.turns()[9].message, "m11");
}

#[test]
fn duplicates_found_among_recent_user_turns() {
    let mut w = ConversationWindow::new();
    w.push(turn("  Hello There  ", 0, true));
    w.push(turn("reply", 1, false));
    assert_eq!(w.detect_duplicate("hello there"), Some("  Hello There  ".to_string()));
    assert_eq!(w.detect_duplicate("reply"), None);
    w.push(turn("I am working on the companion", 2, true));
    assert_eq!(
        w.detect_duplicate("working on the companion today"),
        None
    );
    assert_eq!(
        w.detect_duplicate("working on the companion"),
        Some("I am working on the companion".to_string())
    );
}

#[test]
fn begin_cycle_counts_the_new_message() {
    let mut w = ConversationWindow::new();
    let (dup, gap) = w.begin_cycle("first", 5_000_000, 1);
    assert_eq!(dup, None);
    assert!(gap);
    assert_eq!(w.turns().len(), 1);
    let (dup, gap) = w.begin_cycle("  FIRST ", 5_001_000, 2);
    assert_eq!(dup, Some("first".to_string()));
    assert!(!gap);
    let (dup, gap) = w.begin_cycle("something else", 5_001_000 + 3_601_000, 3);
    assert_eq!(dup, None);
    assert!(gap);
    assert_eq!(w.turns().len(), 3);
}

#[test]
fn session_gap_after_an_hour() {
    let mut w = ConversationWindow::new();
    assert!(!w.has_session_gap(0, 0));
    assert!(w.has_session_gap(3, 0));
    w.push(turn("hi", 1_000_000, true));
    assert!(!w.has_session_gap(1, 1_000_000 + 3_600_000));
    assert!(w.has_session_gap(1, 1_000_000 + 3_601_000));
}

#[test]
fn recent_text_labels_speakers() {
    let mut w = ConversationWindow::new();
    w.push(turn("hi", 0, true));
    w.push(turn("hello", 1, false));
    assert_eq!(w.recent_text(), "User: hi\nYou: hello");
}

#[test]
fn context_summary_phrases() {
    let es = vec![
        ("project".to_string(), "AI-OS".to_string()),
        ("task".to_string(), "Docs".to_string()),
        ("skill".to_string(), "Rust".to_string()),
        ("plan".to_string(), "Trip".to_string()),
        ("person".to_string(), "Alice".to_string()),
    ];
    assert_eq!(
        format_context_summary(&es),
        "I remember your work on AI-OS and Docs, your interest in Rust, a plan you're working on"
    );
    assert_eq!(format_context_summary(&vec![]), "");
    assert_eq!(format_context_summary(&vec![("person".to_string(), "Bob".to_string())]), "");
}

#[test]
fn greetings_by_hour() {
    assert_eq!(greeting_for_hour(3), "Hey");
    assert_eq!(greeting_for_hour(9), "Good morning");
    assert_eq!(greeting_for_hour(13), "Good afternoon");
    assert_eq!(greeting_for_hour(20), "Good evening");
    assert_eq!(greeting_for_hour(23), "Hey");
    assert_eq!(hour_of_day(3600 * 25), 1);
}

#[test]
fn fallback_replies() {
    let d = fallback_decision(Some(("person", "User")), false, None, None, false, "", "Hey");
    match &d {
        Decision::Communicate { recipient, message, reason } => {
            assert_eq!(recipient, "user");
            assert_eq!(message, "Hey. I don't know much about you yet, but I'm here to learn. What's on your mind?");
            assert_eq!(reason, "responded to: User");
        }
        _ => panic!("expected a reply"),
    }
    let d = fallback_decision(Some(("project", "AI-OS")), false, None, None, true, "I remember x", "Hey");
    assert_eq!(message_of(&d), "Hey! I remember x. How is it going?");
    let d = fallback_decision(None, false, Some(("a", "b", "knows")), None, false, "", "Hey");
    match d {
        Decision::UpdateMemory { entity_name, entity_type, properties, reason } => {
            assert_eq!(entity_name, "b");
            assert_eq!(entity_type, "entity");
            assert_eq!(properties, vec![("related".to_string(), "knows".to_string())]);
            assert_eq!(reason, "relation: a -> b");
        }
        _ => panic!("expected a memory update"),
    }
    assert!(matches!(fallback_decision(None, false, None, None, false, "", "Hey"), Decision::Wait));
}

#[test]
fn context_decisions() {
    assert!(matches!(decide_on_context(None, true, 0, true, true), Decision::Wait));
    assert!(matches!(decide_on_context(Some(("project", "X")), false, 1, true, true), Decision::Wait));
    let d = decide_on_context(Some(("project", "X")), true, 0, true, false);
    assert_eq!(message_of(&d), stagnation_message("project", "X"));
    let d = decide_on_context(Some(("project", "X")), false, 3, false, true);
    match d {
        Decision::Communicate { reason, .. } => assert_eq!(reason, "follow-up after quiet period"),
        _ => panic!("expected a follow-up"),
    }
}

#[test]
fn tick_and_ask_user() {
    let ask = AttentionOutcome::AskUser { question: "What now?".to_string() };
    assert_eq!(message_of(&tick_decision(&ask, Decision::Wait)), "What now?");
    let later = AttentionOutcome::ObserveLater { rhythm: Rhythm::Minutes(3) };
    assert!(matches!(tick_decision(&later, Decision::Wait), Decision::Wait));
    let d = honor_ask_user(Decision::Wait, &ask);
    match d {
        Decision::Communicate { reason, .. } => assert_eq!(reason, "AI needs user input to proceed"),
        _ => panic!("expected a question"),
    }
}

#[test]
fn reflection_labels_and_snapshots() {
    assert_eq!(reflection_outcome(&Decision::Wait), "silent");
    let d = Decision::Execute { action: "run".to_string() };
    assert_eq!(reflection_outcome(&d), "executed");
    let s = snapshot_of(&d);
    assert_eq!(s.decision_type, "Execute");
    assert_eq!(s.message, Some("run".to_string()));
    assert_eq!(s.reason, None);
}

#[test]
fn reflection_rhythm_counts_silence() {
    let mut r = ReflectionRhythm::new();
    assert!(r.is_first_ever());
    r.after_tick(&Decision::Wait, 10);
    r.after_tick(&Decision::Wait, 20);
    assert_eq!(r.consecutive_silent_ticks, 2);
    r.after_tick(&Decision::Execute { action: "x".into() }, 30);
    assert_eq!(r.consecutive_silent_ticks, 0);
    assert_eq!(r.last_communicated_at, Some(30));
}

#[test]
fn reflection_log_records_every_tick() {
    let mut log = ReflectionLog::new();
    assert_eq!(log.len(), 0);
    log.record(1, &Decision::Wait, "", 1_000);
    let said = Decision::Communicate {
        recipient: "user".to_string(),
        message: "How is Atlas coming along?".to_string(),
        reason: "companion reflection".to_string(),
    };
    log.record(2, &said, "I remember your work on Atlas", 2_000);
    assert_eq!(log.len(), 2);
    assert_eq!(log.all()[0].outcome, "silent");
    assert_eq!(log.all()[1].outcome, "communicated");
    assert_eq!(log.all()[1].cycle, 2);
    assert_eq!(log.all()[1].summary, "I remember your work on Atlas");
    assert_eq!(log.all()[1].timestamp, 2_000);
    let last = log.recent(1);
    assert_eq!(last.len(), 1);
    assert_eq!(last[0].cycle, 2);
    assert_eq!(log.recent(50).len(), 2);
}
