use brain_coordinator::attention::{
    attention_reason, build_notification, context_outcome, decide_outcome, high_attention_outcome,
    outcome_rhythm, select_rhythm, AttentionLevel, AttentionOutcome, ResponseCounters, Rhythm,
    SignalFlags, SignalVolume, UserResponse,
};

fn pairs(v: &[(&str, &str)]) -> Vec<(String, String)> {
    v.iter().map(|(t, n)| (t.to_string(), n.to_string())).collect()
}

#[test]
fn test_notification_message_no_internal_leaks() {
    let msg = build_notification(&pairs(&[("person", "Alice")]));
    assert!(!msg.to_lowercase().contains("attention"), "notification leaked 'attention': {msg}");
    assert!(!msg.to_lowercase().contains("world model"), "notification leaked 'world model': {msg}");
    let msg2 = build_notification(&vec![]);
    assert!(!msg2.to_lowercase().contains("deserves"), "notification still uses old term: {msg2}");
}

#[test]
fn notifications_name_the_people() {
    assert_eq!(build_notification(&pairs(&[("person", "Alice")])), "Alice is around");
    assert_eq!(
        build_notification(&pairs(&[("user", "Bob"), ("project", "X"), ("person", "Eve")])),
        "2 people are present"
    );
    assert_eq!(build_notification(&pairs(&[("project", "X")])), "Something came up that might be worth discussing.");
}

#[test]
fn dominant_signal_outcomes() {
    assert!(matches!(high_attention_outcome("people"), AttentionOutcome::ReflectNow));
    assert!(matches!(
        high_attention_outcome("uncertainty"),
        AttentionOutcome::ReflectSoon { rhythm: Rhythm::Minutes(2) }
    ));
    assert!(matches!(
        high_attention_outcome("novelty"),
        AttentionOutcome::ObserveLater { rhythm: Rhythm::Minutes(10) }
    ));
    assert!(matches!(
        high_attention_outcome("anomaly"),
        AttentionOutcome::ReflectSoon { rhythm: Rhythm::Minutes(5) }
    ));
    assert!(matches!(high_attention_outcome("whatever"), AttentionOutcome::ReflectNow));
}

#[test]
fn decision_tree() {
    let none = SignalFlags { high_urgency: false, people: false, state_change: false };
    let people = SignalFlags { people: true, ..none };
    let es = pairs(&[("person", "Alice")]);
    assert!(matches!(decide_outcome(AttentionLevel::Weak, "people", people, SignalVolume::High, &es), AttentionOutcome::Ignore));
    match decide_outcome(AttentionLevel::Elevated, "people", people, SignalVolume::High, &es) {
        AttentionOutcome::Notify { message } => assert_eq!(message, "Alice is around"),
        other => panic!("unexpected {other:?}"),
    }
    assert!(matches!(
        decide_outcome(AttentionLevel::Elevated, "x", none, SignalVolume::Low, &es),
        AttentionOutcome::ReflectSoon { rhythm: Rhythm::Minutes(5) }
    ));
    assert!(matches!(
        decide_outcome(AttentionLevel::Moderate, "x", none, SignalVolume::Medium, &es),
        AttentionOutcome::ObserveLater { rhythm: Rhythm::Minutes(15) }
    ));
    let urgent = SignalFlags { high_urgency: true, ..people };
    assert!(matches!(decide_outcome(AttentionLevel::Elevated, "x", urgent, SignalVolume::Low, &es), AttentionOutcome::ReflectNow));
}

#[test]
fn rhythms_and_reasons() {
    assert_eq!(select_rhythm(SignalVolume::High), Rhythm::Minutes(5));
    assert_eq!(select_rhythm(SignalVolume::Low), Rhythm::Minutes(30));
    assert_eq!(outcome_rhythm(&context_outcome(AttentionLevel::Elevated)), Some(Rhythm::Minutes(15)));
    assert_eq!(outcome_rhythm(&AttentionOutcome::ReflectNow), None);
    assert_eq!(attention_reason(false, Some("people")), "Not enough to act on");
    assert_eq!(attention_reason(true, Some("people")), "Paying attention — Most relevant: people");
    assert_eq!(attention_reason(true, None), "Paying attention — ");
}

#[test]
fn response_counters() {
    let mut c = ResponseCounters::new();
    c.record(Some(UserResponse::Ignored));
    c.record(Some(UserResponse::Ignored));
    assert_eq!(c.consecutive_ignores, 2);
    c.record(None);
    assert_eq!(c.consecutive_ignores, 2);
    c.record(Some(UserResponse::Accepted));
    assert_eq!(c.consecutive_ignores, 0);
    assert_eq!(c.recent_accepts, 1);
    c.record(Some(UserResponse::Rejected));
    assert_eq!(c.recent_rejects, 1);
}
