use brain_coordinator::errors::CoordinatorError;
use brain_coordinator::memory_control::{
    correct_outcome, corrected_fields, date_range_outcome, days_since, explain_entity,
    forget_all_message, forget_outcome, in_date_range, merge_check, redirected_relationships, Level,
};

fn internal(r: Result<String, CoordinatorError>) -> String {
    match r {
        Err(CoordinatorError::Internal(m)) => m,
        other => panic!("unexpected {other:?}"),
    }
}

#[test]
fn test_explain_low_confidence() {
    let days = days_since(1_700_000_000, 100);
    let explanation = explain_entity("Rust", Level::Low, Level::Low, days, 0);
    assert!(explanation.contains("still learning"));
    assert!(!explanation.contains("very important"));
}

#[test]
fn test_explain_never_mentions_internal_terms() {
    let explanation = explain_entity("Test", Level::Low, Level::Low, 0, 0);
    let forbidden = [
        "world model",
        "entity",
        "confidence",
        "importance",
        "relationship",
        "strength",
        "attention",
        "cognitive loop",
    ];
    let lower = explanation.to_lowercase();
    for term in &forbidden {
        assert!(!lower.contains(term), "explanation leaked '{term}': {explanation}");
    }
}

#[test]
fn explanation_text() {
    assert_eq!(
        explain_entity("AI-OS", Level::High, Level::High, 0, 7),
        "I'm quite sure about AI-OS — you've mentioned it multiple times. This seems very important to you, so I pay extra attention. We talked about this very recently. This is connected to 7 other things I know about you."
    );
    assert_eq!(
        explain_entity("Alice", Level::Medium, Level::Medium, 5, 1),
        "I've seen Alice mentioned a few times and I'm building my understanding. This is moderately important in your life. It's been about 5 days since we last talked about this. This relates to 1 other areas of your life."
    );
    assert!(explain_entity("X", Level::Low, Level::Low, 20, 0).ends_with("I haven't heard about this in a while (20 days)."));
}

#[test]
fn days_since_saturates() {
    assert_eq!(days_since(100, 200), 0);
    assert_eq!(days_since(86_400 * 3 + 5, 0), 3);
}

#[test]
fn forget_answers() {
    assert_eq!(internal(forget_outcome(&vec![], "Ghost")), "No memory found matching 'Ghost'");
    let names = vec!["Alice".to_string(), "Alice B".to_string()];
    assert_eq!(forget_outcome(&names, "Alice").unwrap(), "Forgot about Alice, Alice B");
    assert!(forget_all_message().contains("cleared"));
}

#[test]
fn merge_answers_and_redirects() {
    assert_eq!(internal(merge_check("a", "b", false, true)), "Source 'a' not found");
    assert_eq!(internal(merge_check("a", "b", true, false)), "Target 'b' not found");
    assert_eq!(merge_check("AI OS", "AI-OS", true, true).unwrap(), "Merged 'AI OS' into 'AI-OS'");
    let rels = vec![(1u128, 5u128), (5, 2), (5, 5), (3, 4)];
    assert_eq!(redirected_relationships(&rels, 5, 9), vec![(1, 9), (9, 2), (9, 5), (5, 9)]);
}

#[test]
fn correction_answers() {
    let (n, t) = corrected_fields("Alic", "person", Some("Alice"), None);
    assert_eq!((n.as_str(), t.as_str()), ("Alice", "person"));
    assert_eq!(correct_outcome("Alic", true, Some("Alice"), None).unwrap(), "Corrected 'Alic': renamed to 'Alice'");
    assert_eq!(
        correct_outcome("x", true, Some("y"), Some("skill")).unwrap(),
        "Corrected 'x': renamed to 'y', type changed to 'skill'"
    );
    assert_eq!(internal(correct_outcome("x", false, None, None)), "No memory found: 'x'");
}

#[test]
fn date_range_forgetting() {
    let updated = vec![1000i64, 5000, 150];
    assert_eq!(in_date_range(&updated, 100, 2000), vec![0, 2]);
    assert_eq!(date_range_outcome(1).unwrap(), "Forgot 1 memories from that period");
    assert_eq!(internal(date_range_outcome(0)), "No memories found in that date range");
}
