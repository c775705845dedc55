use brain_coordinator::memory_evaluator::{
    fallback_store_flags, is_obviously_transient, kept_indices, store_flags, MemoryReply,
};
use brain_coordinator::planner::clean_model_json;

#[test]
fn test_obviously_transient_empty() {
    assert!(is_obviously_transient("", "person", ""));
    assert!(is_obviously_transient("Hi", "person", "hi"));
}

#[test]
fn test_obviously_transient_greeting() {
    assert!(is_obviously_transient("User", "person", "hello"));
    assert!(is_obviously_transient("User", "person", "hey"));
    assert!(is_obviously_transient("User", "person", "bye"));
}

#[test]
fn test_not_transient_for_substantive() {
    assert!(!is_obviously_transient("Rust", "skill", "I'm learning Rust"));
    assert!(!is_obviously_transient("AI-OS", "project", "Working on AI-OS"));
    assert!(!is_obviously_transient("Alice", "person", "My name is Alice"));
}

#[test]
fn transient_words_ignore_case_and_padding() {
    assert!(is_obviously_transient("x", "person", "  THANKS  "));
    assert!(is_obviously_transient("x", "greeting", "a longer message"));
    assert!(!is_obviously_transient("x", "person", "thanks a lot"));
}

#[test]
fn fallback_flags_follow_the_model_state() {
    let types = vec!["person".to_string(), "filler".to_string()];
    assert_eq!(fallback_store_flags(&types, "hello", true), vec![true, true]);
    assert_eq!(fallback_store_flags(&types, "My name is Alice", false), vec![true, false]);
}

#[test]
fn kept_indices_pairs_in_order() {
    assert_eq!(kept_indices(3, &vec![true, false, true]), vec![0, 2]);
    assert_eq!(kept_indices(2, &vec![true, true, true]), vec![0, 1]);
    assert_eq!(kept_indices(3, &vec![false]), Vec::<usize>::new());
}

#[test]
fn store_flags_uses_decisions_when_counts_match() {
    let types = vec!["greeting".to_string(), "project".to_string()];
    let r = store_flags(&types, "I'm working on AI-OS", MemoryReply::Decisions(vec![true, false]));
    assert_eq!(r, vec![true, false]);
}

#[test]
fn store_flags_falls_back_on_count_mismatch() {
    let types = vec!["greeting".to_string(), "project".to_string()];
    let r = store_flags(&types, "I'm working on AI-OS", MemoryReply::Decisions(vec![true]));
    assert_eq!(r, vec![false, true]);
}

#[test]
fn store_flags_falls_back_on_unparsable_reply() {
    let types = vec!["project".to_string()];
    assert_eq!(store_flags(&types, "hi", MemoryReply::Unparsable), vec![false]);
}

#[test]
fn store_flags_keeps_everything_when_model_unavailable() {
    let types = vec!["greeting".to_string(), "project".to_string()];
    assert_eq!(store_flags(&types, "hi", MemoryReply::Unavailable), vec![true, true]);
}

#[test]
fn memory_reply_is_unfenced_before_parsing() {
    let reply = "  ```json\n[{\"store\": true}]\n```  ";
    assert_eq!(clean_model_json(reply), "[{\"store\": true}]");
}
