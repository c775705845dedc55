use brain_coordinator::conversation::Decision;
use brain_coordinator::telegram::{
    api_base, escape_markdown, poll_interval_secs, reply_text, IncomingUpdate, Sender,
    TelegramState, TelegramStats, TelegramUserIdentity,
};

fn sender(id: u64, name: &str, username: Option<&str>, is_bot: bool) -> Sender {
    Sender {
        id,
        is_bot,
        first_name: name.to_string(),
        username: username.map(|u| u.to_string()),
    }
}

fn update(id: u64, text: Option<&str>, from: Option<Sender>) -> IncomingUpdate {
    IncomingUpdate {
        update_id: id,
        chat_id: 42,
        text: text.map(|t| t.to_string()),
        from,
    }
}

#[test]
fn escape_markdown_escapes_reserved_characters() {
    assert_eq!(escape_markdown("hello"), "hello");
    assert_eq!(escape_markdown("a.b"), "a\\.b");
    assert_eq!(escape_markdown("1+1=2!"), "1\\+1\\=2\\!");
    assert_eq!(escape_markdown("_*[]()~`>#+-=|{}.!"), "\\_\\*\\[\\]\\(\\)\\~\\`\\>\\#\\+\\-\\=\\|\\{\\}\\.\\!");
    assert_eq!(escape_markdown(""), "");
}

#[test]
fn api_base_appends_token() {
    assert_eq!(api_base("123:abc"), "https://api.telegram.org/bot123:abc");
}

#[test]
fn poll_interval_is_at_least_one_second() {
    assert_eq!(poll_interval_secs(0), 1);
    assert_eq!(poll_interval_secs(1), 1);
    assert_eq!(poll_interval_secs(5), 5);
}

#[test]
fn new_stats_are_empty() {
    let s = TelegramStats::new();
    assert!(!s.connected);
    assert_eq!(s.polls, 0);
    assert_eq!(s.errors, 0);
    assert!(s.last_received_at.is_none());
    assert!(s.current_chat_id.is_none());
}

#[test]
fn accepted_update_moves_offset_and_records_sender() {
    let mut st = TelegramState::new(Vec::new());
    let text = st.accept_update(
        &update(7, Some("hi there"), Some(sender(1, "Ana", Some("ana"), false))),
        "2024-01-01T10:00:00Z",
    );
    assert_eq!(text.as_deref(), Some("hi there"));
    assert_eq!(st.offset, 8);
    assert_eq!(st.stats.messages_processed, 1);
    assert_eq!(st.stats.current_chat_id, Some(42));
    assert_eq!(st.stats.last_received_at.as_deref(), Some("2024-01-01T10:00:00Z"));
    assert_eq!(st.identities.len(), 1);
    assert_eq!(st.identities[0].telegram_user_id, 1);
    assert_eq!(st.identities[0].username, "ana");
    assert_eq!(st.identities[0].display_name, "Ana");
    assert_eq!(st.identities[0].first_seen, "2024-01-01T10:00:00Z");
}

#[test]
fn bot_and_empty_updates_are_skipped() {
    let mut st = TelegramState::new(Vec::new());
    let a = st.accept_update(&update(3, Some("beep"), Some(sender(9, "Bot", None, true))), "t");
    let b = st.accept_update(&update(4, Some(""), Some(sender(1, "Ana", None, false))), "t");
    let c = st.accept_update(&update(5, None, None), "t");
    assert!(a.is_none() && b.is_none() && c.is_none());
    assert_eq!(st.offset, 0);
    assert_eq!(st.stats.messages_processed, 0);
    assert!(st.identities.is_empty());
}

#[test]
fn returning_sender_keeps_first_seen_and_old_username() {
    let existing = TelegramUserIdentity {
        telegram_user_id: 1,
        username: "ana".to_string(),
        display_name: "Ana".to_string(),
        first_seen: "t0".to_string(),
        last_active: "t0".to_string(),
    };
    let mut st = TelegramState::new(vec![existing]);
    st.record_identity(&sender(1, "Ana B", None, false), "t1");
    st.record_identity(&sender(2, "Bo", Some("bo"), false), "t2");
    assert_eq!(st.identities.len(), 2);
    assert_eq!(st.identities[0].first_seen, "t0");
    assert_eq!(st.identities[0].last_active, "t1");
    assert_eq!(st.identities[0].username, "ana");
    assert_eq!(st.identities[0].display_name, "Ana B");
    assert_eq!(st.identities[1].telegram_user_id, 2);
    assert_eq!(st.identities[1].first_seen, "t2");
}

#[test]
fn polls_errors_and_latency_are_counted() {
    let mut st = TelegramState::new(Vec::new());
    st.poll_succeeded(3);
    st.poll_failed();
    st.record_latency(100);
    st.record_latency(201);
    st.reply_sent("t9");
    st.reply_failed();
    assert_eq!(st.stats.polls, 1);
    assert_eq!(st.stats.updates_received, 3);
    assert!(st.stats.connected);
    assert_eq!(st.stats.errors, 2);
    assert_eq!(st.stats.avg_latency_ms, 150);
    assert_eq!(st.stats.last_sent_at.as_deref(), Some("t9"));
}

#[test]
fn only_communications_are_replied() {
    let d = Decision::Communicate {
        recipient: "user".to_string(),
        message: "Good morning".to_string(),
        reason: "greeting".to_string(),
    };
    assert_eq!(reply_text(&d).as_deref(), Some("Good morning"));
    assert!(reply_text(&Decision::Wait).is_none());
}

#[test]
fn accepting_updates_leaves_poll_counters_alone() {
    let mut st = TelegramState::new(Vec::new());
    st.poll_succeeded(2);
    st.poll_failed();
    st.accept_update(&update(7, Some("hello"), Some(sender(1, "Ana", None, false))), "t1");
    assert_eq!(st.stats.polls, 1);
    assert_eq!(st.stats.errors, 1);
    assert_eq!(st.stats.updates_received, 2);
    assert!(st.stats.connected);
    st.accept_update(&update(8, Some("beep"), Some(sender(9, "Bot", None, true))), "t2");
    assert_eq!(st.stats.last_received_at.as_deref(), Some("t1"));
    assert_eq!(st.stats.current_chat_id, Some(42));
    assert_eq!(st.offset, 8);
}
