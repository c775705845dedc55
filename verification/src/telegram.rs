//! The Telegram adapter's bookkeeping: which updates become messages for
//! the companion, the polling offset, the statistics shown in diagnostics,
//! the identities of the people who wrote, and the MarkdownV2 escaping of
//! replies. The HTTP calls run outside and report their results here.

use vstd::prelude::*;

use crate::conversation::{Decision, DecisionView};
use crate::text::{chars_of, owned, push_char, string_of};

verus! {

/// A Telegram user as remembered across restarts.
#[derive(Debug)]
pub struct TelegramUserIdentity {
    pub telegram_user_id: u64,
    pub username: String,
    pub display_name: String,
    pub first_seen: String,
    pub last_active: String,
}

pub struct IdentityView {
    pub telegram_user_id: u64,
    pub username: Seq<char>,
    pub display_name: Seq<char>,
    pub first_seen: Seq<char>,
    pub last_active: Seq<char>,
}

impl View for TelegramUserIdentity {
    type V = IdentityView;

    open spec fn view(&self) -> IdentityView {
        IdentityView {
            telegram_user_id: self.telegram_user_id,
            username: self.username@,
            display_name: self.display_name@,
            first_seen: self.first_seen@,
            last_active: self.last_active@,
        }
    }
}

pub open spec fn idviews(s: Seq<TelegramUserIdentity>) -> Seq<IdentityView> {
    s.map_values(|i: TelegramUserIdentity| i@)
}

/// Statistics shown in developer diagnostics.
#[derive(Debug)]
pub struct TelegramStats {
    pub connected: bool,
    pub polls: u64,
    pub updates_received: u64,
    pub messages_processed: u64,
    pub errors: u64,
    pub last_received_at: Option<String>,
    pub last_sent_at: Option<String>,
    pub current_chat_id: Option<i64>,
    pub avg_latency_ms: u64,
}

impl TelegramStats {
    /// Nothing happened yet.
    pub fn new() -> (s: Self)
        ensures
            !s.connected,
            s.polls == 0,
            s.updates_received == 0,
            s.messages_processed == 0,
            s.errors == 0,
            s.last_received_at is None,
            s.last_sent_at is None,
            s.current_chat_id is None,
            s.avg_latency_ms == 0,
    {
        TelegramStats {
            connected: false,
            polls: 0,
            updates_received: 0,
            messages_processed: 0,
            errors: 0,
            last_received_at: None,
            last_sent_at: None,
            current_chat_id: None,
            avg_latency_ms: 0,
        }
    }
}

/// The characters that MarkdownV2 reserves.
pub open spec fn is_markdown_special(c: char) -> bool {
    c == '_' || c == '*' || c == '[' || c == ']' || c == '(' || c == ')' || c == '~' || c == '`'
        || c == '>' || c == '#' || c == '+' || c == '-' || c == '=' || c == '|' || c == '{' || c
        == '}' || c == '.' || c == '!'
}

/// `s` with a backslash before every reserved character.
pub open spec fn escaped(s: Seq<char>) -> Seq<char>
    decreases s.len(),
{
    if s.len() == 0 {
        Seq::empty()
    } else {
        escaped(s.drop_last()) + if is_markdown_special(s.last()) {
            seq!['\\', s.last()]
        } else {
            seq![s.last()]
        }
    }
}

/// Escapes `text` for MarkdownV2.
pub fn escape_markdown(text: &str) -> (r: String)
    ensures
        r@ == escaped(text@),
{
    let v = chars_of(text);
    let mut out = String::new();
    let mut i: usize = 0;
    while i < v.len()
        invariant
            i <= v@.len(),
            v@ == text@,
            out@ == escaped(v@.subrange(0, i as int)),
        decreases v@.len() - i,
    {
        let c = v[i];
        let ghost pre = v@.subrange(0, i as int);
        assert(v@.subrange(0, i + 1).drop_last() =~= pre);
        let special = c == '_' || c == '*' || c == '[' || c == ']' || c == '(' || c == ')' || c
            == '~' || c == '`' || c == '>' || c == '#' || c == '+' || c == '-' || c == '=' || c
            == '|' || c == '{' || c == '}' || c == '.' || c == '!';
        let ghost o0 = out@;
        if special {
            push_char(&mut out, '\\');
        }
        push_char(&mut out, c);
        assert(out@ =~= escaped(v@.subrange(0, i + 1)));
        i = i + 1;
    }
    assert(v@.subrange(0, v@.len() as int) =~= v@);
    out
}

/// The base URL of the bot API for `bot_token`.
pub fn api_base(bot_token: &str) -> (r: String)
    ensures
        r@ == "https://api.telegram.org/bot"@ + bot_token@,
{
    let mut r = String::from_str("https://api.telegram.org/bot");
    r.append(bot_token);
    r
}

/// The polling interval: at least one second.
pub fn poll_interval_secs(requested: u64) -> (s: u64)
    ensures
        s == (if requested < 1 { 1 } else { requested }),
{
    if requested < 1 { 1 } else { requested }
}

/// The sender of a message.
#[derive(Debug)]
pub struct Sender {
    pub id: u64,
    pub is_bot: bool,
    pub first_name: String,
    pub username: Option<String>,
}

/// A received update, as far as the adapter reads it.
#[derive(Debug)]
pub struct IncomingUpdate {
    pub update_id: u64,
    pub chat_id: i64,
    pub text: Option<String>,
    pub from: Option<Sender>,
}

/// An update is handled when it has non-empty text and was not sent by a
/// bot.
pub open spec fn handled(u: IncomingUpdate) -> bool {
    &&& !(u.from matches Some(f) && f.is_bot)
    &&& u.text matches Some(t) && t@.len() > 0
}

/// The adapter's state between polls.
pub struct TelegramState {
    pub offset: u64,
    pub stats: TelegramStats,
    pub identities: Vec<TelegramUserIdentity>,
    pub latency_total: u64,
    pub latency_count: u64,
}

/// The identities after `from` wrote at `now`: an existing one is
/// refreshed (its name, its username when one is given, its activity);
/// otherwise a new one is added at the end.
pub open spec fn upsert_spec(ids: Seq<IdentityView>, from: (u64, Seq<char>, Option<Seq<char>>), now: Seq<char>) -> Seq<IdentityView>
    decreases ids.len(),
{
    if ids.len() == 0 {
        seq![
            IdentityView {
                telegram_user_id: from.0,
                username: match from.2 {
                    Some(u) => u,
                    None => Seq::empty(),
                },
                display_name: from.1,
                first_seen: now,
                last_active: now,
            },
        ]
    } else if ids[0].telegram_user_id == from.0 {
        seq![
            IdentityView {
                telegram_user_id: ids[0].telegram_user_id,
                username: match from.2 {
                    Some(u) => u,
                    None => ids[0].username,
                },
                display_name: from.1,
                first_seen: ids[0].first_seen,
                last_active: now,
            },
        ] + ids.drop_first()
    } else {
        seq![ids[0]] + upsert_spec(ids.drop_first(), from, now)
    }
}

pub open spec fn sender_view(s: Sender) -> (u64, Seq<char>, Option<Seq<char>>) {
    (
        s.id,
        s.first_name@,
        match s.username {
            Some(u) => Some(u@),
            None => None,
        },
    )
}

impl TelegramState {
    /// The state at start: offset 0, no statistics, the given identities.
    pub fn new(identities: Vec<TelegramUserIdentity>) -> (s: Self)
        ensures
            s.offset == 0,
            idviews(s.identities@) == idviews(identities@),
            s.stats.polls == 0 && s.stats.errors == 0 && s.stats.messages_processed == 0,
            !s.stats.connected,
    {
        TelegramState {
            offset: 0,
            stats: TelegramStats::new(),
            identities,
            latency_total: 0,
            latency_count: 0,
        }
    }

    /// A poll that failed or was refused counts as an error.
    pub fn poll_failed(&mut self)
        requires
            old(self).stats.errors < u64::MAX,
        ensures
            final(self).stats.errors == old(self).stats.errors + 1,
            final(self).stats.polls == old(self).stats.polls,
            final(self).offset == old(self).offset,
    {
        self.stats.errors = self.stats.errors + 1;
    }

    /// A poll that returned `count` updates: counted, and the adapter is
    /// connected.
    pub fn poll_succeeded(&mut self, count: u64)
        requires
            old(self).stats.polls < u64::MAX,
            old(self).stats.updates_received + count <= u64::MAX,
        ensures
            final(self).stats.polls == old(self).stats.polls + 1,
            final(self).stats.updates_received == old(self).stats.updates_received + count,
            final(self).stats.connected,
            final(self).stats.errors == old(self).stats.errors,
            final(self).offset == old(self).offset,
    {
        self.stats.polls = self.stats.polls + 1;
        self.stats.updates_received = self.stats.updates_received + count;
        self.stats.connected = true;
    }

    /// Takes an update in: a handled one moves the offset past it,
    /// refreshes its sender's identity, counts as processed at `now` and
    /// makes its chat current, and its text is returned for the companion;
    /// any other is skipped and changes nothing.
    pub fn accept_update(&mut self, update: &IncomingUpdate, now: &str) -> (text: Option<String>)
        requires
            update.update_id < u64::MAX,
            old(self).stats.messages_processed < u64::MAX,
        ensures
            handled(*update) ==> (text matches Some(t) && update.text matches Some(u) && t@ == u@)
                && final(self).offset == update.update_id + 1 && final(self).stats.messages_processed
                == old(self).stats.messages_processed + 1 && (final(self).stats.last_received_at matches Some(
                r) && r@ == now@) && final(self).stats.current_chat_id == Some(update.chat_id) && match update.from {
                Some(f) => idviews(final(self).identities@) == upsert_spec(
                    idviews(old(self).identities@),
                    sender_view(f),
                    now@,
                ),
                None => idviews(final(self).identities@) == idviews(old(self).identities@),
            },
            !handled(*update) ==> text is None && final(self).offset == old(self).offset
                && final(self).stats == old(self).stats
                && idviews(final(self).identities@) == idviews(old(self).identities@),
            final(self).stats.polls == old(self).stats.polls,
            final(self).stats.errors == old(self).stats.errors,
            final(self).stats.updates_received == old(self).stats.updates_received,
            final(self).stats.connected == old(self).stats.connected,
            final(self).stats.last_sent_at == old(self).stats.last_sent_at,
            final(self).stats.avg_latency_ms == old(self).stats.avg_latency_ms,
            final(self).latency_total == old(self).latency_total,
            final(self).latency_count == old(self).latency_count,
    {
        match &update.from {
            Some(f) => {
                if f.is_bot {
                    return None;
                }
            },
            None => {},
        }
        let text = match &update.text {
            Some(t) => {
                if t.as_str().unicode_len() == 0 {
                    return None;
                }
                t.clone()
            },
            None => {
                return None;
            },
        };
        self.offset = update.update_id + 1;
        match &update.from {
            Some(f) => self.record_identity(f, now),
            None => {},
        }
        self.stats.messages_processed = self.stats.messages_processed + 1;
        self.stats.last_received_at = Some(owned(now));
        self.stats.current_chat_id = Some(update.chat_id);
        Some(text)
    }

    /// Refreshes or adds the identity of `from`.
    pub fn record_identity(&mut self, from: &Sender, now: &str)
        ensures
            idviews(final(self).identities@) == upsert_spec(
                idviews(old(self).identities@),
                sender_view(*from),
                now@,
            ),
            final(self).offset == old(self).offset,
            final(self).stats == old(self).stats,
            final(self).latency_total == old(self).latency_total,
            final(self).latency_count == old(self).latency_count,
    {
        let ghost ids = idviews(self.identities@);
        let ghost fv = sender_view(*from);
        let n = self.identities.len();
        let mut i: usize = 0;
        let mut found = false;
        while i < n && !found
            invariant
                n == self.identities@.len(),
                ids == idviews(self.identities@),
                i <= n,
                found ==> i < n && ids[i as int].telegram_user_id == from.id,
                forall|k: int| 0 <= k < i ==> ids[k].telegram_user_id != from.id,
            decreases n - i + (if found { 0int } else { 1int }),
        {
            assert(ids[i as int].telegram_user_id == self.identities@[i as int].telegram_user_id);
            if self.identities[i].telegram_user_id == from.id {
                found = true;
            } else {
                i = i + 1;
            }
        }
        proof {
            lemma_upsert_prefix(ids, fv, now@, i as int);
        }
        if found {
            let old_entry = &self.identities[i];
            let username = match &from.username {
                Some(u) => u.clone(),
                None => old_entry.username.clone(),
            };
            let entry = TelegramUserIdentity {
                telegram_user_id: old_entry.telegram_user_id,
                username,
                display_name: from.first_name.clone(),
                first_seen: old_entry.first_seen.clone(),
                last_active: owned(now),
            };
            let ghost ev = entry@;
            self.identities.set(i, entry);
            assert(idviews(self.identities@) =~= ids.update(i as int, ev));
            assert(ids.update(i as int, ev) =~= ids.subrange(0, i as int) + (seq![ev] + ids.subrange(
                i + 1,
                n as int,
            )));
        } else {
            let entry = TelegramUserIdentity {
                telegram_user_id: from.id,
                username: match &from.username {
                    Some(u) => u.clone(),
                    None => String::new(),
                },
                display_name: from.first_name.clone(),
                first_seen: owned(now),
                last_active: owned(now),
            };
            let ghost ev = entry@;
            self.identities.push(entry);
            assert(idviews(self.identities@) =~= ids.push(ev));
            assert(ids.subrange(0, n as int) =~= ids);
        }
    }

    /// Records the time the companion took on a message; the average
    /// latency is the mean over all messages.
    pub fn record_latency(&mut self, latency_ms: u64)
        requires
            old(self).latency_total + latency_ms <= u64::MAX,
            old(self).latency_count < u64::MAX,
        ensures
            final(self).latency_total == old(self).latency_total + latency_ms,
            final(self).latency_count == old(self).latency_count + 1,
            final(self).stats.avg_latency_ms == final(self).latency_total / final(self).latency_count,
            final(self).offset == old(self).offset,
    {
        self.latency_total = self.latency_total + latency_ms;
        self.latency_count = self.latency_count + 1;
        self.stats.avg_latency_ms = self.latency_total / self.latency_count;
    }

    /// A reply that was sent at `now`.
    pub fn reply_sent(&mut self, now: &str)
        ensures
            final(self).stats.last_sent_at matches Some(t) && t@ == now@,
            final(self).stats.errors == old(self).stats.errors,
    {
        self.stats.last_sent_at = Some(owned(now));
    }

    /// A reply that failed counts as an error.
    pub fn reply_failed(&mut self)
        requires
            old(self).stats.errors < u64::MAX,
        ensures
            final(self).stats.errors == old(self).stats.errors + 1,
    {
        self.stats.errors = self.stats.errors + 1;
    }
}

proof fn lemma_upsert_prefix(
    ids: Seq<IdentityView>,
    from: (u64, Seq<char>, Option<Seq<char>>),
    now: Seq<char>,
    i: int,
)
    requires
        0 <= i <= ids.len(),
        forall|k: int| 0 <= k < i ==> ids[k].telegram_user_id != from.0,
    ensures
        upsert_spec(ids, from, now) == ids.subrange(0, i) + upsert_spec(
            ids.subrange(i, ids.len() as int),
            from,
            now,
        ),
    decreases i,
{
    if i > 0 {
        let t = ids.drop_first();
        assert forall|k: int| 0 <= k < i - 1 implies t[k].telegram_user_id != from.0 by {
            assert(t[k] == ids[k + 1]);
        }
        lemma_upsert_prefix(t, from, now, i - 1);
        assert(t.subrange(i - 1, t.len() as int) =~= ids.subrange(i, ids.len() as int));
        assert(ids.subrange(0, i) =~= seq![ids[0]] + t.subrange(0, i - 1));
    } else {
        assert(ids.subrange(0, 0) =~= Seq::<IdentityView>::empty());
        assert(ids.subrange(0, ids.len() as int) =~= ids);
    }
}

/// The text to send back for a decision: the message of a communication.
pub fn reply_text(decision: &Decision) -> (r: Option<String>)
    ensures
        match decision@ {
            DecisionView::Communicate { message, .. } => r matches Some(t) && t@ == message,
            _ => r is None,
        },
{
    match decision {
        Decision::Communicate { message, .. } => Some(message.clone()),
        _ => None,
    }
}

} // verus!
