//! The companion host's own rules: which observation sources may run,
//! how the cognitive worker records what it observed and said, and where
//! the companion keeps its files. Tasks, channels and notifications run
//! outside.

use vstd::prelude::*;

use crate::audit_log::{ActivityCategory, ActivityEntryView, AuditLog, audit_push};
use crate::clock::Timestamp;
use crate::conversation::{Decision, DecisionView};
use crate::observation_loop::ObservationConfig;
use crate::permissions::PermissionRegistry;
use crate::text::{join_path, owned, path_join, string_views, utf8_len};
use vstd::utf8::{encode_utf8, is_char_boundary};

verus! {

/// How often the world model is saved while the companion runs.
pub const AUTOSAVE_INTERVAL_SECS: u64 = 300;

/// Positions of the sources whose category is granted, in order.
pub open spec fn permitted_spec(reg: PermissionRegistry, names: Seq<Seq<char>>) -> Seq<int>
    decreases names.len(),
{
    if names.len() == 0 {
        Seq::empty()
    } else {
        let rest = permitted_spec(reg, names.drop_last());
        if reg.granted(names.last()) { rest.push(names.len() - 1) } else { rest }
    }
}

/// The sources allowed to observe: those whose category is granted.
pub fn permitted_sources(registry: &PermissionRegistry, names: &Vec<String>) -> (r: Vec<usize>)
    ensures
        r@.map_values(|i: usize| i as int) == permitted_spec(*registry, string_views(names@)),
{
    let ghost ns = string_views(names@);
    let mut r: Vec<usize> = Vec::new();
    let mut i: usize = 0;
    while i < names.len()
        invariant
            i <= names@.len(),
            ns == string_views(names@),
            r@.map_values(|k: usize| k as int) == permitted_spec(*registry, ns.subrange(0, i as int)),
        decreases names@.len() - i,
    {
        let ghost pre = ns.subrange(0, i as int);
        assert(ns.subrange(0, i + 1).drop_last() =~= pre);
        assert(ns.subrange(0, i + 1).last() == names@[i as int]@);
        let cat = PermissionRegistry::category_for_source(names[i].as_str());
        if registry.is_granted(cat) {
            let ghost r0 = r@;
            r.push(i);
            assert(r@.map_values(|k: usize| k as int) =~= r0.map_values(|k: usize| k as int).push(
                i as int,
            ));
        }
        i = i + 1;
    }
    assert(ns.subrange(0, names@.len() as int) =~= ns);
    r
}

proof fn lemma_encode_concat(a: Seq<char>, b: Seq<char>)
    ensures
        encode_utf8(a + b) == encode_utf8(a) + encode_utf8(b),
    decreases a.len(),
{
    if a.len() == 0 {
        assert(a + b =~= b);
        assert(encode_utf8(a) =~= Seq::<u8>::empty());
        assert(encode_utf8(a) + encode_utf8(b) =~= encode_utf8(b));
    } else {
        assert((a + b).drop_first() =~= a.drop_first() + b);
        assert((a + b)[0] == a[0]);
        lemma_encode_concat(a.drop_first(), b);
        assert(encode_utf8(a + b) =~= encode_utf8(a) + encode_utf8(b));
    }
}

/// The bytes of an activity summary: texts longer than 80 bytes are cut
/// to their first 77 bytes and marked with "...".
pub open spec fn summary_bytes(text: Seq<char>) -> Seq<u8> {
    if utf8_len(text) > 80 {
        encode_utf8(text).subrange(0, 77) + encode_utf8("..."@)
    } else {
        encode_utf8(text)
    }
}

/// The summary the audit log keeps of a longer text.
pub fn activity_summary(text: &str) -> (s: String)
    requires
        utf8_len(text@) > 80 ==> is_char_boundary(encode_utf8(text@), 77),
    ensures
        encode_utf8(s@) == summary_bytes(text@),
{
    let b = text.as_bytes();
    if b.len() > 80 {
        let (head, _tail) = text.split_at(77);
        let mut s = String::from_str(head);
        s.append("...");
        proof {
            lemma_encode_concat(head@, "..."@);
        }
        s
    } else {
        owned(text)
    }
}

/// What the cognitive worker records about an observation and its
/// decision: the observation always; for a communication also its
/// message (summarised) with the reason, and the message and reason are
/// handed to the notification callback.
pub fn record_cycle(
    log: &mut AuditLog,
    now: Timestamp,
    observation: &str,
    decision: &Decision,
) -> (notify: Option<(String, String)>)
    requires
        utf8_len(observation@) > 80 ==> is_char_boundary(encode_utf8(observation@), 77),
        decision@ matches DecisionView::Communicate { message, .. } ==> (utf8_len(message) > 80
            ==> is_char_boundary(encode_utf8(message), 77)),
    ensures
        match decision@ {
            DecisionView::Communicate { message, reason, .. } => exists|s1: Seq<char>, s2: Seq<char>|
                #![trigger encode_utf8(s1), encode_utf8(s2)]
                encode_utf8(s1) == summary_bytes(observation@) && encode_utf8(s2) == summary_bytes(
                    message,
                ) && final(log).log() == audit_push(
                    audit_push(
                        old(log).log(),
                        ActivityEntryView {
                            timestamp: now,
                            category: ActivityCategory::Observation,
                            summary: s1,
                            details: Seq::empty(),
                        },
                        old(log).capacity(),
                    ),
                    ActivityEntryView {
                        timestamp: now,
                        category: ActivityCategory::Notification,
                        summary: s2,
                        details: reason,
                    },
                    old(log).capacity(),
                ) && (notify matches Some((m, r)) && m@ == message && r@ == reason),
            _ => exists|s1: Seq<char>|
                encode_utf8(s1) == summary_bytes(observation@) && final(log).log() == audit_push(
                    old(log).log(),
                    ActivityEntryView {
                        timestamp: now,
                        category: ActivityCategory::Observation,
                        summary: s1,
                        details: Seq::empty(),
                    },
                    old(log).capacity(),
                ) && notify is None,
        },
        final(log).capacity() == old(log).capacity(),
{
    let ghost l0 = log.log();
    let ghost cap = log.capacity();
    let obs_summary = activity_summary(observation);
    let empty = String::new();
    log.record_at(now, ActivityCategory::Observation, obs_summary.as_str(), empty.as_str());
    let ghost e1 = ActivityEntryView {
        timestamp: now,
        category: ActivityCategory::Observation,
        summary: obs_summary@,
        details: Seq::empty(),
    };
    assert(log.log() == audit_push(l0, e1, cap));
    match decision {
        Decision::Communicate { message, reason, .. } => {
            let msg_summary = activity_summary(message.as_str());
            log.record_at(now, ActivityCategory::Notification, msg_summary.as_str(), reason.as_str());
            let ghost e2 = ActivityEntryView {
                timestamp: now,
                category: ActivityCategory::Notification,
                summary: msg_summary@,
                details: reason@,
            };
            assert(log.log() == audit_push(audit_push(l0, e1, cap), e2, cap));
            assert(encode_utf8(obs_summary@) == summary_bytes(observation@));
            assert(encode_utf8(msg_summary@) == summary_bytes(message@));
            let out = Some((message.clone(), reason.clone()));
            assert(out matches Some((m, r)) && m@ == message@ && r@ == reason@);
            out
        },
        _ => {
            assert(encode_utf8(obs_summary@) == summary_bytes(observation@));
            None
        },
    }
}

/// The observation configuration of the default sources: the given
/// interval and the default history size.
pub fn default_observation_config(interval_secs: u64) -> (c: ObservationConfig)
    ensures
        c.interval_secs == interval_secs,
        c.max_history == 100,
{
    ObservationConfig { interval_secs, max_history: 100 }
}

/// The names of the default observation sources.
pub fn default_source_names() -> (r: Vec<String>)
    ensures
        string_views(r@) == seq!["time"@, "system"@],
{
    let r = vec![owned("time"), owned("system")];
    assert(string_views(r@) =~= seq!["time"@, "system"@]);
    r
}

/// The companion's data directory under `home`.
pub open spec fn data_dir_spec(home: Seq<char>) -> Seq<char> {
    path_join(path_join(path_join(home, ".local"@), "share"@), "ai-os-companion"@)
}

/// The audit log file under `home`.
pub fn audit_log_path(home: &str) -> (p: String)
    ensures
        p@ == path_join(data_dir_spec(home@), "audit_log.json"@),
{
    let a = join_path(home, ".local");
    let b = join_path(a.as_str(), "share");
    let c = join_path(b.as_str(), "ai-os-companion");
    join_path(c.as_str(), "audit_log.json")
}

/// The Telegram identities file under `home`.
pub fn telegram_identities_path(home: &str) -> (p: String)
    ensures
        p@ == path_join(data_dir_spec(home@), "telegram_identities.json"@),
{
    let a = join_path(home, ".local");
    let b = join_path(a.as_str(), "share");
    let c = join_path(b.as_str(), "ai-os-companion");
    join_path(c.as_str(), "telegram_identities.json")
}

} // verus!
