//! Which observed entities are kept in memory. The model judges each
//! entity outside; when its answer is unusable, the structural fallback
//! here decides, and only the entities judged worth storing go on.

use vstd::prelude::*;

use crate::text::{byte_len, lowercase, str_eq, to_lowercase, trim, trimmed, utf8_len};

verus! {

/// The most obviously transient messages.
pub open spec fn transient_word(s: Seq<char>) -> bool {
    s == "hi"@ || s == "hello"@ || s == "hey"@ || s == "bye"@ || s == "goodbye"@ || s == "ok"@ || s
        == "okay"@ || s == "sure"@ || s == "thanks"@
}

/// Entity types that are never worth keeping.
pub open spec fn transient_type(t: Seq<char>) -> bool {
    t == "greeting"@ || t == "filler"@ || t == "acknowledgement"@
}

/// An observation shorter than 3 bytes once trimmed, or one of the
/// transient words in any case, or an entity of a transient type.
pub open spec fn transient_spec(entity_type: Seq<char>, observation: Seq<char>) -> bool {
    let obs = trim(observation);
    utf8_len(obs) < 3 || transient_word(lowercase(obs)) || transient_type(entity_type)
}

/// The structural fallback used when the model's judgement is unusable:
/// is this entity obviously not worth keeping?
pub fn is_obviously_transient(name: &str, entity_type: &str, observation: &str) -> (b: bool)
    ensures
        b == transient_spec(entity_type@, observation@),
{
    let obs = trimmed(observation);
    if byte_len(obs.as_str()) < 3 {
        return true;
    }
    let lower = to_lowercase(obs.as_str());
    let l = lower.as_str();
    if str_eq(l, "hi") || str_eq(l, "hello") || str_eq(l, "hey") || str_eq(l, "bye") || str_eq(
        l,
        "goodbye",
    ) || str_eq(l, "ok") || str_eq(l, "okay") || str_eq(l, "sure") || str_eq(l, "thanks") {
        return true;
    }
    if str_eq(entity_type, "greeting") || str_eq(entity_type, "filler") || str_eq(
        entity_type,
        "acknowledgement",
    ) {
        return true;
    }
    false
}

/// Whether each entity is stored when the model's judgement is unusable:
/// all of them when the model could not be asked, else those that are not
/// obviously transient. `entity_types` lists the entities' types.
pub fn fallback_store_flags(
    entity_types: &Vec<String>,
    observation: &str,
    model_unavailable: bool,
) -> (r: Vec<bool>)
    ensures
        r@.len() == entity_types@.len(),
        forall|i: int|
            0 <= i < r@.len() ==> #[trigger] r@[i] == (model_unavailable || !transient_spec(
                entity_types@[i]@,
                observation@,
            )),
{
    let mut r: Vec<bool> = Vec::new();
    let mut i: usize = 0;
    while i < entity_types.len()
        invariant
            i <= entity_types@.len(),
            r@.len() == i,
            forall|k: int|
                0 <= k < i ==> #[trigger] r@[k] == (model_unavailable || !transient_spec(
                    entity_types@[k]@,
                    observation@,
                )),
        decreases entity_types@.len() - i,
    {
        let keep = model_unavailable || !is_obviously_transient(
            "",
            entity_types[i].as_str(),
            observation,
        );
        r.push(keep);
        i = i + 1;
    }
    r
}

/// Positions `i` below `n` whose flag says store.
pub open spec fn kept_spec(n: nat, stores: Seq<bool>) -> Seq<int>
    decreases n,
{
    if n == 0 {
        Seq::empty()
    } else {
        let rest = kept_spec((n - 1) as nat, stores);
        if n - 1 < stores.len() && stores[n - 1] {
            rest.push(n - 1)
        } else {
            rest
        }
    }
}

/// The positions of the entities to keep, pairing the `n` entities with
/// the decisions in order; the evaluation keeps nothing when it is empty.
pub fn kept_indices(n: usize, stores: &Vec<bool>) -> (r: Vec<usize>)
    ensures
        r@.map_values(|i: usize| i as int) == kept_spec(n as nat, stores@),
{
    let mut r: Vec<usize> = Vec::new();
    let mut i: usize = 0;
    while i < n
        invariant
            i <= n,
            r@.map_values(|k: usize| k as int) == kept_spec(i as nat, stores@),
        decreases n - i,
    {
        if i < stores.len() && stores[i] {
            let ghost r0 = r@;
            r.push(i);
            assert(r@.map_values(|k: usize| k as int) =~= r0.map_values(|k: usize| k as int).push(
                i as int,
            ));
        }
        i = i + 1;
    }
    r
}

/// What came of asking the model to judge the entities. Its reply is
/// stripped of fences by `planner::clean_model_json` and then parsed
/// outside, as a list of decisions.
pub enum MemoryReply {
    /// The request to the model failed.
    Unavailable,
    /// The reply parsed; the store flags of its decisions, in order.
    Decisions(Vec<bool>),
    /// The reply did not parse as a list of decisions.
    Unparsable,
}

/// The fallback flags: every entity when the model could not be asked,
/// else those that are not obviously transient.
pub open spec fn fallback_spec(
    entity_types: Seq<Seq<char>>,
    observation: Seq<char>,
    model_unavailable: bool,
) -> Seq<bool> {
    Seq::new(
        entity_types.len(),
        |i: int| model_unavailable || !transient_spec(entity_types[i], observation),
    )
}

/// Whether each entity is stored: the model's decisions when there is one
/// for each entity, else the fallback.
pub open spec fn store_flags_spec(
    entity_types: Seq<Seq<char>>,
    observation: Seq<char>,
    reply: MemoryReply,
) -> Seq<bool> {
    match reply {
        MemoryReply::Decisions(flags) => if flags@.len() == entity_types.len() {
            flags@
        } else {
            fallback_spec(entity_types, observation, false)
        },
        MemoryReply::Unavailable => fallback_spec(entity_types, observation, true),
        MemoryReply::Unparsable => fallback_spec(entity_types, observation, false),
    }
}

/// Settles which entities are stored once the model has answered (or not):
/// a list of decisions is used only when it has one per entity.
pub fn store_flags(entity_types: &Vec<String>, observation: &str, reply: MemoryReply) -> (r: Vec<
    bool,
>)
    ensures
        r@ == store_flags_spec(entity_types@.map_values(|t: String| t@), observation@, reply),
{
    let ghost types = entity_types@.map_values(|t: String| t@);
    let ghost rep = reply;
    match reply {
        MemoryReply::Decisions(flags) => {
            if flags.len() == entity_types.len() {
                flags
            } else {
                let r = fallback_store_flags(entity_types, observation, false);
                assert(r@ =~= fallback_spec(types, observation@, false));
                r
            }
        },
        MemoryReply::Unavailable => {
            let r = fallback_store_flags(entity_types, observation, true);
            assert(r@ =~= fallback_spec(types, observation@, true));
            r
        },
        MemoryReply::Unparsable => {
            let r = fallback_store_flags(entity_types, observation, false);
            assert(r@ =~= fallback_spec(types, observation@, false));
            r
        },
    }
}

} // verus!
