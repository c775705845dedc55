//! The evolution engine's decisions about the world model: which stored
//! entity an observed one is, what an update changes, and which stored
//! relationship an observed one strengthens. Confidence and importance
//! are real numbers blended outside; the store is read and written
//! outside.

use vstd::prelude::*;

use crate::text::{lowercase, owned, str_eq, string_views, to_lowercase};

verus! {

/// The first candidate whose name equals `name`, ignoring case.
pub open spec fn name_match(cands: Seq<Seq<char>>, name: Seq<char>) -> Option<int>
    decreases cands.len(),
{
    if cands.len() == 0 {
        None
    } else {
        match name_match(cands.drop_last(), name) {
            Some(i) => Some(i),
            None => if lowercase(cands.last()) == lowercase(name) {
                Some(cands.len() - 1)
            } else {
                None
            },
        }
    }
}

/// Which of the entities found by a name search is the observed one: the
/// first whose name matches ignoring case.
pub fn find_by_name(candidates: &Vec<String>, name: &str) -> (r: Option<usize>)
    ensures
        match r {
            Some(i) => name_match(string_views(candidates@), name@) == Some(i as int),
            None => name_match(string_views(candidates@), name@) is None,
        },
{
    let ghost cs = string_views(candidates@);
    let wanted = to_lowercase(name);
    let mut i: usize = 0;
    while i < candidates.len()
        invariant
            i <= candidates@.len(),
            cs == string_views(candidates@),
            wanted@ == lowercase(name@),
            name_match(cs.subrange(0, i as int), name@) is None,
        decreases candidates@.len() - i,
    {
        let ghost pre = cs.subrange(0, i as int);
        let ghost next = cs.subrange(0, i + 1);
        assert(next.drop_last() =~= pre);
        assert(next.last() == candidates@[i as int]@);
        let low = to_lowercase(candidates[i].as_str());
        if crate::text::str_eq(low.as_str(), wanted.as_str()) {
            assert(name_match(next, name@) == Some(i as int));
            proof {
                lemma_match_extends(cs, name@, i as int + 1, i as int);
            }
            return Some(i);
        }
        i = i + 1;
    }
    assert(cs.subrange(0, candidates@.len() as int) =~= cs);
    None
}

proof fn lemma_match_extends(cs: Seq<Seq<char>>, name: Seq<char>, k: int, j: int)
    requires
        0 < k <= cs.len(),
        name_match(cs.subrange(0, k), name) == Some(j),
    ensures
        name_match(cs, name) == Some(j),
    decreases cs.len() - k,
{
    if k < cs.len() {
        assert(cs.subrange(0, k + 1).drop_last() =~= cs.subrange(0, k));
        assert(name_match(cs.subrange(0, k + 1), name) == Some(j));
        lemma_match_extends(cs, name, k + 1, j);
    } else {
        assert(cs.subrange(0, k) =~= cs);
    }
}

/// The fields an update of a stored entity changes, in order: its type
/// when the observation names another, non-empty type; its confidence and
/// importance when they moved by more than 0.01; then each observed
/// property, marked "(updated)" when the entity already had it.
pub open spec fn changes_spec(
    type_changed: bool,
    confidence_moved: bool,
    importance_moved: bool,
    keys: Seq<Seq<char>>,
    existing: Seq<Seq<char>>,
) -> Seq<Seq<char>> {
    (if type_changed { seq!["entity_type"@] } else { Seq::empty() }) + (if confidence_moved {
        seq!["confidence"@]
    } else {
        Seq::empty()
    }) + (if importance_moved { seq!["importance"@] } else { Seq::empty() }) + property_changes(
        keys,
        existing,
    )
}

/// One entry per observed property: "property:k" for a new key,
/// "property:k (updated)" for one the entity had or that came earlier.
pub open spec fn property_changes(keys: Seq<Seq<char>>, existing: Seq<Seq<char>>) -> Seq<Seq<char>>
    decreases keys.len(),
{
    if keys.len() == 0 {
        Seq::empty()
    } else {
        let k = keys.last();
        let before = keys.drop_last();
        property_changes(before, existing).push(
            if existing.contains(k) || before.contains(k) {
                "property:"@ + k + " (updated)"@
            } else {
                "property:"@ + k
            },
        )
    }
}

/// Whether the observed type replaces the stored one.
pub open spec fn type_replaced(observed: Seq<char>, stored: Seq<char>) -> bool {
    observed != stored && observed.len() > 0
}

fn contains_str(v: &Vec<String>, upto: usize, k: &str) -> (b: bool)
    requires
        upto <= v@.len(),
    ensures
        b == string_views(v@).subrange(0, upto as int).contains(k@),
{
    let ghost s = string_views(v@).subrange(0, upto as int);
    let mut i: usize = 0;
    while i < upto
        invariant
            i <= upto,
            upto <= v@.len(),
            s == string_views(v@).subrange(0, upto as int),
            forall|j: int| 0 <= j < i ==> s[j] != k@,
        decreases upto - i,
    {
        assert(s[i as int] == v@[i as int]@);
        if str_eq(v[i].as_str(), k) {
            assert(s[i as int] == k@);
            return true;
        }
        i = i + 1;
    }
    false
}

/// The fields an update changes. `keys` are the observed property names
/// in order and `existing` the names the entity had.
pub fn entity_changes(
    observed_type: &str,
    stored_type: &str,
    confidence_moved: bool,
    importance_moved: bool,
    keys: &Vec<String>,
    existing: &Vec<String>,
) -> (r: (bool, Vec<String>))
    ensures
        r.0 == type_replaced(observed_type@, stored_type@),
        string_views(r.1@) == changes_spec(
            r.0,
            confidence_moved,
            importance_moved,
            string_views(keys@),
            string_views(existing@),
        ),
{
    let type_changed = !str_eq(observed_type, stored_type) && observed_type.unicode_len() > 0;
    let mut out: Vec<String> = Vec::new();
    if type_changed {
        out.push(owned("entity_type"));
    }
    if confidence_moved {
        out.push(owned("confidence"));
    }
    if importance_moved {
        out.push(owned("importance"));
    }
    let ghost head = string_views(out@);
    assert(head =~= (if type_changed { seq!["entity_type"@] } else { Seq::empty() }) + (
    if confidence_moved {
        seq!["confidence"@]
    } else {
        Seq::empty()
    }) + (if importance_moved { seq!["importance"@] } else { Seq::empty() }));
    let ghost ks = string_views(keys@);
    let ghost ex = string_views(existing@);
    let mut i: usize = 0;
    assert(ex.subrange(0, existing@.len() as int) =~= ex);
    while i < keys.len()
        invariant
            i <= keys@.len(),
            ks == string_views(keys@),
            ex == string_views(existing@),
            ex.subrange(0, existing@.len() as int) == ex,
            string_views(out@) == head + property_changes(ks.subrange(0, i as int), ex),
        decreases keys@.len() - i,
    {
        let ghost pre = ks.subrange(0, i as int);
        let ghost next = ks.subrange(0, i + 1);
        assert(next.drop_last() =~= pre);
        assert(next.last() == keys@[i as int]@);
        let k = keys[i].as_str();
        let seen = contains_str(existing, existing.len(), k) || contains_str(keys, i, k);
        assert(string_views(keys@).subrange(0, i as int) == pre);
        let mut entry = String::from_str("property:");
        entry.append(k);
        if seen {
            entry.append(" (updated)");
        }
        let ghost o0 = out@;
        out.push(entry);
        assert(string_views(out@) =~= string_views(o0).push(entry@));
        assert(string_views(out@) =~= head + property_changes(next, ex));
        i = i + 1;
    }
    assert(ks.subrange(0, keys@.len() as int) =~= ks);
    (type_changed, out)
}

/// The first stored relationship of the observed type.
pub open spec fn same_type(types: Seq<Seq<char>>, wanted: Seq<char>) -> Option<int>
    decreases types.len(),
{
    if types.len() == 0 {
        None
    } else {
        match same_type(types.drop_last(), wanted) {
            Some(i) => Some(i),
            None => if types.last() == wanted { Some(types.len() - 1) } else { None },
        }
    }
}

/// Which stored relationship between two entities an observed one
/// strengthens: the first of the same type; none means a new one.
pub fn matching_relationship(types: &Vec<String>, wanted: &str) -> (r: Option<usize>)
    ensures
        match r {
            Some(i) => same_type(string_views(types@), wanted@) == Some(i as int),
            None => same_type(string_views(types@), wanted@) is None,
        },
{
    let ghost ts = string_views(types@);
    let mut i: usize = 0;
    while i < types.len()
        invariant
            i <= types@.len(),
            ts == string_views(types@),
            same_type(ts.subrange(0, i as int), wanted@) is None,
        decreases types@.len() - i,
    {
        let ghost pre = ts.subrange(0, i as int);
        let ghost next = ts.subrange(0, i + 1);
        assert(next.drop_last() =~= pre);
        assert(next.last() == types@[i as int]@);
        if str_eq(types[i].as_str(), wanted) {
            assert(same_type(next, wanted@) == Some(i as int));
            proof {
                lemma_same_type_extends(ts, wanted@, i as int + 1, i as int);
            }
            return Some(i);
        }
        i = i + 1;
    }
    assert(ts.subrange(0, types@.len() as int) =~= ts);
    None
}

proof fn lemma_same_type_extends(ts: Seq<Seq<char>>, w: Seq<char>, k: int, j: int)
    requires
        0 < k <= ts.len(),
        same_type(ts.subrange(0, k), w) == Some(j),
    ensures
        same_type(ts, w) == Some(j),
    decreases ts.len() - k,
{
    if k < ts.len() {
        assert(ts.subrange(0, k + 1).drop_last() =~= ts.subrange(0, k));
        assert(same_type(ts.subrange(0, k + 1), w) == Some(j));
        lemma_same_type_extends(ts, w, k + 1, j);
    } else {
        assert(ts.subrange(0, k) =~= ts);
    }
}

/// What an observed relationship does to the store.
#[derive(Debug, Clone, Copy, PartialEq, Eq, Structural)]
pub enum RelationshipStep {
    /// An endpoint is neither among the evolved entities nor stored.
    Skip,
    /// The stored relationship at this position gains weight.
    Strengthen(usize),
    /// A new relationship is stored.
    Create,
}

/// The step for an observed relationship of type `wanted` between
/// resolved endpoints (`None` when one could not be found), given the
/// types of the relationships already stored between them.
pub open spec fn relationship_step_spec(
    source: Option<u128>,
    target: Option<u128>,
    types: Seq<Seq<char>>,
    wanted: Seq<char>,
) -> RelationshipStep {
    if source is None || target is None {
        RelationshipStep::Skip
    } else {
        match same_type(types, wanted) {
            Some(i) => RelationshipStep::Strengthen(i as usize),
            None => RelationshipStep::Create,
        }
    }
}

/// Decides what an observed relationship does.
pub fn relationship_step(
    source: Option<u128>,
    target: Option<u128>,
    existing_types: &Vec<String>,
    wanted: &str,
) -> (r: RelationshipStep)
    ensures
        r == relationship_step_spec(source, target, string_views(existing_types@), wanted@),
        r matches RelationshipStep::Strengthen(i) ==> i < existing_types@.len(),
{
    if source.is_none() || target.is_none() {
        return RelationshipStep::Skip;
    }
    match matching_relationship(existing_types, wanted) {
        Some(i) => {
            proof {
                lemma_same_type_bound(string_views(existing_types@), wanted@);
            }
            RelationshipStep::Strengthen(i)
        },
        None => RelationshipStep::Create,
    }
}

proof fn lemma_same_type_bound(ts: Seq<Seq<char>>, w: Seq<char>)
    ensures
        same_type(ts, w) matches Some(i) ==> 0 <= i < ts.len(),
    decreases ts.len(),
{
    if ts.len() > 0 {
        lemma_same_type_bound(ts.drop_last(), w);
    }
}

/// The id an entity name resolved to during this evolution: the latest
/// one recorded for it.
pub open spec fn resolved_id(table: Seq<(Seq<char>, u128)>, name: Seq<char>) -> Option<u128>
    decreases table.len(),
{
    if table.len() == 0 {
        None
    } else if table.last().0 == name {
        Some(table.last().1)
    } else {
        resolved_id(table.drop_last(), name)
    }
}

/// A name table with each name as its characters.
pub open spec fn id_views(t: Seq<(String, u128)>) -> Seq<(Seq<char>, u128)> {
    t.map_values(|p: (String, u128)| (p.0@, p.1))
}

/// Looks up the id an entity name resolved to.
pub fn resolved(table: &Vec<(String, u128)>, name: &str) -> (r: Option<u128>)
    ensures
        r == resolved_id(id_views(table@), name@),
{
    let ghost t = id_views(table@);
    let mut i: usize = table.len();
    assert(t.subrange(0, i as int) =~= t);
    while i > 0
        invariant
            i <= table@.len(),
            t == id_views(table@),
            resolved_id(t, name@) == resolved_id(t.subrange(0, i as int), name@),
        decreases i,
    {
        let ghost pre = t.subrange(0, i as int);
        assert(pre.drop_last() =~= t.subrange(0, i - 1));
        if str_eq(table[i - 1].0.as_str(), name) {
            return Some(table[i - 1].1);
        }
        i = i - 1;
    }
    None
}

/// The id an endpoint of an observed relationship stands for: the one it
/// resolved to during this evolution, else the first stored entity that a
/// search by its name returned, else none (the relationship is skipped).
pub open spec fn endpoint_id(
    table: Seq<(Seq<char>, u128)>,
    name: Seq<char>,
    searched: Option<u128>,
) -> Option<u128> {
    match resolved_id(table, name) {
        Some(id) => Some(id),
        None => searched,
    }
}

/// Resolves an endpoint and records a search result in the table, so that
/// the next relationship that names it resolves it without a search.
pub fn resolve_endpoint(
    table: &mut Vec<(String, u128)>,
    name: &str,
    searched: Option<u128>,
) -> (r: Option<u128>)
    ensures
        r == endpoint_id(id_views(old(table)@), name@, searched),
        match (resolved_id(id_views(old(table)@), name@), searched) {
            (None, Some(id)) => id_views(final(table)@) == id_views(old(table)@).push((name@, id)),
            _ => final(table)@ == old(table)@,
        },
{
    match resolved(table, name) {
        Some(id) => Some(id),
        None => match searched {
            Some(id) => {
                let ghost before = table@;
                table.push((String::from_str(name), id));
                proof {
                    assert(id_views(table@) =~= id_views(before).push((name@, id)));
                }
                Some(id)
            },
            None => None,
        },
    }
}

} // verus!
