//! User control over memory: what forgetting, merging and correcting
//! entities answer and change, and the explanation of why an entity is
//! remembered. The world-model store is read and written outside.

use vstd::prelude::*;

use crate::errors::CoordinatorError;
use crate::text::{decimal, join_seq, join_strings, owned, push_decimal, string_views};

verus! {

/// The answer to forgetting the entities found by name: the names
/// forgotten, or an error when nothing matched `query`.
pub open spec fn forget_spec(names: Seq<Seq<char>>, query: Seq<char>) -> Result<Seq<char>, Seq<char>> {
    if names.len() == 0 {
        Err("No memory found matching '"@ + query + "'"@)
    } else {
        Ok("Forgot about "@ + join_seq(names, ", "@))
    }
}

pub open spec fn result_view(r: Result<String, CoordinatorError>) -> Result<Seq<char>, Seq<char>> {
    match r {
        Ok(s) => Ok(s@),
        Err(CoordinatorError::Internal(m)) => Err(m@),
        Err(_) => Err(Seq::empty()),
    }
}

pub open spec fn is_internal(r: Result<String, CoordinatorError>) -> bool {
    match r {
        Err(CoordinatorError::Internal(_)) => true,
        Err(_) => false,
        Ok(_) => true,
    }
}

/// What forgetting by name answers, given the names of the entities that
/// were found and deleted.
pub fn forget_outcome(deleted_names: &Vec<String>, query: &str) -> (r: Result<String, CoordinatorError>)
    ensures
        is_internal(r),
        result_view(r) == forget_spec(string_views(deleted_names@), query@),
{
    if deleted_names.len() == 0 {
        let mut m = String::from_str("No memory found matching '");
        m.append(query);
        m.append("'");
        return Err(CoordinatorError::Internal(m));
    }
    let mut s = String::from_str("Forgot about ");
    let j = join_strings(deleted_names, ", ");
    s.append(j.as_str());
    Ok(s)
}

/// What clearing all memory answers.
pub fn forget_all_message() -> (s: String)
    ensures
        s@ == "All memories have been cleared."@,
{
    owned("All memories have been cleared.")
}

/// Whether a merge can go ahead: both entities must exist.
pub fn merge_check(source_name: &str, target_name: &str, source_found: bool, target_found: bool) -> (r:
    Result<String, CoordinatorError>)
    ensures
        is_internal(r),
        !source_found ==> result_view(r) == Err::<Seq<char>, Seq<char>>(
            "Source '"@ + source_name@ + "' not found"@,
        ),
        source_found && !target_found ==> result_view(r) == Err::<Seq<char>, Seq<char>>(
            "Target '"@ + target_name@ + "' not found"@,
        ),
        source_found && target_found ==> result_view(r) == Ok::<Seq<char>, Seq<char>>(
            "Merged '"@ + source_name@ + "' into '"@ + target_name@ + "'"@,
        ),
{
    if !source_found {
        let mut m = String::from_str("Source '");
        m.append(source_name);
        m.append("' not found");
        return Err(CoordinatorError::Internal(m));
    }
    if !target_found {
        let mut m = String::from_str("Target '");
        m.append(target_name);
        m.append("' not found");
        return Err(CoordinatorError::Internal(m));
    }
    let mut s = String::from_str("Merged '");
    s.append(source_name);
    s.append("' into '");
    s.append(target_name);
    s.append("'");
    Ok(s)
}

/// The relationships that a merge adds: each relationship leaving the
/// source is copied to leave the target, each one arriving at the source
/// is copied to arrive at the target (a loop on the source gives both).
/// Relationships are `(source_id, target_id)`.
pub open spec fn redirected_spec(rels: Seq<(u128, u128)>, source: u128, target: u128) -> Seq<(u128, u128)>
    decreases rels.len(),
{
    if rels.len() == 0 {
        Seq::empty()
    } else {
        let r = rels.last();
        let rest = redirected_spec(rels.drop_last(), source, target);
        let a = if r.0 == source { rest.push((target, r.1)) } else { rest };
        if r.1 == source { a.push((r.0, target)) } else { a }
    }
}

/// The relationships a merge of `source` into `target` adds.
pub fn redirected_relationships(rels: &Vec<(u128, u128)>, source: u128, target: u128) -> (r: Vec<
    (u128, u128),
>)
    ensures
        r@ == redirected_spec(rels@, source, target),
{
    let mut r: Vec<(u128, u128)> = Vec::new();
    let mut i: usize = 0;
    while i < rels.len()
        invariant
            i <= rels@.len(),
            r@ == redirected_spec(rels@.subrange(0, i as int), source, target),
        decreases rels@.len() - i,
    {
        assert(rels@.subrange(0, i + 1).drop_last() =~= rels@.subrange(0, i as int));
        let (a, b) = rels[i];
        if a == source {
            r.push((target, b));
        }
        if b == source {
            r.push((a, target));
        }
        i = i + 1;
    }
    assert(rels@.subrange(0, rels@.len() as int) =~= rels@);
    r
}

/// The name and type of a corrected entity.
pub fn corrected_fields(old_name: &str, old_type: &str, new_name: Option<&str>, new_type: Option<&str>) -> (r: (
    String,
    String,
))
    ensures
        r.0@ == match new_name {
            Some(n) => n@,
            None => old_name@,
        },
        r.1@ == match new_type {
            Some(t) => t@,
            None => old_type@,
        },
{
    let name = match new_name {
        Some(n) => owned(n),
        None => owned(old_name),
    };
    let etype = match new_type {
        Some(t) => owned(t),
        None => owned(old_type),
    };
    (name, etype)
}

/// What a correction answers: the changes made, or an error when nothing
/// matched `old_name`.
pub open spec fn correct_spec(
    old_name: Seq<char>,
    found: bool,
    name: Option<Seq<char>>,
    etype: Option<Seq<char>>,
) -> Result<Seq<char>, Seq<char>> {
    if !found {
        Err("No memory found: '"@ + old_name + "'"@)
    } else {
        let changes = (match name {
            Some(n) => seq!["renamed to '"@ + n + "'"@],
            None => Seq::empty(),
        }) + (match etype {
            Some(t) => seq!["type changed to '"@ + t + "'"@],
            None => Seq::empty(),
        });
        Ok("Corrected '"@ + old_name + "': "@ + join_seq(changes, ", "@))
    }
}

/// What correcting `old_name` answers; `name` and `etype` are the new name
/// and type when they were changed.
pub fn correct_outcome(old_name: &str, found: bool, name: Option<&str>, etype: Option<&str>) -> (r:
    Result<String, CoordinatorError>)
    ensures
        is_internal(r),
        result_view(r) == correct_spec(
            old_name@,
            found,
            match name {
                Some(n) => Some(n@),
                None => None,
            },
            match etype {
                Some(t) => Some(t@),
                None => None,
            },
        ),
{
    if !found {
        let mut m = String::from_str("No memory found: '");
        m.append(old_name);
        m.append("'");
        return Err(CoordinatorError::Internal(m));
    }
    let mut changes: Vec<String> = Vec::new();
    match name {
        Some(n) => {
            let mut c = String::from_str("renamed to '");
            c.append(n);
            c.append("'");
            changes.push(c);
        },
        None => {},
    }
    let ghost c1 = string_views(changes@);
    match etype {
        Some(t) => {
            let mut c = String::from_str("type changed to '");
            c.append(t);
            c.append("'");
            changes.push(c);
        },
        None => {},
    }
    assert(string_views(changes@) =~= (match name {
        Some(n) => seq!["renamed to '"@ + n@ + "'"@],
        None => Seq::<Seq<char>>::empty(),
    }) + (match etype {
        Some(t) => seq!["type changed to '"@ + t@ + "'"@],
        None => Seq::<Seq<char>>::empty(),
    }));
    let mut s = String::from_str("Corrected '");
    s.append(old_name);
    s.append("': ");
    let j = join_strings(&changes, ", ");
    s.append(j.as_str());
    Ok(s)
}

/// The positions of the entities last updated between `start` and `end`
/// seconds (inclusive), in order.
pub open spec fn in_range_spec(updated: Seq<i64>, start: i64, end: i64) -> Seq<int>
    decreases updated.len(),
{
    if updated.len() == 0 {
        Seq::empty()
    } else {
        let rest = in_range_spec(updated.drop_last(), start, end);
        let t = updated.last();
        if start <= t && t <= end { rest.push(updated.len() - 1) } else { rest }
    }
}

/// The entities to forget for a date range, by position.
pub fn in_date_range(updated_secs: &Vec<i64>, start_secs: i64, end_secs: i64) -> (r: Vec<usize>)
    ensures
        r@.map_values(|i: usize| i as int) == in_range_spec(updated_secs@, start_secs, end_secs),
{
    let mut r: Vec<usize> = Vec::new();
    let mut i: usize = 0;
    while i < updated_secs.len()
        invariant
            i <= updated_secs@.len(),
            r@.map_values(|k: usize| k as int) == in_range_spec(
                updated_secs@.subrange(0, i as int),
                start_secs,
                end_secs,
            ),
        decreases updated_secs@.len() - i,
    {
        assert(updated_secs@.subrange(0, i + 1).drop_last() =~= updated_secs@.subrange(0, i as int));
        let t = updated_secs[i];
        if start_secs <= t && t <= end_secs {
            let ghost r0 = r@;
            r.push(i);
            assert(r@.map_values(|k: usize| k as int) =~= r0.map_values(|k: usize| k as int).push(
                i as int,
            ));
        }
        i = i + 1;
    }
    assert(updated_secs@.subrange(0, updated_secs@.len() as int) =~= updated_secs@);
    r
}

/// What forgetting a date range answers, given how many entities went.
pub fn date_range_outcome(count: u64) -> (r: Result<String, CoordinatorError>)
    ensures
        is_internal(r),
        count == 0 ==> result_view(r) == Err::<Seq<char>, Seq<char>>(
            "No memories found in that date range"@,
        ),
        count > 0 ==> result_view(r) == Ok::<Seq<char>, Seq<char>>(
            "Forgot "@ + decimal(count as nat) + " memories from that period"@,
        ),
{
    if count == 0 {
        return Err(CoordinatorError::Internal(owned("No memories found in that date range")));
    }
    let mut s = String::from_str("Forgot ");
    push_decimal(&mut s, count);
    s.append(" memories from that period");
    Ok(s)
}

/// How sure the companion is of an entity: above 0.8, above 0.5, or less.
#[derive(Debug, Clone, Copy, PartialEq, Eq, Structural)]
pub enum Level {
    High,
    Medium,
    Low,
}

/// Whole days from `then` to `now` (seconds), 0 when `then` is later.
pub fn days_since(now_secs: i64, then_secs: i64) -> (d: u64)
    ensures
        then_secs >= now_secs ==> d == 0,
        then_secs < now_secs ==> d == (now_secs - then_secs) / 86400,
{
    if then_secs >= now_secs {
        0
    } else {
        let diff: i128 = now_secs as i128 - then_secs as i128;
        (diff / 86400) as u64
    }
}

/// Why an entity is remembered.
pub open spec fn explanation_spec(
    name: Seq<char>,
    confidence: Level,
    importance: Level,
    days: u64,
    relations: u64,
) -> Seq<char> {
    let sure = match confidence {
        Level::High => "I'm quite sure about "@ + name + " — you've mentioned it multiple times."@,
        Level::Medium => "I've seen "@ + name
            + " mentioned a few times and I'm building my understanding."@,
        Level::Low => "I'm still learning about "@ + name + " — I don't know much yet."@,
    };
    let weight = match importance {
        Level::High => seq!["This seems very important to you, so I pay extra attention."@],
        Level::Medium => seq!["This is moderately important in your life."@],
        Level::Low => Seq::empty(),
    };
    let recency = if days < 1 {
        "We talked about this very recently."@
    } else if days < 3 {
        "We discussed this a couple of days ago."@
    } else if days < 14 {
        "It's been about "@ + decimal(days as nat) + " days since we last talked about this."@
    } else {
        "I haven't heard about this in a while ("@ + decimal(days as nat) + " days)."@
    };
    let links = if relations > 5 {
        seq!["This is connected to "@ + decimal(relations as nat) + " other things I know about you."@]
    } else if relations > 0 {
        seq!["This relates to "@ + decimal(relations as nat) + " other areas of your life."@]
    } else {
        Seq::empty()
    };
    join_seq(seq![sure] + weight + seq![recency] + links, " "@)
}

/// Explains why an entity is remembered, from how sure and how important
/// it is, how many days ago it came up and how many relationships it has.
pub fn explain_entity(name: &str, confidence: Level, importance: Level, days: u64, relations: u64) -> (s:
    String)
    ensures
        s@ == explanation_spec(name@, confidence, importance, days, relations),
{
    let mut reasons: Vec<String> = Vec::new();
    let sure = match confidence {
        Level::High => {
            let mut t = String::from_str("I'm quite sure about ");
            t.append(name);
            t.append(" — you've mentioned it multiple times.");
            t
        },
        Level::Medium => {
            let mut t = String::from_str("I've seen ");
            t.append(name);
            t.append(" mentioned a few times and I'm building my understanding.");
            t
        },
        Level::Low => {
            let mut t = String::from_str("I'm still learning about ");
            t.append(name);
            t.append(" — I don't know much yet.");
            t
        },
    };
    reasons.push(sure);
    match importance {
        Level::High => reasons.push(owned("This seems very important to you, so I pay extra attention.")),
        Level::Medium => reasons.push(owned("This is moderately important in your life.")),
        Level::Low => {},
    }
    let recency = if days < 1 {
        owned("We talked about this very recently.")
    } else if days < 3 {
        owned("We discussed this a couple of days ago.")
    } else if days < 14 {
        let mut t = String::from_str("It's been about ");
        push_decimal(&mut t, days);
        t.append(" days since we last talked about this.");
        t
    } else {
        let mut t = String::from_str("I haven't heard about this in a while (");
        push_decimal(&mut t, days);
        t.append(" days).");
        t
    };
    reasons.push(recency);
    if relations > 5 {
        let mut t = String::from_str("This is connected to ");
        push_decimal(&mut t, relations);
        t.append(" other things I know about you.");
        reasons.push(t);
    } else if relations > 0 {
        let mut t = String::from_str("This relates to ");
        push_decimal(&mut t, relations);
        t.append(" other areas of your life.");
        reasons.push(t);
    }
    assert(string_views(reasons@) =~= seq![
        match confidence {
            Level::High => "I'm quite sure about "@ + name@ + " — you've mentioned it multiple times."@,
            Level::Medium => "I've seen "@ + name@
                + " mentioned a few times and I'm building my understanding."@,
            Level::Low => "I'm still learning about "@ + name@ + " — I don't know much yet."@,
        },
    ] + match importance {
        Level::High => seq!["This seems very important to you, so I pay extra attention."@],
        Level::Medium => seq!["This is moderately important in your life."@],
        Level::Low => Seq::<Seq<char>>::empty(),
    } + seq![
        if days < 1 {
            "We talked about this very recently."@
        } else if days < 3 {
            "We discussed this a couple of days ago."@
        } else if days < 14 {
            "It's been about "@ + decimal(days as nat) + " days since we last talked about this."@
        } else {
            "I haven't heard about this in a while ("@ + decimal(days as nat) + " days)."@
        },
    ] + if relations > 5 {
        seq!["This is connected to "@ + decimal(relations as nat) + " other things I know about you."@]
    } else if relations > 0 {
        seq!["This relates to "@ + decimal(relations as nat) + " other areas of your life."@]
    } else {
        Seq::<Seq<char>>::empty()
    });
    join_strings(&reasons, " ")
}

} // verus!
