//! The orchestrator's per-goal decisions in a cognitive tick: the
//! numeric priority, the strategy, whether the goal first needs an
//! objective, and whether it is handed to another agent. The goal store,
//! the agents and the learning engine are reached outside.

use vstd::prelude::*;

use crate::goal_scheduler::GoalPriority;
use crate::recovery::GoalStatus;
use crate::strategy_engine::{
    adjusted, normalized_type, rule_lookup, ExecutionStrategy, ResourceState,
    StrategyChoice,
    StrategyEngine,
};

use crate::desktop::{param_lookup, pviews};
use crate::desktop_tools::{input_texts, ToolValue};
use crate::errors::CoordinatorError;
use crate::goal_scheduler::GoalId;
use crate::text::{owned, str_eq};

verus! {

/// The numeric priority of a goal: 8, 6, 4 or 2 from critical to low.
pub open spec fn priority_value_spec(p: GoalPriority) -> u8 {
    match p {
        GoalPriority::Critical => 8,
        GoalPriority::High => 6,
        GoalPriority::Normal => 4,
        GoalPriority::Low => 2,
    }
}

/// The numeric priority of a goal.
pub fn priority_value(p: GoalPriority) -> (v: u8)
    ensures
        v == priority_value_spec(p),
{
    match p {
        GoalPriority::Critical => 8,
        GoalPriority::High => 6,
        GoalPriority::Normal => 4,
        GoalPriority::Low => 2,
    }
}

/// A tick does no goal work when resources are exhausted.
pub fn tick_skips_goals(resources: ResourceState) -> (b: bool)
    ensures
        b == (resources == ResourceState::Exhausted),
{
    match resources {
        ResourceState::Exhausted => true,
        _ => false,
    }
}

/// What a tick does for one active goal.
pub struct GoalTickPlan {
    pub strategy: StrategyChoice,
    /// An active goal without objectives first gets one: its description.
    pub add_objective: bool,
    /// A delegated goal is handed to an agent with the goal type's
    /// capability.
    pub delegate: bool,
}

/// Plans the tick's work on one goal; the chosen profile is registered
/// with the engine.
pub fn plan_goal_tick(
    engine: &mut StrategyEngine,
    goal_type: &str,
    priority: GoalPriority,
    status: GoalStatus,
    has_objectives: bool,
    resources: ResourceState,
) -> (p: GoalTickPlan)
    requires
        old(engine).wf(),
    ensures
        final(engine).wf(),
        final(engine).rules() == old(engine).rules(),
        final(engine).profiles() == old(engine).profiles().insert(p.strategy.strategy_id, p.strategy@),
        p.strategy.approach == adjusted(
            resources,
            match rule_lookup(old(engine).rules(), normalized_type(goal_type@)) {
                Some(x) => x,
                None => ExecutionStrategy::ResearchThenExecute,
            },
            priority_value_spec(priority),
        ),
        p.add_objective == (!has_objectives && status == GoalStatus::Active),
        p.delegate == (p.strategy.approach == ExecutionStrategy::Delegated),
{
    let v = priority_value(priority);
    let strategy = engine.select_strategy(goal_type, v, resources);
    let delegate = match strategy.approach {
        ExecutionStrategy::Delegated => true,
        _ => false,
    };
    let active = match status {
        GoalStatus::Active => true,
        _ => false,
    };
    GoalTickPlan { strategy, add_objective: !has_objectives && active, delegate }
}

/// The goal type a request is filed under: its intent, or "unknown" when
/// the reasoning gave none.
pub fn goal_type_hint(intent: &str) -> (t: String)
    ensures
        t@ == (if intent@.len() == 0 { "unknown"@ } else { intent@ }),
{
    if intent.unicode_len() == 0 {
        owned("unknown")
    } else {
        owned(intent)
    }
}

/// The key of the entity a capability needs as input, if any.
pub open spec fn needed_key(cap: Seq<char>) -> Option<Seq<char>> {
    if cap == "browser.open_url"@ || cap == "open_website"@ {
        Some("url"@)
    } else if cap == "desktop.app.launch"@ || cap == "launch_app"@ {
        Some("app"@)
    } else if cap == "desktop.window.focus"@ || cap == "focus_window"@ {
        Some("window"@)
    } else if cap == "input.keyboard.type"@ || cap == "type_text"@ {
        Some("text"@)
    } else if cap == "input.mouse.click"@ || cap == "mouse_click"@ {
        Some("button"@)
    } else if cap == "search_web"@ || cap == "search"@ {
        Some("query"@)
    } else {
        None
    }
}

/// `t` with `(k, v)` added, unless `k` is empty or already present.
pub open spec fn add_first(t: Seq<(Seq<char>, Seq<char>)>, k: Seq<char>, v: Seq<char>) -> Seq<
    (Seq<char>, Seq<char>),
> {
    if k.len() > 0 && param_lookup(t, k) is None {
        t.push((k, v))
    } else {
        t
    }
}

/// The values of the understood entities by key: each entity's type and
/// then its name stand for its value; the first value given for a key
/// stays. An entity is `(type, name, value)`.
pub open spec fn entity_table(es: Seq<(Seq<char>, Seq<char>, Seq<char>)>) -> Seq<
    (Seq<char>, Seq<char>),
>
    decreases es.len(),
{
    if es.len() == 0 {
        Seq::empty()
    } else {
        let e = es.last();
        add_first(add_first(entity_table(es.drop_last()), e.0, e.2), e.1, e.2)
    }
}

/// What may be handed to a capability as its entity: the entry of its
/// needed key when the table has one; otherwise any entry of the table
/// (none when the table is empty); nothing for a capability that needs no
/// entity.
pub open spec fn entity_choice(
    cap: Seq<char>,
    table: Seq<(Seq<char>, Seq<char>)>,
    found: Option<(Seq<char>, Seq<char>)>,
) -> bool {
    match needed_key(cap) {
        None => found is None,
        Some(k) => match param_lookup(table, k) {
            Some(v) => found == Some((k, v)),
            None => match found {
                Some(p) => table.contains(p),
                None => table.len() == 0,
            },
        },
    }
}

/// The inputs of the requirement for `cap`: the capability under `__cap`
/// and the entity, if any, under its key (an entity keyed `__cap` takes
/// that slot).
pub open spec fn requirement_inputs(cap: Seq<char>, found: Option<(Seq<char>, Seq<char>)>) -> Seq<
    (Seq<char>, Seq<char>),
> {
    match found {
        Some((k, v)) => if k == "__cap"@ {
            seq![("__cap"@, v)]
        } else {
            seq![("__cap"@, cap), (k, v)]
        },
        None => seq![("__cap"@, cap)],
    }
}

fn add_first_exec(t: &mut Vec<(String, String)>, k: &str, v: &str)
    ensures
        pviews(final(t)@) == add_first(pviews(old(t)@), k@, v@),
{
    if k.unicode_len() > 0 {
        if crate::desktop::get_param(t, k).is_none() {
            let ghost before = pviews(t@);
            t.push((owned(k), owned(v)));
            assert(pviews(t@) =~= before.push((k@, v@)));
        }
    }
}

/// Builds the table of entity values; see `entity_table`.
pub fn entity_values(entities: &Vec<(String, String, String)>) -> (t: Vec<(String, String)>)
    ensures
        pviews(t@) == entity_table(triple_views(entities@)),
{
    let ghost es = triple_views(entities@);
    let mut t: Vec<(String, String)> = Vec::new();
    let mut i: usize = 0;
    while i < entities.len()
        invariant
            i <= entities@.len(),
            es == triple_views(entities@),
            pviews(t@) == entity_table(es.subrange(0, i as int)),
        decreases entities@.len() - i,
    {
        let e = &entities[i];
        assert(es.subrange(0, i + 1).drop_last() =~= es.subrange(0, i as int));
        add_first_exec(&mut t, e.0.as_str(), e.2.as_str());
        add_first_exec(&mut t, e.1.as_str(), e.2.as_str());
        i = i + 1;
    }
    assert(es.subrange(0, i as int) =~= es);
    t
}

pub open spec fn triple_views(s: Seq<(String, String, String)>) -> Seq<(Seq<char>, Seq<char>, Seq<char>)> {
    s.map_values(|e: (String, String, String)| (e.0@, e.1@, e.2@))
}

fn needed_key_exec(cap: &str) -> (r: Option<&'static str>)
    ensures
        match r {
            Some(k) => needed_key(cap@) == Some(k@),
            None => needed_key(cap@) is None,
        },
{
    if str_eq(cap, "browser.open_url") || str_eq(cap, "open_website") {
        Some("url")
    } else if str_eq(cap, "desktop.app.launch") || str_eq(cap, "launch_app") {
        Some("app")
    } else if str_eq(cap, "desktop.window.focus") || str_eq(cap, "focus_window") {
        Some("window")
    } else if str_eq(cap, "input.keyboard.type") || str_eq(cap, "type_text") {
        Some("text")
    } else if str_eq(cap, "input.mouse.click") || str_eq(cap, "mouse_click") {
        Some("button")
    } else if str_eq(cap, "search_web") || str_eq(cap, "search") {
        Some("query")
    } else {
        None
    }
}

/// The entity handed to a capability; see `entity_choice`. When the
/// needed key is missing, the first entry of the table is taken.
pub fn find_entity_for_capability(cap: &str, table: &Vec<(String, String)>) -> (r: Option<(String, String)>)
    ensures
        entity_choice(
            cap@,
            pviews(table@),
            pair_view(r),
        ),
{
    let key = match needed_key_exec(cap) {
        Some(k) => k,
        None => {
            return None;
        },
    };
    match crate::desktop::get_param(table, key) {
        Some(v) => Some((owned(key), v)),
        None => {
            if table.len() == 0 {
                None
            } else {
                let first = (table[0].0.clone(), table[0].1.clone());
                assert(pviews(table@)[0] == (first.0@, first.1@));
                Some(first)
            }
        },
    }
}

pub open spec fn pair_view(o: Option<(String, String)>) -> Option<(Seq<char>, Seq<char>)> {
    match o {
        Some((k, v)) => Some((k@, v@)),
        None => None,
    }
}

/// The inputs of one requirement; see `requirement_inputs`.
pub fn build_requirement(cap: &str, entity: Option<(String, String)>) -> (r: Vec<(String, ToolValue)>)
    ensures
        input_texts(r@) == requirement_inputs(cap@, pair_view(entity)),
        forall|j: int| 0 <= j < r@.len() ==> (#[trigger] r@[j]).1 is String,
{
    let mut r: Vec<(String, ToolValue)> = Vec::new();
    match entity {
        Some((k, v)) => {
            if str_eq(k.as_str(), "__cap") {
                r.push((owned("__cap"), ToolValue::String(v)));
            } else {
                r.push((owned("__cap"), ToolValue::String(owned(cap))));
                r.push((k, ToolValue::String(v)));
            }
        },
        None => {
            r.push((owned("__cap"), ToolValue::String(owned(cap))));
        },
    }
    assert(input_texts(r@) =~= requirement_inputs(cap@, pair_view(entity)));
    r
}

/// `inputs` are those of a requirement for `cap` with an entity that may
/// be chosen for it from `table`.
pub open spec fn is_requirement_for(
    cap: Seq<char>,
    table: Seq<(Seq<char>, Seq<char>)>,
    inputs: Seq<(Seq<char>, Seq<char>)>,
) -> bool {
    exists|found: Option<(Seq<char>, Seq<char>)>|
        entity_choice(cap, table, found) && inputs == requirement_inputs(cap, found)
}

/// The tool requirements for the capabilities the reasoning asked for, in
/// order, each with the entity chosen for it from the understood
/// entities. Entities are `(type, name, value)`.
pub fn requirements_for(caps: &Vec<String>, entities: &Vec<(String, String, String)>) -> (r: Vec<
    Vec<(String, ToolValue)>,
>)
    ensures
        r@.len() == caps@.len(),
        forall|i: int|
            0 <= i < caps@.len() ==> is_requirement_for(
                caps@[i]@,
                entity_table(triple_views(entities@)),
                input_texts(#[trigger] r@[i]@),
            ),
{
    let table = entity_values(entities);
    let mut r: Vec<Vec<(String, ToolValue)>> = Vec::new();
    let mut i: usize = 0;
    while i < caps.len()
        invariant
            i <= caps@.len(),
            r@.len() == i,
            pviews(table@) == entity_table(triple_views(entities@)),
            forall|j: int|
                0 <= j < i ==> is_requirement_for(
                    caps@[j]@,
                    entity_table(triple_views(entities@)),
                    input_texts(#[trigger] r@[j]@),
                ),
        decreases caps@.len() - i,
    {
        let found = find_entity_for_capability(caps[i].as_str(), &table);
        let ghost fv = pair_view(found);
        let req = build_requirement(caps[i].as_str(), found);
        let ghost old_r = r@;
        r.push(req);
        assert(entity_choice(caps@[i as int]@, entity_table(triple_views(entities@)), fv));
        assert(input_texts(r@[i as int]@) == requirement_inputs(caps@[i as int]@, fv));
        assert forall|j: int| 0 <= j < i + 1 implies is_requirement_for(
            caps@[j]@,
            entity_table(triple_views(entities@)),
            input_texts(#[trigger] r@[j]@),
        ) by {
            if j < i {
                assert(r@[j] == old_r[j]);
            }
        }
        i = i + 1;
    }
    r
}

/// Whether a goal's plan is healthy: it needs a strategy, and a failed
/// goal needs repair. `goal_id` is the goal's id as shown in messages.
pub fn plan_health(has_strategy: bool, status: GoalStatus, goal_id: &str) -> (r: Result<(), CoordinatorError>)
    ensures
        !has_strategy ==> (r matches Err(CoordinatorError::Planning(m)) && m@ == "no strategy assigned"@),
        has_strategy && status == GoalStatus::Failed ==> (r matches Err(CoordinatorError::Planning(m))
            && m@ == "goal "@ + goal_id@ + " is in failed state"@),
        has_strategy && status != GoalStatus::Failed ==> r is Ok,
{
    if !has_strategy {
        return Err(CoordinatorError::Planning(owned("no strategy assigned")));
    }
    match status {
        GoalStatus::Failed => {
            let mut m = String::from_str("goal ");
            m.append(goal_id);
            m.append(" is in failed state");
            Err(CoordinatorError::Planning(m))
        },
        _ => Ok(()),
    }
}

/// A plan is repaired when its goal failed or has no strategy; a failed
/// goal is then retried.
pub fn needs_repair(status: GoalStatus, has_strategy: bool) -> (b: bool)
    ensures
        b == (status == GoalStatus::Failed || !has_strategy),
{
    match status {
        GoalStatus::Failed => true,
        _ => !has_strategy,
    }
}

/// How many times a failed goal is retried automatically.
pub const MAX_AUTO_RETRIES: u32 = 3;

/// The goals retried automatically, in order: failed ones that were
/// retried fewer than three times. A goal is `(id, status, retries)`.
pub open spec fn retry_candidates_spec(goals: Seq<(GoalId, GoalStatus, u32)>) -> Seq<GoalId>
    decreases goals.len(),
{
    if goals.len() == 0 {
        Seq::empty()
    } else {
        let g = goals.last();
        let rest = retry_candidates_spec(goals.drop_last());
        if g.1 == GoalStatus::Failed && g.2 < MAX_AUTO_RETRIES {
            rest.push(g.0)
        } else {
            rest
        }
    }
}

/// The goals to retry automatically.
pub fn retry_candidates(goals: &Vec<(GoalId, GoalStatus, u32)>) -> (r: Vec<GoalId>)
    ensures
        r@ == retry_candidates_spec(goals@),
{
    let mut r: Vec<GoalId> = Vec::new();
    let mut i: usize = 0;
    while i < goals.len()
        invariant
            i <= goals@.len(),
            r@ == retry_candidates_spec(goals@.subrange(0, i as int)),
        decreases goals@.len() - i,
    {
        let (id, status, retries) = goals[i];
        assert(goals@.subrange(0, i + 1).drop_last() =~= goals@.subrange(0, i as int));
        let failed = match status {
            GoalStatus::Failed => true,
            _ => false,
        };
        if failed && retries < MAX_AUTO_RETRIES {
            r.push(id);
        }
        i = i + 1;
    }
    assert(goals@.subrange(0, i as int) =~= goals@);
    r
}

} // verus!
