//! Execution-strategy selection: a rule per goal type, adjusted for the
//! state of the system's resources and the goal's priority.

use std::collections::HashMap;

use vstd::prelude::*;
use vstd::std_specs::iter::IteratorSpec;

use crate::clock::fresh_id;
use crate::text::{chars_of, lowercase, owned, str_eq, string_of, to_lowercase};

verus! {

/// Health of the system's resources.
#[derive(Debug, Clone, Copy, PartialEq, Eq, Structural)]
pub enum ResourceState {
    Healthy,
    Degraded,
    Critical,
    Exhausted,
}

/// How a goal is carried out.
#[derive(Debug, Clone, Copy, PartialEq, Eq, Structural)]
pub enum ExecutionStrategy {
    Direct,
    Sequential,
    Parallel,
    Iterative,
    ResearchThenExecute,
    Delegated,
    HumanAssisted,
}

/// How much risk a strategy may take: high for priorities 0 to 3, medium
/// for 4 to 6, low above.
#[derive(Debug, Clone, Copy, PartialEq, Eq, Structural)]
pub enum RiskTolerance {
    High,
    Medium,
    Low,
}

/// How much a strategy explores: high for research and learning, low for
/// deployment and configuration, medium otherwise.
#[derive(Debug, Clone, Copy, PartialEq, Eq, Structural)]
pub enum ExplorationBias {
    High,
    Medium,
    Low,
}

/// The profile chosen for a goal, under its own id.
#[derive(Debug)]
pub struct StrategyChoice {
    pub strategy_id: u128,
    pub name: String,
    pub description: String,
    pub approach: ExecutionStrategy,
    pub risk_tolerance: RiskTolerance,
    pub exploration_bias: ExplorationBias,
    pub max_delegation_depth: u32,
    pub requires_human_approval: bool,
}

pub struct ChoiceView {
    pub strategy_id: u128,
    pub name: Seq<char>,
    pub description: Seq<char>,
    pub approach: ExecutionStrategy,
    pub risk_tolerance: RiskTolerance,
    pub exploration_bias: ExplorationBias,
    pub max_delegation_depth: u32,
    pub requires_human_approval: bool,
}

impl View for StrategyChoice {
    type V = ChoiceView;

    open spec fn view(&self) -> ChoiceView {
        ChoiceView {
            strategy_id: self.strategy_id,
            name: self.name@,
            description: self.description@,
            approach: self.approach,
            risk_tolerance: self.risk_tolerance,
            exploration_bias: self.exploration_bias,
            max_delegation_depth: self.max_delegation_depth,
            requires_human_approval: self.requires_human_approval,
        }
    }
}

impl Clone for StrategyChoice {
    fn clone(&self) -> (r: Self)
        ensures
            r@ == self@,
    {
        StrategyChoice {
            strategy_id: self.strategy_id,
            name: self.name.clone(),
            description: self.description.clone(),
            approach: self.approach,
            risk_tolerance: self.risk_tolerance,
            exploration_bias: self.exploration_bias,
            max_delegation_depth: self.max_delegation_depth,
            requires_human_approval: self.requires_human_approval,
        }
    }
}

pub open spec fn rviews(s: Seq<(String, ExecutionStrategy)>) -> Seq<(Seq<char>, ExecutionStrategy)> {
    s.map_values(|p: (String, ExecutionStrategy)| (p.0@, p.1))
}

/// The rule for `key`: the first entry with that goal type.
pub open spec fn rule_lookup(rs: Seq<(Seq<char>, ExecutionStrategy)>, key: Seq<char>) -> Option<
    ExecutionStrategy,
>
    decreases rs.len(),
{
    if rs.len() == 0 {
        None
    } else if rs[0].0 == key {
        Some(rs[0].1)
    } else {
        rule_lookup(rs.drop_first(), key)
    }
}

/// No goal type has two rules.
pub open spec fn unique_keys(rs: Seq<(Seq<char>, ExecutionStrategy)>) -> bool {
    forall|i: int, j: int| 0 <= i < j < rs.len() ==> rs[i].0 != rs[j].0
}

/// A goal type as rules name it: lower-cased, spaces as underscores.
pub open spec fn normalized_type(t: Seq<char>) -> Seq<char> {
    lowercase(t).map_values(|c: char| if c == ' ' { '_' } else { c })
}

/// The adjustment of an approach to the resources: exhausted resources
/// need a human; critical ones serialise parallel work and skip research;
/// degraded ones serialise parallel work below priority 5.
pub open spec fn adjusted(resources: ResourceState, approach: ExecutionStrategy, priority: u8) -> ExecutionStrategy {
    if resources == ResourceState::Exhausted {
        ExecutionStrategy::HumanAssisted
    } else if resources == ResourceState::Critical && approach == ExecutionStrategy::Parallel {
        ExecutionStrategy::Sequential
    } else if resources == ResourceState::Critical && approach
        == ExecutionStrategy::ResearchThenExecute {
        ExecutionStrategy::Direct
    } else if resources == ResourceState::Degraded && approach == ExecutionStrategy::Parallel
        && priority < 5 {
        ExecutionStrategy::Sequential
    } else {
        approach
    }
}

/// How resources bend a goal type's approach: exhausted resources hand
/// every goal to a human; critical ones never run work in parallel and
/// never research first (parallel work becomes sequential, research-first
/// becomes direct); degraded ones serialise parallel work exactly when its
/// priority is below 5; healthy resources, and any approach that the
/// pressure does not touch, keep the approach.
pub proof fn lemma_resource_adjustment(
    resources: ResourceState,
    approach: ExecutionStrategy,
    priority: u8,
)
    ensures
        resources == ResourceState::Exhausted ==> adjusted(resources, approach, priority)
            == ExecutionStrategy::HumanAssisted,
        resources == ResourceState::Critical ==> adjusted(resources, approach, priority)
            != ExecutionStrategy::Parallel && adjusted(resources, approach, priority)
            != ExecutionStrategy::ResearchThenExecute,
        resources == ResourceState::Critical && approach == ExecutionStrategy::Parallel ==> adjusted(
            resources,
            approach,
            priority,
        ) == ExecutionStrategy::Sequential,
        resources == ResourceState::Critical && approach == ExecutionStrategy::ResearchThenExecute
            ==> adjusted(resources, approach, priority) == ExecutionStrategy::Direct,
        resources == ResourceState::Degraded && approach == ExecutionStrategy::Parallel ==> (adjusted(
            resources,
            approach,
            priority,
        ) == ExecutionStrategy::Sequential <==> priority < 5) && (adjusted(
            resources,
            approach,
            priority,
        ) == ExecutionStrategy::Parallel <==> priority >= 5),
        resources == ResourceState::Healthy ==> adjusted(resources, approach, priority) == approach,
        resources != ResourceState::Exhausted && approach != ExecutionStrategy::Parallel && approach
            != ExecutionStrategy::ResearchThenExecute ==> adjusted(resources, approach, priority)
            == approach,
{
}

pub open spec fn risk_spec(priority: u8) -> RiskTolerance {
    if priority <= 3 {
        RiskTolerance::High
    } else if priority <= 6 {
        RiskTolerance::Medium
    } else {
        RiskTolerance::Low
    }
}

pub open spec fn exploration_spec(t: Seq<char>) -> ExplorationBias {
    if crate::text::contains_seq(t, "research"@) || crate::text::contains_seq(t, "learn"@) {
        ExplorationBias::High
    } else if crate::text::contains_seq(t, "deploy"@) || crate::text::contains_seq(t, "configure"@) {
        ExplorationBias::Low
    } else {
        ExplorationBias::Medium
    }
}

/// How much risk a tolerance allows: low 0, medium 1, high 2.
pub open spec fn risk_rank(r: RiskTolerance) -> nat {
    match r {
        RiskTolerance::Low => 0,
        RiskTolerance::Medium => 1,
        RiskTolerance::High => 2,
    }
}

/// Priorities 0 to 3 may take high risk, 4 to 6 medium, 7 and above low;
/// a higher priority number never allows more risk.
pub proof fn lemma_risk_by_priority(p1: u8, p2: u8)
    ensures
        p1 <= 3 ==> risk_spec(p1) == RiskTolerance::High,
        4 <= p1 <= 6 ==> risk_spec(p1) == RiskTolerance::Medium,
        p1 >= 7 ==> risk_spec(p1) == RiskTolerance::Low,
        p1 <= p2 ==> risk_rank(risk_spec(p2)) <= risk_rank(risk_spec(p1)),
{
}

/// A goal type that mentions research or learning explores much; one that
/// mentions neither but deploys or configures explores little; any other
/// explores moderately.
pub proof fn lemma_exploration_by_goal_type(t: Seq<char>)
    ensures
        (crate::text::contains_seq(t, "research"@) || crate::text::contains_seq(t, "learn"@))
            ==> exploration_spec(t) == ExplorationBias::High,
        !(crate::text::contains_seq(t, "research"@) || crate::text::contains_seq(t, "learn"@)) && (
        crate::text::contains_seq(t, "deploy"@) || crate::text::contains_seq(t, "configure"@))
            ==> exploration_spec(t) == ExplorationBias::Low,
        !(crate::text::contains_seq(t, "research"@) || crate::text::contains_seq(t, "learn"@)
            || crate::text::contains_seq(t, "deploy"@) || crate::text::contains_seq(
            t,
            "configure"@,
        )) ==> exploration_spec(t) == ExplorationBias::Medium,
{
}

/// Rules from goal types to strategies, and the profiles chosen so far.
pub struct StrategyEngine {
    rules: Vec<(String, ExecutionStrategy)>,
    profiles: HashMap<u128, StrategyChoice>,
}

impl StrategyEngine {
    pub closed spec fn rules(self) -> Seq<(Seq<char>, ExecutionStrategy)> {
        rviews(self.rules@)
    }

    /// The registered profiles by id.
    pub closed spec fn profiles(self) -> Map<u128, ChoiceView> {
        self.profiles@.map_values(|c: StrategyChoice| c@)
    }

    /// No goal type has two rules, and each profile is registered under its
    /// own id.
    pub open spec fn wf(self) -> bool {
        &&& unique_keys(self.rules())
        &&& forall|k: u128| #[trigger]
            self.profiles().contains_key(k) ==> self.profiles()[k].strategy_id == k
    }

    /// An engine with no rules and no profiles.
    pub fn empty() -> (e: Self)
        ensures
            e.wf(),
            e.rules().len() == 0,
            e.profiles() == Map::<u128, ChoiceView>::empty(),
    {
        broadcast use vstd::std_specs::hash::group_hash_axioms;
        let e = StrategyEngine { rules: Vec::new(), profiles: HashMap::new() };
        assert(rviews(e.rules@) =~= Seq::<(Seq<char>, ExecutionStrategy)>::empty());
        assert(e.profiles() =~= Map::<u128, ChoiceView>::empty());
        e
    }

    /// The engine with the default rules: research and unknown goals
    /// research first; browsing and file management are direct;
    /// development, system configuration and deployment are sequential;
    /// data analysis is parallel; monitoring and learning are iterative.
    pub fn new() -> (e: Self)
        ensures
            e.wf(),
            rule_lookup(e.rules(), "research"@) == Some(ExecutionStrategy::ResearchThenExecute),
            rule_lookup(e.rules(), "browsing"@) == Some(ExecutionStrategy::Direct),
            rule_lookup(e.rules(), "file_management"@) == Some(ExecutionStrategy::Direct),
            rule_lookup(e.rules(), "development"@) == Some(ExecutionStrategy::Sequential),
            rule_lookup(e.rules(), "system_configuration"@) == Some(ExecutionStrategy::Sequential),
            rule_lookup(e.rules(), "data_analysis"@) == Some(ExecutionStrategy::Parallel),
            rule_lookup(e.rules(), "monitoring"@) == Some(ExecutionStrategy::Iterative),
            rule_lookup(e.rules(), "learning"@) == Some(ExecutionStrategy::Iterative),
            rule_lookup(e.rules(), "deployment"@) == Some(ExecutionStrategy::Sequential),
            rule_lookup(e.rules(), "unknown"@) == Some(ExecutionStrategy::ResearchThenExecute),
            e.profiles() == Map::<u128, ChoiceView>::empty(),
    {
        proof {
            reveal_strlit("research");
            reveal_strlit("browsing");
            reveal_strlit("file_management");
            reveal_strlit("development");
            reveal_strlit("system_configuration");
            reveal_strlit("data_analysis");
            reveal_strlit("monitoring");
            reveal_strlit("learning");
            reveal_strlit("deployment");
            reveal_strlit("unknown");
            assert("research"@[0] != "browsing"@[0]);
            assert("research"@ != "browsing"@);
            assert("research"@.len() != "file_management"@.len());
            assert("research"@ != "file_management"@);
            assert("research"@.len() != "development"@.len());
            assert("research"@ != "development"@);
            assert("research"@.len() != "system_configuration"@.len());
            assert("research"@ != "system_configuration"@);
            assert("research"@.len() != "data_analysis"@.len());
            assert("research"@ != "data_analysis"@);
            assert("research"@.len() != "monitoring"@.len());
            assert("research"@ != "monitoring"@);
            assert("research"@[0] != "learning"@[0]);
            assert("research"@ != "learning"@);
            assert("research"@.len() != "deployment"@.len());
            assert("research"@ != "deployment"@);
            assert("research"@.len() != "unknown"@.len());
            assert("research"@ != "unknown"@);
            assert("browsing"@.len() != "file_management"@.len());
            assert("browsing"@ != "file_management"@);
            assert("browsing"@.len() != "development"@.len());
            assert("browsing"@ != "development"@);
            assert("browsing"@.len() != "system_configuration"@.len());
            assert("browsing"@ != "system_configuration"@);
            assert("browsing"@.len() != "data_analysis"@.len());
            assert("browsing"@ != "data_analysis"@);
            assert("browsing"@.len() != "monitoring"@.len());
            assert("browsing"@ != "monitoring"@);
            assert("browsing"@[0] != "learning"@[0]);
            assert("browsing"@ != "learning"@);
            assert("browsing"@.len() != "deployment"@.len());
            assert("browsing"@ != "deployment"@);
            assert("browsing"@.len() != "unknown"@.len());
            assert("browsing"@ != "unknown"@);
            assert("file_management"@.len() != "development"@.len());
            assert("file_management"@ != "development"@);
            assert("file_management"@.len() != "system_configuration"@.len());
            assert("file_management"@ != "system_configuration"@);
            assert("file_management"@.len() != "data_analysis"@.len());
            assert("file_management"@ != "data_analysis"@);
            assert("file_management"@.len() != "monitoring"@.len());
            assert("file_management"@ != "monitoring"@);
            assert("file_management"@.len() != "learning"@.len());
            assert("file_management"@ != "learning"@);
            assert("file_management"@.len() != "deployment"@.len());
            assert("file_management"@ != "deployment"@);
            assert("file_management"@.len() != "unknown"@.len());
            assert("file_management"@ != "unknown"@);
            assert("development"@.len() != "system_configuration"@.len());
            assert("development"@ != "system_configuration"@);
            assert("development"@.len() != "data_analysis"@.len());
            assert("development"@ != "data_analysis"@);
            assert("development"@.len() != "monitoring"@.len());
            assert("development"@ != "monitoring"@);
            assert("development"@.len() != "learning"@.len());
            assert("development"@ != "learning"@);
            assert("development"@.len() != "deployment"@.len());
            assert("development"@ != "deployment"@);
            assert("development"@.len() != "unknown"@.len());
            assert("development"@ != "unknown"@);
            assert("system_configuration"@.len() != "data_analysis"@.len());
            assert("system_configuration"@ != "data_analysis"@);
            assert("system_configuration"@.len() != "monitoring"@.len());
            assert("system_configuration"@ != "monitoring"@);
            assert("system_configuration"@.len() != "learning"@.len());
            assert("system_configuration"@ != "learning"@);
            assert("system_configuration"@.len() != "deployment"@.len());
            assert("system_configuration"@ != "deployment"@);
            assert("system_configuration"@.len() != "unknown"@.len());
            assert("system_configuration"@ != "unknown"@);
            assert("data_analysis"@.len() != "monitoring"@.len());
            assert("data_analysis"@ != "monitoring"@);
            assert("data_analysis"@.len() != "learning"@.len());
            assert("data_analysis"@ != "learning"@);
            assert("data_analysis"@.len() != "deployment"@.len());
            assert("data_analysis"@ != "deployment"@);
            assert("data_analysis"@.len() != "unknown"@.len());
            assert("data_analysis"@ != "unknown"@);
            assert("monitoring"@.len() != "learning"@.len());
            assert("monitoring"@ != "learning"@);
            assert("monitoring"@[0] != "deployment"@[0]);
            assert("monitoring"@ != "deployment"@);
            assert("monitoring"@.len() != "unknown"@.len());
            assert("monitoring"@ != "unknown"@);
            assert("learning"@.len() != "deployment"@.len());
            assert("learning"@ != "deployment"@);
            assert("learning"@.len() != "unknown"@.len());
            assert("learning"@ != "unknown"@);
            assert("deployment"@.len() != "unknown"@.len());
            assert("deployment"@ != "unknown"@);
        }
        let mut e = Self::empty();
        e.set_rule("research", ExecutionStrategy::ResearchThenExecute);
        assert(rule_lookup(e.rules(), "research"@) == Some(ExecutionStrategy::ResearchThenExecute));
        e.set_rule("browsing", ExecutionStrategy::Direct);
        assert(rule_lookup(e.rules(), "research"@) == Some(ExecutionStrategy::ResearchThenExecute));
        assert(rule_lookup(e.rules(), "browsing"@) == Some(ExecutionStrategy::Direct));
        e.set_rule("file_management", ExecutionStrategy::Direct);
        assert(rule_lookup(e.rules(), "research"@) == Some(ExecutionStrategy::ResearchThenExecute));
        assert(rule_lookup(e.rules(), "browsing"@) == Some(ExecutionStrategy::Direct));
        assert(rule_lookup(e.rules(), "file_management"@) == Some(ExecutionStrategy::Direct));
        e.set_rule("development", ExecutionStrategy::Sequential);
        assert(rule_lookup(e.rules(), "research"@) == Some(ExecutionStrategy::ResearchThenExecute));
        assert(rule_lookup(e.rules(), "browsing"@) == Some(ExecutionStrategy::Direct));
        assert(rule_lookup(e.rules(), "file_management"@) == Some(ExecutionStrategy::Direct));
        assert(rule_lookup(e.rules(), "development"@) == Some(ExecutionStrategy::Sequential));
        e.set_rule("system_configuration", ExecutionStrategy::Sequential);
        assert(rule_lookup(e.rules(), "research"@) == Some(ExecutionStrategy::ResearchThenExecute));
        assert(rule_lookup(e.rules(), "browsing"@) == Some(ExecutionStrategy::Direct));
        assert(rule_lookup(e.rules(), "file_management"@) == Some(ExecutionStrategy::Direct));
        assert(rule_lookup(e.rules(), "development"@) == Some(ExecutionStrategy::Sequential));
        assert(rule_lookup(e.rules(), "system_configuration"@) == Some(ExecutionStrategy::Sequential));
        e.set_rule("data_analysis", ExecutionStrategy::Parallel);
        assert(rule_lookup(e.rules(), "research"@) == Some(ExecutionStrategy::ResearchThenExecute));
        assert(rule_lookup(e.rules(), "browsing"@) == Some(ExecutionStrategy::Direct));
        assert(rule_lookup(e.rules(), "file_management"@) == Some(ExecutionStrategy::Direct));
        assert(rule_lookup(e.rules(), "development"@) == Some(ExecutionStrategy::Sequential));
        assert(rule_lookup(e.rules(), "system_configuration"@) == Some(ExecutionStrategy::Sequential));
        assert(rule_lookup(e.rules(), "data_analysis"@) == Some(ExecutionStrategy::Parallel));
        e.set_rule("monitoring", ExecutionStrategy::Iterative);
        assert(rule_lookup(e.rules(), "research"@) == Some(ExecutionStrategy::ResearchThenExecute));
        assert(rule_lookup(e.rules(), "browsing"@) == Some(ExecutionStrategy::Direct));
        assert(rule_lookup(e.rules(), "file_management"@) == Some(ExecutionStrategy::Direct));
        assert(rule_lookup(e.rules(), "development"@) == Some(ExecutionStrategy::Sequential));
        assert(rule_lookup(e.rules(), "system_configuration"@) == Some(ExecutionStrategy::Sequential));
        assert(rule_lookup(e.rules(), "data_analysis"@) == Some(ExecutionStrategy::Parallel));
        assert(rule_lookup(e.rules(), "monitoring"@) == Some(ExecutionStrategy::Iterative));
        e.set_rule("learning", ExecutionStrategy::Iterative);
        assert(rule_lookup(e.rules(), "research"@) == Some(ExecutionStrategy::ResearchThenExecute));
        assert(rule_lookup(e.rules(), "browsing"@) == Some(ExecutionStrategy::Direct));
        assert(rule_lookup(e.rules(), "file_management"@) == Some(ExecutionStrategy::Direct));
        assert(rule_lookup(e.rules(), "development"@) == Some(ExecutionStrategy::Sequential));
        assert(rule_lookup(e.rules(), "system_configuration"@) == Some(ExecutionStrategy::Sequential));
        assert(rule_lookup(e.rules(), "data_analysis"@) == Some(ExecutionStrategy::Parallel));
        assert(rule_lookup(e.rules(), "monitoring"@) == Some(ExecutionStrategy::Iterative));
        assert(rule_lookup(e.rules(), "learning"@) == Some(ExecutionStrategy::Iterative));
        e.set_rule("deployment", ExecutionStrategy::Sequential);
        assert(rule_lookup(e.rules(), "research"@) == Some(ExecutionStrategy::ResearchThenExecute));
        assert(rule_lookup(e.rules(), "browsing"@) == Some(ExecutionStrategy::Direct));
        assert(rule_lookup(e.rules(), "file_management"@) == Some(ExecutionStrategy::Direct));
        assert(rule_lookup(e.rules(), "development"@) == Some(ExecutionStrategy::Sequential));
        assert(rule_lookup(e.rules(), "system_configuration"@) == Some(ExecutionStrategy::Sequential));
        assert(rule_lookup(e.rules(), "data_analysis"@) == Some(ExecutionStrategy::Parallel));
        assert(rule_lookup(e.rules(), "monitoring"@) == Some(ExecutionStrategy::Iterative));
        assert(rule_lookup(e.rules(), "learning"@) == Some(ExecutionStrategy::Iterative));
        assert(rule_lookup(e.rules(), "deployment"@) == Some(ExecutionStrategy::Sequential));
        e.set_rule("unknown", ExecutionStrategy::ResearchThenExecute);
        assert(rule_lookup(e.rules(), "research"@) == Some(ExecutionStrategy::ResearchThenExecute));
        assert(rule_lookup(e.rules(), "browsing"@) == Some(ExecutionStrategy::Direct));
        assert(rule_lookup(e.rules(), "file_management"@) == Some(ExecutionStrategy::Direct));
        assert(rule_lookup(e.rules(), "development"@) == Some(ExecutionStrategy::Sequential));
        assert(rule_lookup(e.rules(), "system_configuration"@) == Some(ExecutionStrategy::Sequential));
        assert(rule_lookup(e.rules(), "data_analysis"@) == Some(ExecutionStrategy::Parallel));
        assert(rule_lookup(e.rules(), "monitoring"@) == Some(ExecutionStrategy::Iterative));
        assert(rule_lookup(e.rules(), "learning"@) == Some(ExecutionStrategy::Iterative));
        assert(rule_lookup(e.rules(), "deployment"@) == Some(ExecutionStrategy::Sequential));
        assert(rule_lookup(e.rules(), "unknown"@) == Some(ExecutionStrategy::ResearchThenExecute));
        e
    }

    /// Sets the rule for `goal_type` (as given), replacing an earlier one.
    pub fn set_rule(&mut self, goal_type: &str, strategy: ExecutionStrategy)
        requires
            old(self).wf(),
        ensures
            final(self).wf(),
            rule_lookup(final(self).rules(), goal_type@) == Some(strategy),
            forall|k: Seq<char>|
                k != goal_type@ ==> #[trigger] rule_lookup(final(self).rules(), k) == rule_lookup(
                    old(self).rules(),
                    k,
                ),
            final(self).profiles() == old(self).profiles(),
    {
        let ghost rs = rviews(self.rules@);
        let n = self.rules.len();
        let mut i: usize = 0;
        let mut found = false;
        while i < n && !found
            invariant
                n == self.rules@.len(),
                rs == rviews(self.rules@),
                unique_keys(rs),
                i <= n,
                found ==> i < n && rs[i as int].0 == goal_type@,
                forall|j: int| 0 <= j < i ==> rs[j].0 != goal_type@,
            decreases n - i + (if found { 0int } else { 1int }),
        {
            assert(rs[i as int].0 == self.rules@[i as int].0@);
            if str_eq(self.rules[i].0.as_str(), goal_type) {
                found = true;
            } else {
                i = i + 1;
            }
        }
        if found {
            let key = self.rules[i].0.clone();
            proof {
                lemma_lookup_at(rs, i as int);
            }
            self.rules.set(i, (key, strategy));
            let ghost rs2 = rviews(self.rules@);
            assert(rs2 =~= rs.update(i as int, (goal_type@, strategy)));
            proof {
                lemma_lookup_update(rs, i as int, strategy);
            }
        } else {
            self.rules.push((owned(goal_type), strategy));
            let ghost rs2 = rviews(self.rules@);
            assert(rs2 =~= rs.push((goal_type@, strategy)));
            proof {
                lemma_lookup_push(rs, goal_type@, strategy);
            }
        }
    }

    /// The rule for `goal_type` exactly as given.
    pub fn get_rule(&self, goal_type: &str) -> (r: Option<ExecutionStrategy>)
        ensures
            r == rule_lookup(self.rules(), goal_type@),
    {
        let ghost rs = rviews(self.rules@);
        let n = self.rules.len();
        let mut i: usize = 0;
        assert(rs.subrange(0, n as int) =~= rs);
        while i < n
            invariant
                n == self.rules@.len(),
                rs == rviews(self.rules@),
                i <= n,
                rule_lookup(rs, goal_type@) == rule_lookup(rs.subrange(i as int, n as int), goal_type@),
            decreases n - i,
        {
            assert(rs.subrange(i as int, n as int)[0] == rs[i as int]);
            assert(rs[i as int].0 == self.rules@[i as int].0@);
            if str_eq(self.rules[i].0.as_str(), goal_type) {
                return Some(self.rules[i].1);
            }
            assert(rs.subrange(i as int, n as int).drop_first() =~= rs.subrange(i + 1, n as int));
            i = i + 1;
        }
        None
    }

    /// The approach for a goal type: its normalised rule, else research
    /// first.
    pub fn approach_for_goal_type(&self, goal_type: &str) -> (s: ExecutionStrategy)
        ensures
            s == match rule_lookup(self.rules(), normalized_type(goal_type@)) {
                Some(x) => x,
                None => ExecutionStrategy::ResearchThenExecute,
            },
    {
        let low = to_lowercase(goal_type);
        let v = chars_of(low.as_str());
        let mut w: Vec<char> = Vec::new();
        let mut i: usize = 0;
        while i < v.len()
            invariant
                i <= v@.len(),
                v@ == lowercase(goal_type@),
                w@ == v@.subrange(0, i as int).map_values(|c: char| if c == ' ' { '_' } else { c }),
            decreases v@.len() - i,
        {
            let c = v[i];
            w.push(if c == ' ' { '_' } else { c });
            i = i + 1;
            assert(w@ =~= v@.subrange(0, i as int).map_values(
                |c: char| if c == ' ' { '_' } else { c },
            ));
        }
        assert(v@.subrange(0, v@.len() as int) =~= v@);
        let normalized = string_of(&w);
        match self.get_rule(normalized.as_str()) {
            Some(s) => s,
            None => ExecutionStrategy::ResearchThenExecute,
        }
    }

    /// Chooses the strategy for a goal: the rule's approach adjusted to
    /// the resources; risk by priority and exploration by goal type; up to
    /// three levels of delegation on healthy resources, one otherwise; a
    /// human's approval when resources are exhausted.
    fn choose_strategy(
        &self,
        strategy_id: u128,
        goal_type: &str,
        priority: u8,
        resources: ResourceState,
    ) -> (c: StrategyChoice)
        ensures
            c.strategy_id == strategy_id,
            c.approach == adjusted(
                resources,
                match rule_lookup(self.rules(), normalized_type(goal_type@)) {
                    Some(x) => x,
                    None => ExecutionStrategy::ResearchThenExecute,
                },
                priority,
            ),
            c.name@ == "strategy-"@ + goal_type@,
            c.description@ == "Default "@ + goal_type@ + " execution strategy"@,
            c.risk_tolerance == risk_spec(priority),
            c.exploration_bias == exploration_spec(goal_type@),
            c.max_delegation_depth == (if resources == ResourceState::Healthy { 3u32 } else { 1u32 }),
            c.requires_human_approval == (resources == ResourceState::Exhausted),
    {
        let approach = self.approach_for_goal_type(goal_type);
        let adjusted_approach = match (resources, approach) {
            (ResourceState::Exhausted, _) => ExecutionStrategy::HumanAssisted,
            (ResourceState::Critical, ExecutionStrategy::Parallel) => ExecutionStrategy::Sequential,
            (ResourceState::Critical, ExecutionStrategy::ResearchThenExecute) => ExecutionStrategy::Direct,
            (ResourceState::Degraded, ExecutionStrategy::Parallel) => {
                if priority < 5 {
                    ExecutionStrategy::Sequential
                } else {
                    ExecutionStrategy::Parallel
                }
            },
            _ => approach,
        };
        let mut name = String::from_str("strategy-");
        name.append(goal_type);
        let mut description = String::from_str("Default ");
        description.append(goal_type);
        description.append(" execution strategy");
        let risk = if priority <= 3 {
            RiskTolerance::High
        } else if priority <= 6 {
            RiskTolerance::Medium
        } else {
            RiskTolerance::Low
        };
        let exploration = if crate::text::str_contains(goal_type, "research")
            || crate::text::str_contains(goal_type, "learn") {
            ExplorationBias::High
        } else if crate::text::str_contains(goal_type, "deploy") || crate::text::str_contains(
            goal_type,
            "configure",
        ) {
            ExplorationBias::Low
        } else {
            ExplorationBias::Medium
        };
        let healthy = match resources {
            ResourceState::Healthy => true,
            _ => false,
        };
        let exhausted = match resources {
            ResourceState::Exhausted => true,
            _ => false,
        };
        StrategyChoice {
            strategy_id,
            name,
            description,
            approach: adjusted_approach,
            risk_tolerance: risk,
            exploration_bias: exploration,
            max_delegation_depth: if healthy { 3 } else { 1 },
            requires_human_approval: exhausted,
        }
    }

    /// Chooses the strategy for a goal: the rule's approach adjusted to
    /// the resources; risk by priority and exploration by goal type; up to
    /// three levels of delegation on healthy resources, one otherwise; a
    /// human's approval when resources are exhausted. The profile gets a
    /// fresh random id and is registered.
    pub fn select_strategy(&mut self, goal_type: &str, priority: u8, resources: ResourceState) -> (c:
        StrategyChoice)
        requires
            old(self).wf(),
        ensures
            final(self).wf(),
            c.approach == adjusted(
                resources,
                match rule_lookup(old(self).rules(), normalized_type(goal_type@)) {
                    Some(x) => x,
                    None => ExecutionStrategy::ResearchThenExecute,
                },
                priority,
            ),
            c.name@ == "strategy-"@ + goal_type@,
            c.description@ == "Default "@ + goal_type@ + " execution strategy"@,
            c.risk_tolerance == risk_spec(priority),
            c.exploration_bias == exploration_spec(goal_type@),
            c.max_delegation_depth == (if resources == ResourceState::Healthy { 3u32 } else { 1u32 }),
            c.requires_human_approval == (resources == ResourceState::Exhausted),
            final(self).rules() == old(self).rules(),
            final(self).profiles() == old(self).profiles().insert(c.strategy_id, c@),
    {
        let id = fresh_id();
        let c = self.choose_strategy(id, goal_type, priority, resources);
        self.register_profile(c.clone());
        c
    }

    /// Registers a profile under its id, replacing one with the same id.
    pub fn register_profile(&mut self, profile: StrategyChoice)
        requires
            old(self).wf(),
        ensures
            final(self).wf(),
            final(self).rules() == old(self).rules(),
            final(self).profiles() == old(self).profiles().insert(profile.strategy_id, profile@),
    {
        broadcast use vstd::std_specs::hash::group_hash_axioms;
        let ghost before = self.profiles@;
        let ghost pv = profile@;
        let id = profile.strategy_id;
        self.profiles.insert(id, profile);
        assert(self.profiles() =~= before.map_values(|c: StrategyChoice| c@).insert(id, pv));
    }

    /// The profile registered under `strategy_id`.
    pub fn get_profile(&self, strategy_id: u128) -> (r: Option<StrategyChoice>)
        requires
            self.wf(),
        ensures
            match r {
                Some(c) => self.profiles().contains_key(strategy_id) && self.profiles()[strategy_id]
                    == c@ && c.strategy_id == strategy_id,
                None => !self.profiles().contains_key(strategy_id),
            },
    {
        broadcast use vstd::std_specs::hash::group_hash_axioms;
        match self.profiles.get(&strategy_id) {
            Some(c) => Some(c.clone()),
            None => None,
        }
    }

    /// Every registered profile, each once, in the map's iteration order.
    pub fn list_profiles(&self) -> (r: Vec<StrategyChoice>)
        requires
            self.wf(),
        ensures
            r@.len() == self.profiles().len(),
            forall|i: int|
                0 <= i < r@.len() ==> self.profiles().contains_key((#[trigger] r@[i]).strategy_id)
                    && self.profiles()[r@[i].strategy_id] == r@[i]@,
            forall|k: u128| #[trigger]
                self.profiles().contains_key(k) ==> exists|i: int|
                    0 <= i < r@.len() && r@[i].strategy_id == k,
            forall|i: int, j: int|
                0 <= i < j < r@.len() ==> r@[i].strategy_id != r@[j].strategy_id,
    {
        broadcast use vstd::std_specs::hash::group_hash_axioms;
        let mut r: Vec<StrategyChoice> = Vec::new();
        for (k, c) in it: self.profiles.iter()
            invariant
                r@.len() == it.index(),
                forall|i: int| 0 <= i < r@.len() ==> (#[trigger] r@[i])@ == (*it.seq()[i].1)@,
        {
            r.push(c.clone());
        }
        proof {
            let v = self.profiles.iter().remaining();
            let m = self.profiles@;
            assert(self.profiles().dom() =~= m.dom());
            assert forall|i: int| 0 <= i < r@.len() implies self.profiles().contains_key(
                (#[trigger] r@[i]).strategy_id,
            ) && self.profiles()[r@[i].strategy_id] == r@[i]@ by {
                assert(m.contains_key(*v[i].0));
                assert(self.profiles()[*v[i].0].strategy_id == *v[i].0);
            }
            assert forall|k: u128| #[trigger] self.profiles().contains_key(k) implies exists|i: int|
                0 <= i < r@.len() && r@[i].strategy_id == k by {
                assert(m.contains_key(k));
                assert(v.contains((&k, &m[k])));
                let i = choose|i: int| 0 <= i < v.len() && v[i] == (&k, &m[k]);
                assert(self.profiles()[k].strategy_id == k);
                assert(r@[i].strategy_id == k);
            }
            assert forall|i: int, j: int| 0 <= i < j < r@.len() implies r@[i].strategy_id
                != r@[j].strategy_id by {
                assert(m.contains_key(*v[i].0));
                assert(m.contains_key(*v[j].0));
                assert(self.profiles()[*v[i].0].strategy_id == *v[i].0);
                assert(self.profiles()[*v[j].0].strategy_id == *v[j].0);
                if r@[i].strategy_id == r@[j].strategy_id {
                    assert(v[i] == v[j]);
                }
            }
        }
        r
    }
}

proof fn lemma_lookup_at(rs: Seq<(Seq<char>, ExecutionStrategy)>, i: int)
    requires
        unique_keys(rs),
        0 <= i < rs.len(),
    ensures
        rule_lookup(rs, rs[i].0) == Some(rs[i].1),
    decreases rs.len(),
{
    if i > 0 {
        assert(rs.drop_first()[i - 1] == rs[i]);
        lemma_lookup_at(rs.drop_first(), i - 1);
    }
}

proof fn lemma_lookup_absent(rs: Seq<(Seq<char>, ExecutionStrategy)>, k: Seq<char>)
    requires
        forall|j: int| 0 <= j < rs.len() ==> rs[j].0 != k,
    ensures
        rule_lookup(rs, k) is None,
    decreases rs.len(),
{
    if rs.len() > 0 {
        assert forall|j: int| 0 <= j < rs.drop_first().len() implies rs.drop_first()[j].0 != k by {
            assert(rs.drop_first()[j] == rs[j + 1]);
        }
        lemma_lookup_absent(rs.drop_first(), k);
    }
}

proof fn lemma_lookup_push(
    rs: Seq<(Seq<char>, ExecutionStrategy)>,
    k: Seq<char>,
    v: ExecutionStrategy,
)
    requires
        unique_keys(rs),
        forall|j: int| 0 <= j < rs.len() ==> rs[j].0 != k,
    ensures
        unique_keys(rs.push((k, v))),
        rule_lookup(rs.push((k, v)), k) == Some(v),
        forall|q: Seq<char>| q != k ==> #[trigger] rule_lookup(rs.push((k, v)), q) == rule_lookup(rs, q),
    decreases rs.len(),
{
    let p = rs.push((k, v));
    assert(unique_keys(p)) by {
        assert forall|a: int, b: int| 0 <= a < b < p.len() implies p[a].0 != p[b].0 by {
            if b == rs.len() {
                assert(p[a] == rs[a]);
            } else {
                assert(p[a] == rs[a]);
                assert(p[b] == rs[b]);
            }
        }
    }
    if rs.len() == 0 {
        assert(p[0] == (k, v));
        assert(p.drop_first() =~= Seq::<(Seq<char>, ExecutionStrategy)>::empty());
        assert(rule_lookup(p, k) == Some(v));
        assert forall|q: Seq<char>| q != k implies #[trigger] rule_lookup(p, q) == rule_lookup(rs, q) by {
            assert(rule_lookup(p.drop_first(), q) is None);
            assert(rule_lookup(p, q) == rule_lookup(p.drop_first(), q));
        }
    } else {
        let t = rs.drop_first();
        assert(p.drop_first() =~= t.push((k, v)));
        assert forall|j: int| 0 <= j < t.len() implies t[j].0 != k by {
            assert(t[j] == rs[j + 1]);
        }
        assert(unique_keys(t)) by {
            assert forall|a: int, b: int| 0 <= a < b < t.len() implies t[a].0 != t[b].0 by {
                assert(t[a] == rs[a + 1]);
                assert(t[b] == rs[b + 1]);
            }
        }
        lemma_lookup_push(t, k, v);
        assert(p[0] == rs[0]);
        assert(rs[0].0 != k);
        assert(rule_lookup(p, k) == rule_lookup(t.push((k, v)), k));
        assert forall|q: Seq<char>| q != k implies #[trigger] rule_lookup(p, q) == rule_lookup(rs, q) by {
            if rs[0].0 != q {
                assert(rule_lookup(p, q) == rule_lookup(t.push((k, v)), q));
                assert(rule_lookup(t.push((k, v)), q) == rule_lookup(t, q));
            }
        }
    }
}

proof fn lemma_lookup_update(rs: Seq<(Seq<char>, ExecutionStrategy)>, i: int, v: ExecutionStrategy)
    requires
        unique_keys(rs),
        0 <= i < rs.len(),
    ensures
        unique_keys(rs.update(i, (rs[i].0, v))),
        rule_lookup(rs.update(i, (rs[i].0, v)), rs[i].0) == Some(v),
        forall|q: Seq<char>|
            q != rs[i].0 ==> #[trigger] rule_lookup(rs.update(i, (rs[i].0, v)), q) == rule_lookup(
                rs,
                q,
            ),
    decreases rs.len(),
{
    let u = rs.update(i, (rs[i].0, v));
    assert(unique_keys(u)) by {
        assert forall|a: int, b: int| 0 <= a < b < u.len() implies u[a].0 != u[b].0 by {
            assert(u[a].0 == rs[a].0);
            assert(u[b].0 == rs[b].0);
        }
    }
    lemma_lookup_at(u, i);
    if i == 0 {
        assert(u.drop_first() =~= rs.drop_first());
        assert forall|q: Seq<char>| q != rs[i].0 implies #[trigger] rule_lookup(u, q) == rule_lookup(rs, q) by {
            assert(u[0].0 == rs[0].0);
            assert(rule_lookup(u, q) == rule_lookup(u.drop_first(), q));
            assert(rule_lookup(rs, q) == rule_lookup(rs.drop_first(), q));
        }
    } else {
        let t = rs.drop_first();
        assert(t[i - 1] == rs[i]);
        assert(u.drop_first() =~= t.update(i - 1, (t[i - 1].0, v)));
        assert(unique_keys(t)) by {
            assert forall|a: int, b: int| 0 <= a < b < t.len() implies t[a].0 != t[b].0 by {
                assert(t[a] == rs[a + 1]);
                assert(t[b] == rs[b + 1]);
            }
        }
        lemma_lookup_update(t, i - 1, v);
        assert(u[0] == rs[0]);
        assert forall|q: Seq<char>| q != rs[i].0 implies #[trigger] rule_lookup(u, q) == rule_lookup(rs, q) by {
            if rs[0].0 != q {
                assert(rule_lookup(u, q) == rule_lookup(u.drop_first(), q));
                assert(rule_lookup(u.drop_first(), q) == rule_lookup(t, q));
            }
        }
    }
}

} // verus!
