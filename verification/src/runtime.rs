//! The autonomous runtime's lifecycle and its standing configuration: the
//! background workers, the subscriptions each goal starts with, and the
//! notices the workers raise. Timers, channels and the orchestrator run
//! outside.

use vstd::prelude::*;

use crate::errors::CoordinatorError;
use crate::goal_scheduler::{EventSubscription, GoalId};
use crate::notifications::{NotificationCategory, NotificationLevel};
use crate::strategy_engine::ResourceState;
use crate::text::{contains_seq, owned, str_contains, str_eq};

verus! {

/// Status of the runtime.
#[derive(Debug)]
pub enum RuntimeStatus {
    Stopped,
    Running,
    Paused,
    Failed(String),
}

/// The state of the brain in a session.
#[derive(Debug, Clone, Copy, PartialEq, Eq, Structural)]
pub enum BrainState {
    Idle,
    GoalSetting,
    Planning,
    Reasoning,
    DecisionMaking,
    Executing,
    Reflecting,
    Learning,
    Paused,
    Failed,
}

/// A background worker that runs every `interval_secs` seconds.
#[derive(Debug, Clone, Copy)]
pub struct BackgroundWorker {
    pub name: &'static str,
    pub interval_secs: u64,
    pub enabled: bool,
}

impl BackgroundWorker {
    /// An enabled worker.
    pub fn new(name: &'static str, interval_secs: u64) -> (w: Self)
        ensures
            w.name@ == name@,
            w.interval_secs == interval_secs,
            w.enabled,
    {
        BackgroundWorker { name, interval_secs, enabled: true }
    }

    /// A disabled worker.
    pub fn disabled(name: &'static str, interval_secs: u64) -> (w: Self)
        ensures
            w.name@ == name@,
            w.interval_secs == interval_secs,
            !w.enabled,
    {
        BackgroundWorker { name, interval_secs, enabled: false }
    }
}

/// The default workers: goal monitor every 30 s, resource monitor every
/// 60 s, reflection scheduler every 120 s, learning scheduler every 300 s,
/// persistence every 600 s, all enabled.
pub fn default_workers() -> (w: Vec<BackgroundWorker>)
    ensures
        w@.len() == 5,
        w@[0].name@ == "goal_monitor"@ && w@[0].interval_secs == 30,
        w@[1].name@ == "resource_monitor"@ && w@[1].interval_secs == 60,
        w@[2].name@ == "reflection_scheduler"@ && w@[2].interval_secs == 120,
        w@[3].name@ == "learning_scheduler"@ && w@[3].interval_secs == 300,
        w@[4].name@ == "persistence"@ && w@[4].interval_secs == 600,
        forall|i: int| 0 <= i < 5 ==> #[trigger] w@[i].enabled,
{
    vec![
        BackgroundWorker::new("goal_monitor", 30),
        BackgroundWorker::new("resource_monitor", 60),
        BackgroundWorker::new("reflection_scheduler", 120),
        BackgroundWorker::new("learning_scheduler", 300),
        BackgroundWorker::new("persistence", 600),
    ]
}

/// What a worker does when its timer fires.
#[derive(Debug, Clone, Copy, PartialEq, Eq, Structural)]
pub enum WorkerTask {
    GoalMonitor,
    ResourceMonitor,
    ReflectionScheduler,
    LearningScheduler,
    Persistence,
    Nothing,
}

/// The task of the worker named `name`.
pub fn worker_task(name: &str) -> (t: WorkerTask)
    ensures
        name@ == "goal_monitor"@ ==> t == WorkerTask::GoalMonitor,
        name@ != "goal_monitor"@ && name@ == "resource_monitor"@ ==> t == WorkerTask::ResourceMonitor,
        name@ != "goal_monitor"@ && name@ != "resource_monitor"@ && name@ == "reflection_scheduler"@
            ==> t == WorkerTask::ReflectionScheduler,
        name@ != "goal_monitor"@ && name@ != "resource_monitor"@ && name@ != "reflection_scheduler"@
            && name@ == "learning_scheduler"@ ==> t == WorkerTask::LearningScheduler,
        name@ != "goal_monitor"@ && name@ != "resource_monitor"@ && name@ != "reflection_scheduler"@
            && name@ != "learning_scheduler"@ && name@ == "persistence"@ ==> t == WorkerTask::Persistence,
        name@ != "goal_monitor"@ && name@ != "resource_monitor"@ && name@ != "reflection_scheduler"@
            && name@ != "learning_scheduler"@ && name@ != "persistence"@ ==> t == WorkerTask::Nothing,
{
    if str_eq(name, "goal_monitor") {
        WorkerTask::GoalMonitor
    } else if str_eq(name, "resource_monitor") {
        WorkerTask::ResourceMonitor
    } else if str_eq(name, "reflection_scheduler") {
        WorkerTask::ReflectionScheduler
    } else if str_eq(name, "learning_scheduler") {
        WorkerTask::LearningScheduler
    } else if str_eq(name, "persistence") {
        WorkerTask::Persistence
    } else {
        WorkerTask::Nothing
    }
}

pub open spec fn subviews(s: Seq<EventSubscription>) -> Seq<(Seq<char>, bool)> {
    s.map_values(|e: EventSubscription| (e.pattern@, e.prefix_match))
}

/// The subscriptions a goal of type `t` starts with: its own lifecycle
/// (prefix "brain.goal.") and world-model updates, then deployment goals
/// follow task completion and failure, development goals plan updates and
/// reflections, monitoring goals all model events, and other goals
/// workflow events.
pub open spec fn subscriptions_spec(t: Seq<char>) -> Seq<(Seq<char>, bool)> {
    seq![("brain.goal."@, true), ("brain.model.world.updated"@, false)] + if contains_seq(
        t,
        "deploy"@,
    ) || contains_seq(t, "Deploy"@) {
        seq![("runtime.task.completed"@, false), ("runtime.task.failed"@, false)]
    } else if contains_seq(t, "code"@) || contains_seq(t, "Code"@) || contains_seq(t, "develop"@) {
        seq![("brain.plan.updated"@, false), ("brain.reflection.completed"@, false)]
    } else if contains_seq(t, "monitor"@) || contains_seq(t, "Monitor"@) || contains_seq(t, "watch"@) {
        seq![("brain.model."@, true)]
    } else {
        seq![("brain.workflow."@, true)]
    }
}

/// The subscriptions a goal of type `goal_type` starts with.
pub fn default_subscriptions(goal_type: &str) -> (r: Vec<EventSubscription>)
    ensures
        subviews(r@) == subscriptions_spec(goal_type@),
{
    let mut subs: Vec<EventSubscription> = Vec::new();
    subs.push(EventSubscription::prefix("brain.goal."));
    subs.push(EventSubscription::exact("brain.model.world.updated"));
    let t = goal_type;
    if str_contains(t, "deploy") || str_contains(t, "Deploy") {
        subs.push(EventSubscription::exact("runtime.task.completed"));
        subs.push(EventSubscription::exact("runtime.task.failed"));
    } else if str_contains(t, "code") || str_contains(t, "Code") || str_contains(t, "develop") {
        subs.push(EventSubscription::exact("brain.plan.updated"));
        subs.push(EventSubscription::exact("brain.reflection.completed"));
    } else if str_contains(t, "monitor") || str_contains(t, "Monitor") || str_contains(t, "watch") {
        subs.push(EventSubscription::prefix("brain.model."));
    } else {
        subs.push(EventSubscription::prefix("brain.workflow."));
    }
    assert(subviews(subs@) =~= subscriptions_spec(goal_type@));
    subs
}

/// Whether the runtime runs and whether it is paused, and its status.
pub struct RuntimeLifecycle {
    running: bool,
    paused: bool,
    status: RuntimeStatus,
}

/// The status as a plain value.
pub enum StatusView {
    Stopped,
    Running,
    Paused,
    Failed(Seq<char>),
}

pub open spec fn status_view(s: RuntimeStatus) -> StatusView {
    match s {
        RuntimeStatus::Stopped => StatusView::Stopped,
        RuntimeStatus::Running => StatusView::Running,
        RuntimeStatus::Paused => StatusView::Paused,
        RuntimeStatus::Failed(m) => StatusView::Failed(m@),
    }
}

impl RuntimeLifecycle {
    pub closed spec fn is_running(self) -> bool {
        self.running
    }

    pub closed spec fn is_paused(self) -> bool {
        self.paused
    }

    pub closed spec fn status_spec(self) -> StatusView {
        status_view(self.status)
    }

    /// A stopped runtime.
    pub fn new() -> (r: Self)
        ensures
            !r.is_running(),
            !r.is_paused(),
            r.status_spec() is Stopped,
    {
        RuntimeLifecycle { running: false, paused: false, status: RuntimeStatus::Stopped }
    }

    /// Starts the runtime; refused while it already runs.
    pub fn start(&mut self) -> (r: Result<(), CoordinatorError>)
        ensures
            old(self).is_running() ==> r.is_err() && final(self).is_running()
                && final(self).is_paused() == old(self).is_paused() && final(self).status_spec()
                == old(self).status_spec() && match r {
                Err(CoordinatorError::Internal(m)) => m@ == "runtime already running"@,
                _ => false,
            },
            !old(self).is_running() ==> r.is_ok() && final(self).is_running()
                && final(self).is_paused() == old(self).is_paused() && final(self).status_spec() is Running,
    {
        if self.running {
            return Err(CoordinatorError::Internal(owned("runtime already running")));
        }
        self.running = true;
        self.status = RuntimeStatus::Running;
        Ok(())
    }

    /// Stops the runtime.
    pub fn stop(&mut self)
        ensures
            !final(self).is_running(),
            final(self).is_paused() == old(self).is_paused(),
            final(self).status_spec() is Stopped,
    {
        self.running = false;
        self.status = RuntimeStatus::Stopped;
    }

    /// Pauses the runtime: workers and loops skip their ticks.
    pub fn pause(&mut self)
        ensures
            final(self).is_running() == old(self).is_running(),
            final(self).is_paused(),
            final(self).status_spec() is Paused,
    {
        self.paused = true;
        self.status = RuntimeStatus::Paused;
    }

    /// Resumes a paused runtime.
    pub fn resume(&mut self)
        ensures
            final(self).is_running() == old(self).is_running(),
            !final(self).is_paused(),
            final(self).status_spec() is Running,
    {
        self.paused = false;
        self.status = RuntimeStatus::Running;
    }

    /// Does a worker or the heartbeat do its work on this tick? It stops
    /// when the runtime stopped and skips while it is paused.
    pub fn tick_action(&self) -> (a: TickAction)
        ensures
            !self.is_running() ==> a == TickAction::Exit,
            self.is_running() && self.is_paused() ==> a == TickAction::Skip,
            self.is_running() && !self.is_paused() ==> a == TickAction::Work,
    {
        if !self.running {
            TickAction::Exit
        } else if self.paused {
            TickAction::Skip
        } else {
            TickAction::Work
        }
    }

    /// The current status.
    pub fn status(&self) -> (s: RuntimeStatus)
        ensures
            status_view(s) == self.status_spec(),
    {
        match &self.status {
            RuntimeStatus::Stopped => RuntimeStatus::Stopped,
            RuntimeStatus::Running => RuntimeStatus::Running,
            RuntimeStatus::Paused => RuntimeStatus::Paused,
            RuntimeStatus::Failed(m) => RuntimeStatus::Failed(m.clone()),
        }
    }
}

/// What a timer tick leads to.
#[derive(Debug, Clone, Copy, PartialEq, Eq, Structural)]
pub enum TickAction {
    Work,
    Skip,
    Exit,
}

/// A notice a worker raises: level, category, title, message and the goal
/// it concerns.
#[derive(Debug)]
pub struct Notice {
    pub level: NotificationLevel,
    pub category: NotificationCategory,
    pub title: String,
    pub message: String,
    pub goal: Option<GoalId>,
}

/// The notice of the resource monitor: a critical one when resources are
/// exhausted, a warning when they are critical, none otherwise.
pub fn resource_notice(state: ResourceState) -> (n: Option<Notice>)
    ensures
        state == ResourceState::Exhausted ==> (n matches Some(x) && x.level
            == NotificationLevel::Critical && x.category == NotificationCategory::ResourceExhaustion
            && x.title@ == "Resources exhausted"@ && x.message@
            == "All system resources are exhausted. Only human-assisted tasks can proceed."@
            && x.goal is None),
        state == ResourceState::Critical ==> (n matches Some(x) && x.level
            == NotificationLevel::Warning && x.category == NotificationCategory::ResourceExhaustion
            && x.title@ == "Resources critical"@ && x.message@
            == "System resources are critically low. Parallel tasks will be degraded."@
            && x.goal is None),
        state == ResourceState::Degraded || state == ResourceState::Healthy ==> n is None,
{
    match state {
        ResourceState::Exhausted => Some(
            Notice {
                level: NotificationLevel::Critical,
                category: NotificationCategory::ResourceExhaustion,
                title: owned("Resources exhausted"),
                message: owned(
                    "All system resources are exhausted. Only human-assisted tasks can proceed.",
                ),
                goal: None,
            },
        ),
        ResourceState::Critical => Some(
            Notice {
                level: NotificationLevel::Warning,
                category: NotificationCategory::ResourceExhaustion,
                title: owned("Resources critical"),
                message: owned("System resources are critically low. Parallel tasks will be degraded."),
                goal: None,
            },
        ),
        _ => None,
    }
}

/// An active goal as the goal monitor reads it.
#[derive(Debug)]
pub struct ActiveGoal {
    pub goal_id: GoalId,
    pub description: String,
    pub blocked_reason: Option<String>,
}

pub struct NoticeView {
    pub level: NotificationLevel,
    pub category: NotificationCategory,
    pub title: Seq<char>,
    pub message: Seq<char>,
    pub goal: Option<GoalId>,
}

impl View for Notice {
    type V = NoticeView;

    open spec fn view(&self) -> NoticeView {
        NoticeView {
            level: self.level,
            category: self.category,
            title: self.title@,
            message: self.message@,
            goal: self.goal,
        }
    }
}

pub open spec fn noviews(s: Seq<Notice>) -> Seq<NoticeView> {
    s.map_values(|n: Notice| n@)
}

/// The goal monitor's notices for `gs`: one warning per blocked goal, in
/// order, titled "Goal blocked: " and the goal's description, with the
/// reason as its message.
pub open spec fn blocked_notices_spec(gs: Seq<ActiveGoal>) -> Seq<NoticeView>
    decreases gs.len(),
{
    if gs.len() == 0 {
        Seq::empty()
    } else {
        let rest = blocked_notices_spec(gs.drop_last());
        match gs.last().blocked_reason {
            Some(reason) => rest.push(
                NoticeView {
                    level: NotificationLevel::Warning,
                    category: NotificationCategory::GoalBlocked,
                    title: "Goal blocked: "@ + gs.last().description@,
                    message: reason@,
                    goal: Some(gs.last().goal_id),
                },
            ),
            None => rest,
        }
    }
}

/// The goal monitor's notices.
pub fn blocked_goal_notices(goals: &Vec<ActiveGoal>) -> (r: Vec<Notice>)
    ensures
        noviews(r@) == blocked_notices_spec(goals@),
{
    let mut r: Vec<Notice> = Vec::new();
    let mut i: usize = 0;
    while i < goals.len()
        invariant
            i <= goals@.len(),
            noviews(r@) == blocked_notices_spec(goals@.subrange(0, i as int)),
        decreases goals@.len() - i,
    {
        let ghost pre = goals@.subrange(0, i as int);
        let ghost next = goals@.subrange(0, i + 1);
        assert(next.drop_last() =~= pre);
        assert(next.last() == goals@[i as int]);
        let g = &goals[i];
        match &g.blocked_reason {
            Some(reason) => {
                let mut title = String::from_str("Goal blocked: ");
                title.append(g.description.as_str());
                let n = Notice {
                    level: NotificationLevel::Warning,
                    category: NotificationCategory::GoalBlocked,
                    title,
                    message: reason.clone(),
                    goal: Some(g.goal_id),
                };
                let ghost r0 = r@;
                let ghost nv = n@;
                r.push(n);
                assert(noviews(r@) =~= noviews(r0).push(nv));
            },
            None => {},
        }
        i = i + 1;
    }
    assert(goals@.subrange(0, goals@.len() as int) =~= goals@);
    r
}

} // verus!
