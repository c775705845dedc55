//! Autonomous communication policy.
//!
//! Decides whether a proactive message is delivered now, deferred, or only
//! stored. Replies to the user are always delivered; the policy only gates
//! messages the companion starts on its own, so it respects quiet hours.

use chrono::Timelike;
use vstd::prelude::*;

use crate::settings::{CommunicationSettings, NotificationPriority};

verus! {

/// What the policy decided to do with a proactive message.
#[derive(Debug, Clone, Copy, PartialEq, Eq, Structural)]
pub enum PolicyVerdict {
    /// Deliver now.
    Allow,
    /// Deliver now (critical priority), overriding quiet hours.
    AllowCritical,
    /// Defer until the next non-quiet window.
    Defer,
    /// Do not communicate; store only.
    Store,
}

/// Whether a message came from the user or from the companion itself.
#[derive(Debug, Clone, Copy, PartialEq, Eq, Structural)]
pub enum MessageOrigin {
    UserInitiated,
    Proactive,
}

/// Evaluates proactive communication against the configured quiet window.
#[derive(Debug, Clone, Copy, PartialEq, Eq, Structural)]
pub struct CommunicationPolicy {
    pub quiet_hours_enabled: bool,
    pub quiet_start_hour: u8,
    pub quiet_end_hour: u8,
    pub quiet_min_priority: NotificationPriority,
}

/// Is `hour` inside the window `[start, end)`, where a window with
/// `start > end` wraps midnight and `start == end` is empty?
pub open spec fn in_quiet_window(enabled: bool, start: u8, end: u8, hour: u8) -> bool {
    if !enabled || start == end {
        false
    } else if start < end {
        start <= hour && hour < end
    } else {
        hour >= start || hour < end
    }
}

/// The verdict for a message, as a function of the policy's fields.
pub open spec fn verdict_spec(
    policy: CommunicationPolicy,
    origin: MessageOrigin,
    priority: NotificationPriority,
    hour: u8,
) -> PolicyVerdict {
    if origin == MessageOrigin::UserInitiated {
        PolicyVerdict::Allow
    } else if !policy.is_quiet(hour) {
        PolicyVerdict::Allow
    } else if priority == NotificationPriority::Critical {
        PolicyVerdict::AllowCritical
    } else if priority == NotificationPriority::Low {
        PolicyVerdict::Store
    } else if priority.rank() >= policy.quiet_min_priority.rank() {
        PolicyVerdict::AllowCritical
    } else {
        PolicyVerdict::Defer
    }
}

impl CommunicationPolicy {
    pub open spec fn is_quiet(self, hour: u8) -> bool {
        in_quiet_window(self.quiet_hours_enabled, self.quiet_start_hour, self.quiet_end_hour, hour)
    }

    pub fn from_settings(settings: &CommunicationSettings) -> (p: Self)
        ensures
            p.quiet_hours_enabled == settings.quiet_hours_enabled,
            p.quiet_start_hour == settings.quiet_start_hour,
            p.quiet_end_hour == settings.quiet_end_hour,
            p.quiet_min_priority == settings.quiet_min_priority,
    {
        CommunicationPolicy {
            quiet_hours_enabled: settings.quiet_hours_enabled,
            quiet_start_hour: settings.quiet_start_hour,
            quiet_end_hour: settings.quiet_end_hour,
            quiet_min_priority: settings.quiet_min_priority,
        }
    }

    /// The policy built from `CommunicationSettings::default()`.
    pub fn default_policy() -> (p: Self)
        ensures
            p.quiet_hours_enabled,
            p.quiet_start_hour == 22,
            p.quiet_end_hour == 8,
            p.quiet_min_priority == NotificationPriority::High,
    {
        let s = CommunicationSettings::default();
        Self::from_settings(&s)
    }

    /// Is `local_hour` (0-23) inside the configured quiet window?
    ///
    /// Windows may wrap midnight (22:00-08:00); a window whose start equals
    /// its end is disabled.
    pub fn is_quiet_hour(&self, local_hour: u8) -> (b: bool)
        ensures
            b == self.is_quiet(local_hour),
    {
        if !self.quiet_hours_enabled || self.quiet_start_hour == self.quiet_end_hour {
            return false;
        }
        if self.quiet_start_hour < self.quiet_end_hour {
            local_hour >= self.quiet_start_hour && local_hour < self.quiet_end_hour
        } else {
            local_hour >= self.quiet_start_hour || local_hour < self.quiet_end_hour
        }
    }

    /// Decide whether a message may be delivered at `local_hour`.
    pub fn evaluate(
        &self,
        origin: MessageOrigin,
        priority: NotificationPriority,
        local_hour: u8,
    ) -> (v: PolicyVerdict)
        ensures
            v == verdict_spec(*self, origin, priority, local_hour),
    {
        if origin == MessageOrigin::UserInitiated {
            return PolicyVerdict::Allow;
        }
        if !self.is_quiet_hour(local_hour) {
            return PolicyVerdict::Allow;
        }
        match priority {
            NotificationPriority::Critical => PolicyVerdict::AllowCritical,
            NotificationPriority::Low => PolicyVerdict::Store,
            _ => {
                if priority.at_least(&self.quiet_min_priority) {
                    PolicyVerdict::AllowCritical
                } else {
                    PolicyVerdict::Defer
                }
            },
        }
    }

    /// The hour of the current local time: calls `chrono::Local::now()` and
    /// `Timelike::hour`, which chrono documents as 0 to 23. Which hour it is
    /// depends on the clock and the time zone, so only the range is stated.
    #[verifier::external_body]
    pub fn now_hour() -> (h: u8)
        ensures
            h < 24,
    {
        chrono::Local::now().hour() as u8
    }
}

/// Replies to the user are never gated, whatever the hour or priority.
pub proof fn lemma_user_initiated_always_allowed(
    policy: CommunicationPolicy,
    priority: NotificationPriority,
    hour: u8,
)
    ensures
        verdict_spec(policy, MessageOrigin::UserInitiated, priority, hour) == PolicyVerdict::Allow,
{
}

/// Outside quiet hours every message is delivered.
pub proof fn lemma_outside_quiet_hours_allowed(
    policy: CommunicationPolicy,
    origin: MessageOrigin,
    priority: NotificationPriority,
    hour: u8,
)
    requires
        !policy.is_quiet(hour),
    ensures
        verdict_spec(policy, origin, priority, hour) == PolicyVerdict::Allow,
{
}

/// A critical message always goes out, even during quiet hours; a low one
/// is never interrupting, it is delivered only outside quiet hours.
pub proof fn lemma_priority_extremes(policy: CommunicationPolicy, origin: MessageOrigin, hour: u8)
    ensures
        verdict_spec(policy, origin, NotificationPriority::Critical, hour) != PolicyVerdict::Defer,
        verdict_spec(policy, origin, NotificationPriority::Critical, hour)
            != PolicyVerdict::Store,
        verdict_spec(policy, origin, NotificationPriority::Low, hour) != PolicyVerdict::AllowCritical,
{
}

/// A disabled policy, or one whose window is empty, never has a quiet hour.
pub proof fn lemma_disabled_window_never_quiet(policy: CommunicationPolicy, hour: u8)
    requires
        !policy.quiet_hours_enabled || policy.quiet_start_hour == policy.quiet_end_hour,
    ensures
        !policy.is_quiet(hour),
{
}

/// Raising the priority of a proactive message never makes the verdict
/// less permissive: once a priority may interrupt quiet hours, every higher
/// one may too.
pub proof fn lemma_priority_monotone(
    policy: CommunicationPolicy,
    p1: NotificationPriority,
    p2: NotificationPriority,
    hour: u8,
)
    requires
        p1.rank() <= p2.rank(),
        verdict_spec(policy, MessageOrigin::Proactive, p1, hour) == PolicyVerdict::AllowCritical,
    ensures
        verdict_spec(policy, MessageOrigin::Proactive, p2, hour) == PolicyVerdict::AllowCritical,
{
}

} // verus!
