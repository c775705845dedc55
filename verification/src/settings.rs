use vstd::prelude::*;

verus! {

/// Priority of an outgoing notification, from least to most urgent.
#[derive(Debug, Clone, Copy, PartialEq, Eq, Structural)]
pub enum NotificationPriority {
    Low,
    Normal,
    High,
    Critical,
}

impl NotificationPriority {
    /// Position of the priority in the order `Low < Normal < High < Critical`.
    pub open spec fn rank(self) -> int {
        match self {
            NotificationPriority::Low => 0,
            NotificationPriority::Normal => 1,
            NotificationPriority::High => 2,
            NotificationPriority::Critical => 3,
        }
    }

    /// Exec counterpart of `rank`.
    pub fn rank_value(&self) -> (r: u8)
        ensures
            r as int == self.rank(),
    {
        match self {
            NotificationPriority::Low => 0,
            NotificationPriority::Normal => 1,
            NotificationPriority::High => 2,
            NotificationPriority::Critical => 3,
        }
    }

    /// `self >= other` in the priority order.
    pub fn at_least(&self, other: &NotificationPriority) -> (b: bool)
        ensures
            b == (self.rank() >= other.rank()),
    {
        self.rank_value() >= other.rank_value()
    }
}

/// Quiet-hours configuration for proactive communication.
#[derive(Debug, Clone, Copy, PartialEq, Eq, Structural)]
pub struct CommunicationSettings {
    pub quiet_hours_enabled: bool,
    pub quiet_start_hour: u8,
    pub quiet_end_hour: u8,
    pub quiet_min_priority: NotificationPriority,
}

impl CommunicationSettings {
    /// The default quiet window: enabled, 22:00 to 08:00, only `High` and
    /// above may interrupt.
    pub open spec fn spec_default() -> CommunicationSettings {
        CommunicationSettings {
            quiet_hours_enabled: true,
            quiet_start_hour: 22,
            quiet_end_hour: 8,
            quiet_min_priority: NotificationPriority::High,
        }
    }
}

impl Default for CommunicationSettings {
    fn default() -> (s: Self)
        ensures
            s == CommunicationSettings::spec_default(),
    {
        CommunicationSettings {
            quiet_hours_enabled: true,
            quiet_start_hour: 22,
            quiet_end_hour: 8,
            quiet_min_priority: NotificationPriority::High,
        }
    }
}

/// Which observation sources are switched on, and how often they are polled.
#[derive(Debug, Clone, PartialEq, Eq, Structural)]
pub struct ObservationSettings {
    pub time_source: bool,
    pub system_source: bool,
    pub desktop_source: bool,
    pub interval_secs: u64,
}

impl Default for ObservationSettings {
    fn default() -> (s: Self)
        ensures
            s.time_source,
            s.system_source,
            !s.desktop_source,
            s.interval_secs == 30,
    {
        ObservationSettings {
            time_source: true,
            system_source: true,
            desktop_source: false,
            interval_secs: 30,
        }
    }
}

/// Native notification preferences.
#[derive(Debug, Clone)]
pub struct NotificationSettings {
    pub enabled: bool,
    pub min_priority: String,
}

impl Default for NotificationSettings {
    fn default() -> (s: Self)
        ensures
            s.enabled,
            s.min_priority@ == "info"@,
    {
        NotificationSettings { enabled: true, min_priority: String::from_str("info") }
    }
}

} // verus!
