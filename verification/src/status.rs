use vstd::prelude::*;

use crate::config::{Adaptation, LearningModel, PatternConfig};
use crate::time::Duration;

verus! {

/// An identifier for a monitored task.
///
/// IDs are allocated monotonically and are not reused for the lifetime of a
/// monitor, so a stale handle can never reach a newer task.
#[derive(Clone, Copy, Debug, PartialEq, Eq, Structural, Hash, PartialOrd, Ord)]
pub struct TaskId(pub u64);

impl TaskId {
    /// Returns the numeric representation of this identifier.
    pub fn get(self) -> (r: u64)
        ensures
            r == self.0,
    {
        self.0
    }
}

/// Confidence in a learned timing baseline.
#[derive(Clone, Copy, Debug, PartialEq, Eq, Structural, PartialOrd, Ord)]
pub enum Confidence {
    /// There are not yet enough accepted samples to trust the model.
    Insufficient,
    /// A baseline exists, but it has limited evidence or substantial variation.
    Low,
    /// The baseline has a useful amount of stable evidence.
    Medium,
    /// The baseline has substantial stable evidence.
    High,
}

/// Describes why a task entered the stopped state.
#[derive(Clone, Copy, Debug, PartialEq, Eq, Structural)]
pub enum StopReason {
    /// The task was stopped through a heartbeat handle.
    Explicit,
    /// The last heartbeat handle of the task was released.
    LastHandleDropped,
}

/// The stable part of a task's health, without the changing durations.
#[derive(Clone, Copy, Debug, PartialEq, Eq, Structural, Hash)]
pub enum HealthState {
    Starting,
    Learning,
    Healthy,
    Late,
    Stopped,
}

/// Current health of a monitored task.
#[derive(Clone, Copy, Debug, PartialEq, Eq, Structural)]
pub enum Health {
    /// No heartbeat yet, and the startup grace has not run out.
    Starting { elapsed: Duration, startup_grace: Duration },
    /// A learned task that has not yet established its baseline.
    Learning {
        samples: u32,
        required: u32,
        silent_for: Duration,
        estimated_interval: Option<Duration>,
    },
    /// The silence since the last heartbeat is within the deadline.
    Healthy { silent_for: Duration, deadline: Duration },
    /// The silence has run past the deadline.
    Late { silent_for: Duration, deadline: Duration, overdue_by: Duration, missed_intervals: u64 },
    /// The task has stopped.
    Stopped { stopped_for: Duration, reason: StopReason },
}

impl Health {
    /// The stable state behind this health value.
    pub open spec fn stable_state(self) -> HealthState {
        match self {
            Health::Starting { .. } => HealthState::Starting,
            Health::Learning { .. } => HealthState::Learning,
            Health::Healthy { .. } => HealthState::Healthy,
            Health::Late { .. } => HealthState::Late,
            Health::Stopped { .. } => HealthState::Stopped,
        }
    }

    /// Returns the stable state behind this health value.
    pub fn state(&self) -> (s: HealthState)
        ensures
            s == self.stable_state(),
    {
        match self {
            Health::Starting { .. } => HealthState::Starting,
            Health::Learning { .. } => HealthState::Learning,
            Health::Healthy { .. } => HealthState::Healthy,
            Health::Late { .. } => HealthState::Late,
            Health::Stopped { .. } => HealthState::Stopped,
        }
    }
}

/// Current public view of a task's timing policy.
#[derive(Clone, Debug, PartialEq, Eq)]
pub enum TimingStatus {
    /// A caller-chosen interval and grace period.
    Fixed { interval: Duration, grace: Duration },
    /// A single-interval model still collecting samples.
    Learning {
        model: LearningModel,
        samples: u32,
        rejected_samples: u32,
        required: u32,
        estimated_interval: Option<Duration>,
        estimated_deviation: Option<Duration>,
        confidence: Confidence,
    },
    /// A trained single-interval model.
    Learned {
        model: LearningModel,
        samples: u32,
        rejected_samples: u32,
        interval: Duration,
        deviation: Duration,
        deadline: Duration,
        adaptation: Adaptation,
        confidence: Confidence,
    },
    /// A repeating-pattern model still searching for a cycle.
    PatternLearning {
        config: PatternConfig,
        samples: u32,
        rejected_samples: u32,
        minimum_samples: u32,
        candidate_period: Option<u8>,
        confidence: Confidence,
    },
    /// A repeating-pattern model that has established a cycle.
    PatternLearned {
        config: PatternConfig,
        samples: u32,
        rejected_samples: u32,
        period: u8,
        next_phase: u8,
        intervals: Vec<Duration>,
        deviations: Vec<Duration>,
        expected_interval: Duration,
        deadline: Duration,
        adaptation: Adaptation,
        confidence: Confidence,
    },
}

/// Compact snapshot of one monitored task.
#[derive(Clone, Debug, PartialEq, Eq)]
pub struct TaskStatus {
    pub id: TaskId,
    pub name: String,
    pub health: Health,
    pub timing: TimingStatus,
    pub heartbeat_count: u64,
}

} // verus!
