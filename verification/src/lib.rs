//! A lightweight heartbeat-based task liveness monitor.
//!
//! Tasks report progress with heartbeats; the monitor classifies each task as
//! `Starting`, `Learning`, `Healthy`, `Late` or `Stopped`, keeps stopped
//! records until they are purged, reports state changes through independent
//! transition cursors and folds task states into policy-driven verdicts.

mod classification;
mod clock;
mod config;
mod errors;
mod learning;
mod monitor;
mod report;
mod samples;
mod status;
mod time;
mod transitions;

pub use classification::{classify_health, interval_count};
pub use config::{
    Adaptation, FixedTiming, LearnedTiming, LearningModel, PatternConfig, TaskConfig, Timing,
};
pub use errors::{ConfigError, RegisterError, RetrainError, StoppedError};
pub use learning::{
    interval_confidence, pattern_confidence, LearnedEstimate, LearningBook, ObservationStep,
    PatternPhase,
};
pub use monitor::{Heartbeat, Monitor};
pub use report::{
    HealthCounts, HealthImpact, HealthPolicy, HealthReport, HealthSummary, HealthVerdict,
};
pub use samples::{absolute_deviations, middle_pair, sorted_samples, SampleRing};
pub use status::{Confidence, Health, HealthState, StopReason, TaskId, TaskStatus, TimingStatus};
pub use transitions::{HealthTransition, TransitionCursor};
pub use time::{tick_duration, tick_from_elapsed_micros, Duration};
