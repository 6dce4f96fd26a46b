use beatwise::{
    ConfigError, Duration, FixedTiming, Health, LearnedTiming, LearningModel, Monitor,
    PatternConfig, RegisterError, RetrainError, StopReason, TaskConfig, Timing,
};

#[test]
fn fixed_timing_becomes_healthy_then_late() {
    let mut monitor = Monitor::new();
    let heartbeat = monitor
        .register(TaskConfig::new(
            "fixed-worker",
            Timing::Fixed(
                FixedTiming::new(Duration::from_millis(10)).with_grace(Duration::from_millis(2)),
            ),
        ))
        .expect("valid fixed registration");

    let start = monitor.created_tick(heartbeat.id()).expect("task retained");
    heartbeat
        .beat_at(&mut monitor, start + 1_000)
        .expect("first heartbeat accepted");

    let healthy = monitor
        .status_at(heartbeat.id(), start + 11_000)
        .expect("status exists");
    assert!(matches!(healthy.health, Health::Healthy { .. }));

    let late = monitor
        .status_at(heartbeat.id(), start + 14_000)
        .expect("status exists");
    assert!(matches!(late.health, Health::Late { .. }));
}

#[test]
fn final_handle_drop_preserves_stopped_record() {
    let mut monitor = Monitor::new();
    let heartbeat = monitor
        .register(TaskConfig::new(
            "drop-test",
            Timing::fixed(Duration::from_secs(1)),
        ))
        .expect("valid registration");
    let id = heartbeat.id();
    let clone = heartbeat.duplicate(&mut monitor);

    heartbeat.release(&mut monitor);
    let still_running = monitor.status(id).expect("record retained");
    assert!(!matches!(still_running.health, Health::Stopped { .. }));

    clone.release(&mut monitor);
    let stopped = monitor.status(id).expect("stopped record retained");
    assert!(matches!(
        stopped.health,
        Health::Stopped {
            reason: StopReason::LastHandleDropped,
            ..
        }
    ));
}

#[test]
fn stopped_records_are_removed_only_by_explicit_purge() {
    let mut monitor = Monitor::new();
    let heartbeat = monitor
        .register(TaskConfig::new(
            "purge-test",
            Timing::fixed(Duration::from_secs(1)),
        ))
        .expect("valid registration");
    let id = heartbeat.id();

    heartbeat.stop(&mut monitor);
    assert!(monitor.status(id).is_some());
    assert_eq!(monitor.purge_stopped(), 1);
    assert!(monitor.status(id).is_none());
}

#[test]
fn invalid_learning_configuration_is_rejected() {
    let mut monitor = Monitor::new();
    let learned = LearnedTiming::default().with_minimum_samples(1);
    let error = monitor
        .register(TaskConfig::new("invalid", Timing::Learned(learned)))
        .err()
        .expect("registration must fail");

    assert_eq!(
        error,
        RegisterError::InvalidConfig(ConfigError::TooFewLearningSamples)
    );
}

#[test]
fn fixed_timing_cannot_be_retrained() {
    let mut monitor = Monitor::new();
    let heartbeat = monitor
        .register(TaskConfig::new(
            "fixed-retrain",
            Timing::fixed(Duration::from_secs(1)),
        ))
        .expect("valid registration");

    assert_eq!(
        monitor.retrain(heartbeat.id()),
        Err(RetrainError::FixedTiming)
    );
}

#[test]
fn invalid_robust_window_capacity_is_rejected() {
    let mut monitor = Monitor::new();
    let learned = LearnedTiming::default().with_model(LearningModel::robust_window(4));
    let error = monitor
        .register(TaskConfig::new("invalid-window", Timing::Learned(learned)))
        .err()
        .expect("registration must fail");

    assert_eq!(
        error,
        RegisterError::InvalidConfig(ConfigError::InvalidRobustWindowCapacity)
    );
}

#[test]
fn invalid_pattern_configuration_is_rejected() {
    let mut monitor = Monitor::new();
    let learned = LearnedTiming::default()
        .with_model(LearningModel::RepeatingPattern(PatternConfig::new(1, 3)));
    let error = monitor
        .register(TaskConfig::new("invalid-pattern", Timing::Learned(learned)))
        .err()
        .expect("registration must fail");

    assert_eq!(
        error,
        RegisterError::InvalidConfig(ConfigError::InvalidPatternMaximumPeriod)
    );
}
