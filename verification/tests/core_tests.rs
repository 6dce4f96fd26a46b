use beatwise::{
    absolute_deviations, classify_health, interval_confidence, interval_count, middle_pair,
    pattern_confidence, sorted_samples, tick_duration, tick_from_elapsed_micros, Adaptation,
    Confidence, ConfigError, Duration, FixedTiming, Health, HealthImpact, HealthPolicy,
    HealthState, HealthVerdict, LearnedEstimate, LearnedTiming, LearningBook, LearningModel,
    Monitor, ObservationStep, PatternConfig, PatternPhase, RegisterError, RetrainError, SampleRing,
    StopReason, StoppedError, TaskConfig, Timing, TimingStatus,
};

fn learned_config(minimum_samples: u32) -> LearnedTiming {
    LearnedTiming::default()
        .with_minimum_samples(minimum_samples)
        .with_startup_grace(Duration::from_secs(1))
        .with_minimum_grace(Duration::from_micros(100))
}

fn register_error(config: TaskConfig) -> RegisterError {
    let mut monitor = Monitor::new();
    monitor.register(config).err().expect("registration must fail")
}

#[test]
fn durations_convert_between_units() {
    assert_eq!(Duration::from_millis(1), Duration::from_micros(1_000));
    assert_eq!(Duration::from_secs(2).as_nanos(), 2_000_000_000);
    assert_eq!(Duration::from_nanos(1_999).as_micros(), 1);
    let span = Duration::from_secs_nanos(3, 250);
    assert_eq!(span.as_secs(), 3);
    assert_eq!(span.subsec_nanos(), 250);
    assert!(Duration::zero().is_zero());
}

#[test]
fn durations_saturate_instead_of_overflowing() {
    let largest = Duration::from_secs_nanos(u64::MAX, 999_999_999);
    assert_eq!(largest.saturating_add(Duration::from_nanos(1)), largest);
    assert_eq!(
        Duration::from_millis(1).saturating_sub(Duration::from_millis(2)),
        Duration::zero()
    );
    assert_eq!(
        Duration::from_millis(3).saturating_sub(Duration::from_millis(1)),
        Duration::from_millis(2)
    );
}

#[test]
fn tick_spans_count_microseconds_forward_only() {
    assert_eq!(tick_duration(5, 3), Duration::from_micros(2));
    assert_eq!(tick_duration(3, 5), Duration::zero());
}

#[test]
fn interval_count_counts_whole_intervals() {
    assert_eq!(
        interval_count(Duration::from_millis(25), Duration::from_millis(10)),
        2
    );
    assert_eq!(interval_count(Duration::from_millis(25), Duration::zero()), 0);
}

#[test]
fn classification_reports_overrun_and_missed_intervals() {
    let healthy = classify_health(
        Duration::from_millis(12),
        Duration::from_millis(12),
        Duration::from_millis(10),
    );
    assert_eq!(
        healthy,
        Health::Healthy {
            silent_for: Duration::from_millis(12),
            deadline: Duration::from_millis(12),
        }
    );

    let late = classify_health(
        Duration::from_millis(35),
        Duration::from_millis(12),
        Duration::from_millis(10),
    );
    assert_eq!(
        late,
        Health::Late {
            silent_for: Duration::from_millis(35),
            deadline: Duration::from_millis(12),
            overdue_by: Duration::from_millis(23),
            missed_intervals: 3,
        }
    );
}

#[test]
fn every_configuration_error_is_reported() {
    let fixed = Timing::fixed(Duration::from_secs(1));
    assert_eq!(
        register_error(TaskConfig::new(" \t\n", fixed)),
        RegisterError::InvalidConfig(ConfigError::EmptyName)
    );
    assert_eq!(
        register_error(TaskConfig::new("zero", Timing::fixed(Duration::zero()))),
        RegisterError::InvalidConfig(ConfigError::ZeroInterval)
    );
    assert_eq!(
        register_error(TaskConfig::new("grace", fixed).with_startup_grace(Duration::zero())),
        RegisterError::InvalidConfig(ConfigError::ZeroStartupGrace)
    );
    let learned = LearnedTiming::default();
    assert_eq!(
        register_error(TaskConfig::new(
            "startup",
            Timing::Learned(learned.with_startup_grace(Duration::zero())),
        )),
        RegisterError::InvalidConfig(ConfigError::ZeroStartupGrace)
    );
    assert_eq!(
        register_error(TaskConfig::new(
            "samples",
            Timing::Learned(learned.with_minimum_samples(1)),
        )),
        RegisterError::InvalidConfig(ConfigError::TooFewLearningSamples)
    );
    for sensitivity in [0.0_f64, -1.0, f64::INFINITY, f64::NAN] {
        assert_eq!(
            register_error(TaskConfig::new(
                "sensitivity",
                Timing::Learned(learned.with_sensitivity_bits(sensitivity.to_bits())),
            )),
            RegisterError::InvalidConfig(ConfigError::InvalidSensitivity)
        );
    }
    for capacity in [3, 4, 33] {
        assert_eq!(
            register_error(TaskConfig::new(
                "window",
                Timing::Learned(learned.with_model(LearningModel::robust_window(capacity))),
            )),
            RegisterError::InvalidConfig(ConfigError::InvalidRobustWindowCapacity)
        );
    }
    let pattern = |config: PatternConfig| {
        register_error(TaskConfig::new(
            "pattern",
            Timing::Learned(learned.with_model(LearningModel::RepeatingPattern(config))),
        ))
    };
    assert_eq!(
        pattern(PatternConfig::new(9, 3)),
        RegisterError::InvalidConfig(ConfigError::InvalidPatternMaximumPeriod)
    );
    assert_eq!(
        pattern(PatternConfig::new(4, 2)),
        RegisterError::InvalidConfig(ConfigError::InvalidPatternMinimumCycles)
    );
    assert_eq!(
        pattern(PatternConfig::new(4, 3).with_tolerance_percent(51)),
        RegisterError::InvalidConfig(ConfigError::InvalidPatternTolerance)
    );
    assert_eq!(
        pattern(PatternConfig::new(4, 3).with_minimum_contrast_percent(0)),
        RegisterError::InvalidConfig(ConfigError::InvalidPatternContrast)
    );
}

#[test]
fn valid_configurations_are_accepted() {
    let mut monitor = Monitor::new();
    let learned = LearnedTiming::default();
    for model in [
        LearningModel::Ewma,
        LearningModel::robust_window(5),
        LearningModel::robust_window(31),
        LearningModel::repeating_pattern(8, 8),
    ] {
        assert!(monitor
            .register(TaskConfig::new("ok", Timing::Learned(learned.with_model(model))))
            .is_ok());
    }
    assert!(monitor
        .register(TaskConfig::new(" padded ", Timing::learned()))
        .is_ok());
    assert_eq!(monitor.len(), 5);
}

#[test]
fn identifiers_increase_and_are_not_reused_after_purge() {
    let mut monitor = Monitor::new();
    let first = monitor
        .register(TaskConfig::new("first", Timing::fixed(Duration::from_secs(1))))
        .expect("valid registration");
    let first_id = first.id();
    first.stop_at(&mut monitor, 10);
    assert_eq!(monitor.purge_stopped(), 1);
    assert!(monitor.is_empty());
    let second = monitor
        .register(TaskConfig::new("second", Timing::fixed(Duration::from_secs(1))))
        .expect("valid registration");
    assert!(second.id().get() > first_id.get());
}

#[test]
fn startup_grace_runs_out_into_late_before_the_first_beat() {
    let mut monitor = Monitor::new();
    let heartbeat = monitor
        .register_at(
            TaskConfig::new(
                "slow-start",
                Timing::Fixed(
                    FixedTiming::new(Duration::from_millis(10))
                        .with_grace(Duration::from_millis(5)),
                ),
            ),
            100,
        )
        .expect("valid registration");
    let starting = monitor.status_at(heartbeat.id(), 15_100).expect("retained");
    assert_eq!(
        starting.health,
        Health::Starting {
            elapsed: Duration::from_millis(15),
            startup_grace: Duration::from_millis(15),
        }
    );
    let late = monitor.status_at(heartbeat.id(), 20_100).expect("retained");
    assert_eq!(
        late.health,
        Health::Late {
            silent_for: Duration::from_millis(20),
            deadline: Duration::from_millis(15),
            overdue_by: Duration::from_millis(5),
            missed_intervals: 0,
        }
    );
}

#[test]
fn stopped_tasks_refuse_heartbeats_and_retraining() {
    let mut monitor = Monitor::new();
    let heartbeat = monitor
        .register_at(TaskConfig::new("learner", Timing::Learned(learned_config(3))), 1)
        .expect("valid registration");
    let id = heartbeat.id();
    let other = heartbeat.duplicate(&mut monitor);
    heartbeat.stop_at(&mut monitor, 50);
    assert_eq!(other.beat_at(&mut monitor, 60), Err(StoppedError));
    assert_eq!(monitor.retrain(id), Err(RetrainError::Stopped));
    let status = monitor.status_at(id, 80).expect("stopped record retained");
    assert_eq!(
        status.health,
        Health::Stopped {
            stopped_for: Duration::from_micros(30),
            reason: StopReason::Explicit,
        }
    );
    assert_eq!(monitor.purge_stopped(), 1);
    assert_eq!(other.beat_at(&mut monitor, 90), Err(StoppedError));
    assert_eq!(monitor.retrain(id), Err(RetrainError::UnknownTask));
}

#[test]
fn a_learned_beat_hands_the_interval_to_learning() {
    let mut monitor = Monitor::new();
    let learner = monitor
        .register_at(TaskConfig::new("learner", Timing::Learned(learned_config(3))), 1)
        .expect("valid registration");
    assert_eq!(learner.beat_at(&mut monitor, 1_000), Ok(None));
    assert_eq!(
        learner.beat_at(&mut monitor, 3_000),
        Ok(Some(Duration::from_micros(2_000)))
    );
    assert_eq!(learner.beat_at(&mut monitor, 3_000), Ok(None));

    let fixed = monitor
        .register_at(TaskConfig::new("fixed", Timing::fixed(Duration::from_secs(1))), 1)
        .expect("valid registration");
    assert_eq!(fixed.beat_at(&mut monitor, 1_000), Ok(None));
    assert_eq!(fixed.beat_at(&mut monitor, 2_000), Ok(None));
    assert_eq!(
        monitor.status_at(fixed.id(), 2_000).expect("retained").heartbeat_count,
        2
    );
}

#[test]
fn a_recorded_estimate_decides_learned_health() {
    let mut monitor = Monitor::new();
    let config = learned_config(3);
    let heartbeat = monitor
        .register_at(TaskConfig::new("learner", Timing::Learned(config)), 1)
        .expect("valid registration");
    let id = heartbeat.id();
    heartbeat.beat_at(&mut monitor, 1_000).expect("accepted");

    let learning = monitor.status_at(id, 1_500).expect("retained");
    assert_eq!(learning.health.state(), HealthState::Learning);

    let trained = LearnedEstimate::Trained {
        samples: 3,
        rejected_samples: 0,
        interval: Duration::from_millis(1),
        deviation: Duration::zero(),
        deadline: Duration::from_micros(1_100),
        confidence: Confidence::Low,
    };
    assert!(monitor.record_estimate(id, trained));
    let healthy = monitor.status_at(id, 2_100).expect("retained");
    assert_eq!(healthy.health.state(), HealthState::Healthy);
    assert!(matches!(
        healthy.timing,
        TimingStatus::Learned { interval, adaptation: Adaptation::Slow, .. }
            if interval == Duration::from_millis(1)
    ));
    let late = monitor.status_at(id, 4_000).expect("retained");
    assert_eq!(
        late.health,
        Health::Late {
            silent_for: Duration::from_millis(3),
            deadline: Duration::from_micros(1_100),
            overdue_by: Duration::from_micros(1_900),
            missed_intervals: 3,
        }
    );

    assert_eq!(monitor.retrain(id), Ok(true));
    assert!(matches!(
        monitor.status_at(id, 2_100).expect("retained").timing,
        TimingStatus::Learning { samples: 0, .. }
    ));
}

#[test]
fn mismatched_estimates_are_refused() {
    let mut monitor = Monitor::new();
    let fixed = monitor
        .register_at(TaskConfig::new("fixed", Timing::fixed(Duration::from_secs(1))), 1)
        .expect("valid registration");
    let pattern = monitor
        .register_at(
            TaskConfig::new(
                "pattern",
                Timing::Learned(learned_config(9).with_model(LearningModel::repeating_pattern(4, 3))),
            ),
            1,
        )
        .expect("valid registration");
    let single = LearnedEstimate::Training {
        samples: 1,
        rejected_samples: 0,
        estimated_interval: None,
        estimated_deviation: None,
        provisional_deadline: None,
        confidence: Confidence::Insufficient,
    };
    assert!(!monitor.record_estimate(fixed.id(), single.clone()));
    assert!(!monitor.record_estimate(pattern.id(), single));
    let searching = LearnedEstimate::PatternSearching {
        samples: 4,
        rejected_samples: 0,
        candidate_period: Some(2),
        confidence: Confidence::Insufficient,
    };
    assert!(monitor.record_estimate(pattern.id(), searching));
    assert!(matches!(
        monitor.status_at(pattern.id(), 5).expect("retained").timing,
        TimingStatus::PatternLearning { candidate_period: Some(2), minimum_samples: 9, .. }
    ));
}

#[test]
fn untrained_tasks_become_late_past_their_provisional_deadline() {
    let mut monitor = Monitor::new();
    let heartbeat = monitor
        .register_at(TaskConfig::new("learner", Timing::Learned(learned_config(5))), 1)
        .expect("valid registration");
    let id = heartbeat.id();
    heartbeat.beat_at(&mut monitor, 1_000).expect("accepted");
    let estimate = LearnedEstimate::Training {
        samples: 1,
        rejected_samples: 0,
        estimated_interval: Some(Duration::from_millis(1)),
        estimated_deviation: Some(Duration::zero()),
        provisional_deadline: Some(Duration::from_micros(1_100)),
        confidence: Confidence::Insufficient,
    };
    assert!(monitor.record_estimate(id, estimate));
    assert_eq!(
        monitor.status_at(id, 2_000).expect("retained").health,
        Health::Learning {
            samples: 1,
            required: 5,
            silent_for: Duration::from_millis(1),
            estimated_interval: Some(Duration::from_millis(1)),
        }
    );
    assert_eq!(
        monitor.status_at(id, 3_500).expect("retained").health,
        Health::Late {
            silent_for: Duration::from_micros(2_500),
            deadline: Duration::from_micros(1_100),
            overdue_by: Duration::from_micros(1_400),
            missed_intervals: 2,
        }
    );
}

#[test]
fn the_last_released_handle_stops_the_task() {
    let mut monitor = Monitor::new();
    let first = monitor
        .register_at(TaskConfig::new("handles", Timing::fixed(Duration::from_secs(1))), 1)
        .expect("valid registration");
    let id = first.id();
    let second = first.duplicate(&mut monitor);
    let third = second.duplicate(&mut monitor);
    first.release_at(&mut monitor, 10);
    second.release_at(&mut monitor, 20);
    assert_ne!(
        monitor.status_at(id, 25).expect("retained").health.state(),
        HealthState::Stopped
    );
    third.release_at(&mut monitor, 30);
    assert_eq!(
        monitor.status_at(id, 40).expect("retained").health,
        Health::Stopped {
            stopped_for: Duration::from_micros(10),
            reason: StopReason::LastHandleDropped,
        }
    );
}

#[test]
fn policies_map_states_to_impacts() {
    let readiness = HealthPolicy::readiness();
    assert_eq!(readiness.impact(HealthState::Starting), HealthImpact::Degraded);
    assert_eq!(readiness.impact(HealthState::Stopped), HealthImpact::Unhealthy);
    let liveness = HealthPolicy::liveness();
    assert_eq!(liveness.impact(HealthState::Learning), HealthImpact::Nominal);
    assert_eq!(liveness.impact(HealthState::Stopped), HealthImpact::Ignore);
    let strict = HealthPolicy::strict();
    assert_eq!(strict.impact(HealthState::Starting), HealthImpact::Unhealthy);
    assert_eq!(strict.impact(HealthState::Healthy), HealthImpact::Nominal);
    assert_eq!(HealthPolicy::default(), readiness);

    let custom = strict.with_impact(HealthState::Stopped, HealthImpact::Ignore);
    assert_eq!(custom.impact(HealthState::Stopped), HealthImpact::Ignore);
    assert_eq!(custom.impact(HealthState::Late), HealthImpact::Unhealthy);
    assert!(HealthVerdict::Nominal.is_nominal());
    assert!(!HealthVerdict::Empty.is_nominal());
}

#[test]
fn considered_and_ignored_tasks_add_up_to_all_tasks() {
    let mut monitor = Monitor::new();
    for index in 0..4_u64 {
        let heartbeat = monitor
            .register_at(
                TaskConfig::new("worker", Timing::fixed(Duration::from_millis(10))),
                1,
            )
            .expect("valid registration");
        if index % 2 == 0 {
            heartbeat.stop_at(&mut monitor, 5);
        }
    }
    let summary = monitor.summary_at(HealthPolicy::liveness(), 100);
    assert_eq!(summary.counts.stopped, 2);
    assert_eq!(summary.counts.starting, 2);
    assert_eq!(summary.considered_tasks, 2);
    assert_eq!(summary.ignored_tasks, 2);
    assert_eq!(summary.considered_tasks + summary.ignored_tasks, summary.counts.total());
    assert_eq!(summary.verdict, HealthVerdict::Nominal);
    assert_eq!(summary.observed_after, Duration::from_micros(99));
}

#[test]
fn a_second_poll_with_nothing_changed_reports_nothing() {
    let mut monitor = Monitor::new();
    for _ in 0..3 {
        monitor
            .register_at(TaskConfig::new("worker", Timing::fixed(Duration::from_secs(1))), 1)
            .expect("valid registration");
    }
    let mut cursor = monitor.transition_cursor();
    let first = cursor.poll_at(&monitor, 10);
    assert_eq!(
        first.iter().map(|t| t.sequence).collect::<Vec<_>>(),
        vec![1, 2, 3]
    );
    assert!(first.iter().all(|t| t.previous.is_none()));
    assert_eq!(first[0].observed_after, Duration::from_micros(9));
    assert!(cursor.poll_at(&monitor, 10).is_empty());
    assert!(cursor.poll_task_at(&monitor, first[1].status.id, 10).is_none());
}

#[test]
fn unknown_tasks_are_forgotten_by_a_single_poll() {
    let mut monitor = Monitor::new();
    let heartbeat = monitor
        .register_at(TaskConfig::new("worker", Timing::fixed(Duration::from_secs(1))), 1)
        .expect("valid registration");
    let id = heartbeat.id();
    let mut cursor = monitor.transition_cursor();
    assert!(cursor.poll_task_at(&monitor, id, 5).is_some());
    assert_eq!(cursor.tracked_len(), 1);
    heartbeat.stop_at(&mut monitor, 6);
    let stopped = cursor.poll_task_at(&monitor, id, 7).expect("stop reported");
    assert_eq!(stopped.sequence, 2);
    assert_eq!(stopped.current, HealthState::Stopped);
    monitor.purge_stopped();
    assert!(cursor.poll_task_at(&monitor, id, 8).is_none());
    assert!(cursor.is_empty());
}

#[test]
fn the_learning_book_skips_rejects_and_trains() {
    let config = learned_config(3).with_adaptation(Adaptation::FrozenAfterTraining);
    let mut book = LearningBook::new();
    book.reset_for_retraining(true);
    assert_eq!(book.observe(1_000, true, config), ObservationStep::Skipped);
    assert_eq!(book.observe(0, true, config), ObservationStep::Ignored);
    for accepted_before in 0..3 {
        assert_eq!(
            book.observe(1_000, true, config),
            ObservationStep::Update { was_trained: false, accepted_before }
        );
    }
    assert!(book.trained);
    assert_eq!(book.observe(1_000, true, config), ObservationStep::Counted);
    assert_eq!(book.observe(9_000, false, config), ObservationStep::Rejected);
    assert_eq!(book.accepted_samples, 4);
    assert_eq!(book.rejected_samples, 1);

    let pattern = config.with_model(LearningModel::repeating_pattern(4, 3));
    let mut pattern_book = LearningBook::new();
    assert_eq!(pattern_book.observe(1_000, false, pattern), ObservationStep::Pattern);
    pattern_book.finish_pattern(false, true);
    assert_eq!(pattern_book.rejected_samples, 1);
    assert!(pattern_book.trained);
}

#[test]
fn robust_windows_update_on_every_stride() {
    let config = learned_config(2)
        .with_adaptation(Adaptation::Slow)
        .with_model(LearningModel::robust_window(5));
    let mut book = LearningBook::new();
    book.observe(1_000, true, config);
    book.observe(1_000, true, config);
    assert!(book.trained);
    let steps: Vec<_> = (0..5).map(|_| book.observe(1_000, true, config)).collect();
    assert_eq!(
        steps,
        vec![
            ObservationStep::Update { was_trained: true, accepted_before: 2 },
            ObservationStep::Counted,
            ObservationStep::Counted,
            ObservationStep::Counted,
            ObservationStep::Update { was_trained: true, accepted_before: 6 },
        ]
    );
    assert_eq!(Adaptation::Continuous.robust_update_stride(), Some(1));
    assert_eq!(Adaptation::FrozenAfterTraining.robust_update_stride(), None);
}

#[test]
fn sample_rings_keep_the_most_recent_samples() {
    let mut ring = SampleRing::new(3);
    for sample in [10, 20, 30, 40, 50] {
        ring.push(sample);
    }
    assert_eq!(ring.samples(), vec![30, 40, 50]);
    assert_eq!(ring.len(), 3);
    assert_eq!(ring.pushed(), 5);
    assert_eq!(ring.logical_value(0), 30);
    assert_eq!(ring.capacity(), 3);
}

#[test]
fn phase_samples_follow_the_global_position() {
    let mut ring = SampleRing::new(64);
    for sample in [1, 2, 8, 1, 2, 8, 1, 2, 8, 1] {
        ring.push(sample);
    }
    assert_eq!(ring.phase_samples(3, 0), vec![1, 1, 1]);
    assert_eq!(ring.phase_samples(3, 1), vec![2, 2, 2]);
    assert_eq!(ring.phase_samples(3, 2), vec![8, 8, 8]);
}

#[test]
fn medians_come_from_the_sorted_middle() {
    let sorted = sorted_samples(&vec![9, 1, 5, 3]);
    assert_eq!(sorted, vec![1, 3, 5, 9]);
    assert_eq!(middle_pair(&sorted), (3, 5));
    assert_eq!(middle_pair(&vec![1, 2, 3]), (2, 2));
    assert_eq!(absolute_deviations(&vec![1, 5, 9], 5), vec![4, 0, 4]);
}

#[test]
fn the_clock_starts_at_one_and_never_runs_backwards() {
    let monitor = Monitor::new();
    let first = monitor.now_tick();
    let second = monitor.now_tick();
    assert!(first >= 1);
    assert!(second >= first);
}

#[test]
fn interval_confidence_needs_samples_stability_and_few_rejections() {
    assert_eq!(
        interval_confidence(false, 100, 0, 4, true, true),
        Confidence::Insufficient
    );
    assert_eq!(interval_confidence(true, 16, 0, 4, true, true), Confidence::High);
    assert_eq!(interval_confidence(true, 15, 0, 4, true, true), Confidence::Medium);
    assert_eq!(interval_confidence(true, 16, 0, 4, false, true), Confidence::Medium);
    assert_eq!(interval_confidence(true, 7, 0, 4, true, true), Confidence::Low);
    assert_eq!(interval_confidence(true, 16, 0, 4, false, false), Confidence::Low);
    // 2 rejected out of 20 judged is exactly 10%: still high.
    assert_eq!(interval_confidence(true, 18, 2, 4, true, true), Confidence::High);
    // 3 out of 21 is above 10% but within 20%.
    assert_eq!(interval_confidence(true, 18, 3, 4, true, true), Confidence::Medium);
    // 5 out of 20 is above 20%.
    assert_eq!(interval_confidence(true, 15, 5, 4, true, true), Confidence::Low);
    // The sample thresholds saturate instead of overflowing.
    assert_eq!(
        interval_confidence(true, u32::MAX, 0, u32::MAX, true, true),
        Confidence::High
    );
}

#[test]
fn pattern_confidence_counts_whole_cycles() {
    assert_eq!(
        pattern_confidence(false, 90, 0, 3, 3, true, true),
        Confidence::Insufficient
    );
    // 27 samples of a period of 3 are 9 cycles: three times the minimum of 3.
    assert_eq!(pattern_confidence(true, 27, 0, 3, 3, true, true), Confidence::High);
    assert_eq!(pattern_confidence(true, 26, 0, 3, 3, true, true), Confidence::Medium);
    assert_eq!(pattern_confidence(true, 27, 0, 3, 3, false, true), Confidence::Medium);
    assert_eq!(pattern_confidence(true, 17, 0, 3, 3, true, true), Confidence::Low);
    assert_eq!(pattern_confidence(true, 27, 0, 3, 3, false, false), Confidence::Low);
    assert_eq!(pattern_confidence(true, 27, 4, 3, 3, true, true), Confidence::Medium);
    // A period of zero counts every sample as a cycle.
    assert_eq!(pattern_confidence(true, 9, 0, 0, 3, true, true), Confidence::High);
}

#[test]
fn more_evidence_never_lowers_confidence() {
    let mut previous = interval_confidence(true, 0, 1, 4, true, true);
    for accepted in 1..40u32 {
        let current = interval_confidence(true, accepted, 1, 4, true, true);
        assert!(rank(current) >= rank(previous));
        previous = current;
    }
}

fn rank(confidence: Confidence) -> u8 {
    match confidence {
        Confidence::Insufficient => 0,
        Confidence::Low => 1,
        Confidence::Medium => 2,
        Confidence::High => 3,
    }
}

#[test]
fn errors_describe_themselves() {
    assert_eq!(ConfigError::EmptyName.message(), "task name cannot be empty");
    assert_eq!(
        ConfigError::InvalidRobustWindowCapacity.message(),
        "robust learning window capacity must be an odd number from 5 through 31"
    );
    assert_eq!(
        RegisterError::InvalidConfig(ConfigError::ZeroInterval).message(),
        "invalid task configuration: fixed interval cannot be zero"
    );
    assert_eq!(RegisterError::IdSpaceExhausted.message(), "task ID space exhausted");
    assert_eq!(RetrainError::FixedTiming.message(), "fixed timing cannot be retrained");
    assert_eq!(StoppedError.message(), "task has stopped");
}

#[test]
fn retraining_skips_the_next_interval_only_after_a_beat() {
    let mut monitor = Monitor::new();
    let heartbeat = monitor
        .register_at(TaskConfig::new("learner", Timing::Learned(learned_config(3))), 1)
        .expect("valid registration");
    assert_eq!(monitor.retrain(heartbeat.id()), Ok(false));
    heartbeat.beat_at(&mut monitor, 500).expect("accepted");
    assert_eq!(monitor.retrain(heartbeat.id()), Ok(true));
}

#[test]
fn pattern_phases_follow_the_global_position() {
    let mut phase = PatternPhase::new();
    assert!(!phase.is_established());
    assert_eq!((phase.period(), phase.next_phase()), (0, 0));

    phase.establish(3, 10);
    assert!(phase.is_established());
    assert_eq!((phase.period(), phase.next_phase()), (3, 1));
    assert_eq!(phase.advance(), 1);
    assert_eq!(phase.advance(), 2);
    assert_eq!(phase.advance(), 0);
    assert_eq!(phase.next_phase(), 1);
}

#[test]
fn a_ring_holds_cycles_once_enough_samples_arrived() {
    let mut ring = SampleRing::new(8);
    for sample in 1..=5u64 {
        ring.push(sample);
    }
    // Two cycles of two phases need four samples, but six were required.
    assert!(!ring.holds_cycles(2, 2, 6));
    assert!(ring.holds_cycles(2, 2, 5));
    // Three cycles of two phases need six samples.
    assert!(!ring.holds_cycles(2, 3, 0));
    for sample in 6..=12u64 {
        ring.push(sample);
    }
    // Twelve were pushed but only eight are retained.
    assert!(ring.holds_cycles(2, 4, 12));
    assert!(!ring.holds_cycles(3, 3, 0));
}

#[test]
fn ticks_start_at_one_and_stop_at_the_largest_value() {
    assert_eq!(tick_from_elapsed_micros(0), 1);
    assert_eq!(tick_from_elapsed_micros(41), 42);
    assert_eq!(tick_from_elapsed_micros(u128::from(u64::MAX - 2)), u64::MAX - 1);
    assert_eq!(tick_from_elapsed_micros(u128::from(u64::MAX - 1)), u64::MAX);
    assert_eq!(tick_from_elapsed_micros(u128::MAX), u64::MAX);
}

#[test]
fn a_learned_task_begins_in_learning_until_its_startup_grace_runs_out() {
    let mut monitor = Monitor::new();
    let heartbeat = monitor
        .register_at(TaskConfig::new("learner", Timing::Learned(learned_config(3))), 1)
        .expect("valid registration");
    assert_eq!(
        monitor.status_at(heartbeat.id(), 1).expect("retained").health,
        Health::Learning {
            samples: 0,
            required: 3,
            silent_for: Duration::zero(),
            estimated_interval: None,
        }
    );
    assert_eq!(
        monitor.status_at(heartbeat.id(), 1_000_001).expect("retained").health,
        Health::Learning {
            samples: 0,
            required: 3,
            silent_for: Duration::from_secs(1),
            estimated_interval: None,
        }
    );
    assert_eq!(
        monitor.status_at(heartbeat.id(), 1_500_001).expect("retained").health,
        Health::Late {
            silent_for: Duration::from_millis(1_500),
            deadline: Duration::from_secs(1),
            overdue_by: Duration::from_millis(500),
            missed_intervals: 0,
        }
    );
}

#[test]
fn the_clock_never_reads_before_a_recorded_tick() {
    let mut monitor = Monitor::new();
    let heartbeat = monitor
        .register_at(TaskConfig::new("ahead", Timing::fixed(Duration::from_secs(1))), 1)
        .expect("valid registration");
    heartbeat.beat_at(&mut monitor, 5_000_000_000).expect("accepted");
    assert!(monitor.now_tick() >= 5_000_000_000);
    assert_eq!(monitor.last_tick(heartbeat.id()), Some(5_000_000_000));
}

#[test]
fn a_frozen_trained_model_only_counts_or_rejects() {
    let config = learned_config(2).with_adaptation(Adaptation::FrozenAfterTraining);
    let mut book = LearningBook::new();
    assert!(matches!(book.observe(1_000, true, config), ObservationStep::Update { .. }));
    assert!(matches!(book.observe(1_000, true, config), ObservationStep::Update { .. }));
    assert!(book.trained);
    assert_eq!(book.observe(1_000, true, config), ObservationStep::Counted);
    assert_eq!(book.observe(9_000, false, config), ObservationStep::Rejected);
    assert!(book.trained);
    assert_eq!((book.accepted_samples, book.rejected_samples), (3, 1));
}
