use beatwise::{
    Duration, HealthImpact, HealthPolicy, HealthState, HealthVerdict, LearnedTiming, Monitor,
    StopReason, TaskConfig, Timing,
};

#[test]
fn empty_monitor_has_an_empty_summary() {
    let monitor = Monitor::new();
    let summary = monitor.summary_at(HealthPolicy::readiness(), 1);

    assert_eq!(summary.observed_after, Duration::zero());
    assert_eq!(summary.verdict, HealthVerdict::Empty);
    assert_eq!(summary.counts.total(), 0);
    assert_eq!(summary.considered_tasks, 0);
    assert_eq!(summary.ignored_tasks, 0);
    assert!(!summary.is_nominal());
}

#[test]
fn summary_counts_every_stable_health_state() {
    let mut monitor = Monitor::new();

    let starting = monitor
        .register(TaskConfig::new(
            "starting",
            Timing::fixed(Duration::from_secs(1)),
        ))
        .expect("valid starting task");

    let learned = LearnedTiming::default()
        .with_minimum_samples(3)
        .with_startup_grace(Duration::from_secs(1))
        .with_minimum_grace(Duration::from_micros(100));
    let learning = monitor
        .register(TaskConfig::new("learning", Timing::Learned(learned)))
        .expect("valid learning task");

    let healthy = monitor
        .register(TaskConfig::new(
            "healthy",
            Timing::fixed(Duration::from_millis(100)),
        ))
        .expect("valid healthy task");

    let late = monitor
        .register(TaskConfig::new(
            "late",
            Timing::fixed(Duration::from_millis(5)),
        ))
        .expect("valid late task");

    let stopped = monitor
        .register(TaskConfig::new(
            "stopped",
            Timing::fixed(Duration::from_secs(1)),
        ))
        .expect("valid stopped task");

    let created = |monitor: &Monitor, id| monitor.created_tick(id).expect("task retained");
    let learning_start = created(&monitor, learning.id());
    let healthy_start = created(&monitor, healthy.id());
    let late_start = created(&monitor, late.id());
    let stopped_start = created(&monitor, stopped.id());

    learning
        .beat_at(&mut monitor, learning_start + 1_000)
        .expect("learning heartbeat accepted");
    healthy
        .beat_at(&mut monitor, healthy_start + 1_000)
        .expect("healthy heartbeat accepted");
    late.beat_at(&mut monitor, late_start + 1_000)
        .expect("late heartbeat accepted");
    stopped.mark_stopped_at(&mut monitor, StopReason::Explicit, stopped_start + 1_000);

    let now = [
        created(&monitor, starting.id()),
        learning_start,
        healthy_start,
        late_start,
        stopped_start,
    ]
    .into_iter()
    .max()
    .expect("task ticks exist")
        + 20_000;

    let summary = monitor.summary_at(HealthPolicy::readiness(), now);

    assert_eq!(summary.counts.starting, 1);
    assert_eq!(summary.counts.learning, 1);
    assert_eq!(summary.counts.healthy, 1);
    assert_eq!(summary.counts.late, 1);
    assert_eq!(summary.counts.stopped, 1);
    assert_eq!(summary.counts.total(), 5);
    assert_eq!(summary.considered_tasks, 5);
    assert_eq!(summary.ignored_tasks, 0);
    assert_eq!(summary.verdict, HealthVerdict::Unhealthy);
}

#[test]
fn readiness_moves_from_degraded_to_nominal_to_unhealthy() {
    let mut monitor = Monitor::new();
    let heartbeat = monitor
        .register(TaskConfig::new(
            "readiness-worker",
            Timing::fixed(Duration::from_millis(10)),
        ))
        .expect("valid registration");
    let start = monitor.created_tick(heartbeat.id()).expect("task retained");
    let policy = HealthPolicy::readiness();

    let starting = monitor.summary_at(policy, start);
    assert_eq!(starting.verdict, HealthVerdict::Degraded);

    heartbeat
        .beat_at(&mut monitor, start + 1_000)
        .expect("heartbeat accepted");
    let healthy = monitor.summary_at(policy, start + 2_000);
    assert_eq!(healthy.verdict, HealthVerdict::Nominal);
    assert!(healthy.is_nominal());

    let late = monitor.summary_at(policy, start + 20_000);
    assert_eq!(late.verdict, HealthVerdict::Unhealthy);
}

#[test]
fn liveness_ignores_stopped_tasks() {
    let mut monitor = Monitor::new();
    let stopped = monitor
        .register(TaskConfig::new(
            "completed-worker",
            Timing::fixed(Duration::from_secs(1)),
        ))
        .expect("valid stopped task");
    let stopped_start = monitor.created_tick(stopped.id()).expect("task retained");
    stopped.mark_stopped_at(&mut monitor, StopReason::Explicit, stopped_start + 1_000);

    let stopped_only = monitor.summary_at(HealthPolicy::liveness(), stopped_start + 2_000);
    assert_eq!(stopped_only.verdict, HealthVerdict::Empty);
    assert_eq!(stopped_only.considered_tasks, 0);
    assert_eq!(stopped_only.ignored_tasks, 1);

    let healthy = monitor
        .register(TaskConfig::new(
            "live-worker",
            Timing::fixed(Duration::from_millis(10)),
        ))
        .expect("valid healthy task");
    let healthy_start = monitor.created_tick(healthy.id()).expect("task retained");
    healthy
        .beat_at(&mut monitor, healthy_start + 1_000)
        .expect("heartbeat accepted");

    let mixed = monitor.summary_at(HealthPolicy::liveness(), healthy_start + 2_000);
    assert_eq!(mixed.verdict, HealthVerdict::Nominal);
    assert_eq!(mixed.considered_tasks, 1);
    assert_eq!(mixed.ignored_tasks, 1);
}

#[test]
fn strict_policy_rejects_a_learning_task() {
    let mut monitor = Monitor::new();
    let learned = LearnedTiming::default()
        .with_minimum_samples(3)
        .with_startup_grace(Duration::from_secs(1));
    let heartbeat = monitor
        .register(TaskConfig::new("strict-learner", Timing::Learned(learned)))
        .expect("valid learned task");
    let start = monitor.created_tick(heartbeat.id()).expect("task retained");
    heartbeat
        .beat_at(&mut monitor, start + 1_000)
        .expect("heartbeat accepted");

    let summary = monitor.summary_at(HealthPolicy::strict(), start + 2_000);
    assert_eq!(summary.counts.learning, 1);
    assert_eq!(summary.verdict, HealthVerdict::Unhealthy);
}

#[test]
fn custom_policy_can_degrade_instead_of_fail_a_late_task() {
    let mut monitor = Monitor::new();
    let heartbeat = monitor
        .register(TaskConfig::new(
            "custom-policy-worker",
            Timing::fixed(Duration::from_millis(5)),
        ))
        .expect("valid registration");
    let start = monitor.created_tick(heartbeat.id()).expect("task retained");
    heartbeat
        .beat_at(&mut monitor, start + 1_000)
        .expect("heartbeat accepted");

    let policy = HealthPolicy::liveness().with_impact(HealthState::Late, HealthImpact::Degraded);
    assert_eq!(policy.impact(HealthState::Late), HealthImpact::Degraded);

    let summary = monitor.summary_at(policy, start + 20_000);
    assert_eq!(summary.counts.late, 1);
    assert_eq!(summary.verdict, HealthVerdict::Degraded);
}

#[test]
fn report_orders_task_snapshots_and_matches_its_summary() {
    let mut monitor = Monitor::new();
    let first = monitor
        .register(TaskConfig::new(
            "first",
            Timing::fixed(Duration::from_secs(1)),
        ))
        .expect("valid first task");
    let second = monitor
        .register(TaskConfig::new(
            "second",
            Timing::fixed(Duration::from_secs(1)),
        ))
        .expect("valid second task");
    let third = monitor
        .register(TaskConfig::new(
            "third",
            Timing::fixed(Duration::from_secs(1)),
        ))
        .expect("valid third task");
    let now = monitor
        .created_tick(first.id())
        .expect("task retained")
        .max(monitor.created_tick(second.id()).expect("task retained"))
        .max(monitor.created_tick(third.id()).expect("task retained"));

    let report = monitor.report_at(HealthPolicy::readiness(), now);

    assert_eq!(report.tasks.len(), 3);
    assert_eq!(report.tasks[0].id, first.id());
    assert_eq!(report.tasks[1].id, second.id());
    assert_eq!(report.tasks[2].id, third.id());
    assert_eq!(report.summary.counts.starting, 3);
    assert_eq!(report.summary.counts.total(), report.tasks.len());
    assert_eq!(report.summary.verdict, HealthVerdict::Degraded);
    assert!(!report.is_nominal());
}
