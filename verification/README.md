# beatwise

A heartbeat-based task liveness monitor whose core is verified with Verus.

Tasks report progress with heartbeats. The monitor classifies every task as
`Starting`, `Learning`, `Healthy`, `Late` or `Stopped`, keeps stopped records
until they are purged, reports state changes through independent transition
cursors and folds task states into readiness, liveness or custom verdicts.

## Layout

- `src/` — the verified library.
  - `time.rs`: nanosecond spans and microsecond ticks.
  - `clock.rs`: the monotonic clock of the standard library, behind trusted
    wrappers whose results are not constrained.
  - `config.rs`, `errors.rs`: timing policies, task configuration, its
    validation and the error descriptions.
  - `status.rs`, `classification.rs`: health values and how a silence is
    judged against a deadline.
  - `learning.rs`: the plain-valued estimate of a learned model, the
    sample bookkeeping that decides what each observed interval does, the
    phase position of a repeating pattern and the confidence levels.
  - `samples.rs`: bounded sample rings, sorting, medians' middle samples and
    per-phase sample selection.
  - `monitor.rs`: the task registry, heartbeat handles and the lifecycle laws.
  - `transitions.rs`: transition cursors and their laws.
  - `report.rs`: health policies, counts, summaries and reports.
- `app/` — ordinary Rust around the library: a monitor shared between
  threads, heartbeat handles that stop their task when the last one is
  dropped, error types with `Display`, and the floating-point learning
  arithmetic (moving averages, median/MAD windows, repeating-pattern fits
  and the ratios that confidence is judged on).
- `tests/` — scenarios run against the library.

The library works on explicit ticks (`register_at`, `beat_at`, `status_at`,
`poll_at`, ...); the methods without `_at` read the monitor's clock first.
A learned task's estimate is supplied by the learning arithmetic through
`Monitor::record_estimate`, and every heartbeat of a learned task returns the
interval that arithmetic should learn from; `Monitor::retrain` says whether
the next interval is to be ignored.
