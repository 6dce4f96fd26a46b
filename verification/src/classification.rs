use vstd::prelude::*;

use crate::config::LearnedTiming;
use crate::learning::{LearnedEstimate, pattern_config_of};
use crate::status::{Health, TimingStatus};
use crate::time::Duration;

verus! {

broadcast use crate::time::Duration::lemma_of_nanos;

/// How many whole intervals fit in `elapsed`, capped at `u64::MAX`; zero for
/// an empty interval.
pub open spec fn interval_count_spec(elapsed: nat, interval: nat) -> u64 {
    if interval == 0 {
        0
    } else if elapsed / interval > u64::MAX {
        u64::MAX
    } else {
        (elapsed / interval) as u64
    }
}

/// Returns how many whole intervals fit in `elapsed`.
pub fn interval_count(elapsed: Duration, interval: Duration) -> (n: u64)
    ensures
        n == interval_count_spec(elapsed@, interval@),
{
    if interval.is_zero() {
        return 0;
    }
    let count = elapsed.as_nanos() / interval.as_nanos();
    if count > u64::MAX as u128 {
        u64::MAX
    } else {
        count as u64
    }
}

/// Healthy while the silence is within the deadline; late past it, with
/// the overrun and the number of whole intervals missed.
pub open spec fn classify_spec(silent_for: Duration, deadline: Duration, interval: Duration) -> Health {
    if silent_for@ <= deadline@ {
        Health::Healthy { silent_for, deadline }
    } else {
        Health::Late {
            silent_for,
            deadline,
            overdue_by: Duration::of_nanos((silent_for@ - deadline@) as nat),
            missed_intervals: interval_count_spec(silent_for@, interval@),
        }
    }
}

/// Classifies a silence against a deadline.
pub fn classify_health(silent_for: Duration, deadline: Duration, interval: Duration) -> (h: Health)
    ensures
        h == classify_spec(silent_for, deadline, interval),
{
    if silent_for.le(&deadline) {
        Health::Healthy { silent_for, deadline }
    } else {
        Health::Late {
            silent_for,
            deadline,
            overdue_by: silent_for.saturating_sub(deadline),
            missed_intervals: interval_count(silent_for, interval),
        }
    }
}

/// The health of a learned task that has beaten at least once.
///
/// A trained model is judged against its deadline. An untrained one is late
/// once the silence passes its provisional deadline (or, without one, the
/// startup grace) and is learning otherwise.
pub open spec fn learned_health_spec(
    config: LearnedTiming,
    estimate: LearnedEstimate,
    silent_for: Duration,
    startup_grace: Duration,
) -> Health {
    match estimate {
        LearnedEstimate::Trained { interval, deadline, .. } => classify_spec(
            silent_for,
            deadline,
            interval,
        ),
        LearnedEstimate::PatternTrained { expected_interval, deadline, .. } => classify_spec(
            silent_for,
            deadline,
            expected_interval,
        ),
        LearnedEstimate::Training {
            samples,
            estimated_interval,
            provisional_deadline,
            ..
        } => {
            let provisional = match provisional_deadline {
                Some(d) => d,
                None => startup_grace,
            };
            if silent_for@ > provisional@ {
                classify_spec(
                    silent_for,
                    provisional,
                    match estimated_interval {
                        Some(i) => i,
                        None => provisional,
                    },
                )
            } else {
                Health::Learning {
                    samples,
                    required: config.minimum_samples,
                    silent_for,
                    estimated_interval,
                }
            }
        },
        LearnedEstimate::PatternSearching { samples, .. } => if silent_for@ > startup_grace@ {
            classify_spec(silent_for, startup_grace, startup_grace)
        } else {
            Health::Learning {
                samples,
                required: config.minimum_samples,
                silent_for,
                estimated_interval: None,
            }
        },
    }
}

/// Returns the health of a learned task that has beaten at least once.
pub fn learned_health(
    config: LearnedTiming,
    estimate: &LearnedEstimate,
    silent_for: Duration,
    startup_grace: Duration,
) -> (h: Health)
    ensures
        h == learned_health_spec(config, *estimate, silent_for, startup_grace),
{
    match estimate {
        LearnedEstimate::Trained { interval, deadline, .. } => classify_health(
            silent_for,
            *deadline,
            *interval,
        ),
        LearnedEstimate::PatternTrained { expected_interval, deadline, .. } => classify_health(
            silent_for,
            *deadline,
            *expected_interval,
        ),
        LearnedEstimate::Training { samples, estimated_interval, provisional_deadline, .. } => {
            let provisional = match provisional_deadline {
                Some(d) => *d,
                None => startup_grace,
            };
            if !silent_for.le(&provisional) {
                let interval = match estimated_interval {
                    Some(i) => *i,
                    None => provisional,
                };
                classify_health(silent_for, provisional, interval)
            } else {
                Health::Learning {
                    samples: *samples,
                    required: config.minimum_samples,
                    silent_for,
                    estimated_interval: *estimated_interval,
                }
            }
        },
        LearnedEstimate::PatternSearching { samples, .. } => {
            if !silent_for.le(&startup_grace) {
                classify_health(silent_for, startup_grace, startup_grace)
            } else {
                Health::Learning {
                    samples: *samples,
                    required: config.minimum_samples,
                    silent_for,
                    estimated_interval: None,
                }
            }
        },
    }
}

/// Whether `t` is the public timing view of a learned model with the given
/// configuration and estimate.
pub open spec fn learned_timing_is(
    config: LearnedTiming,
    estimate: LearnedEstimate,
    t: TimingStatus,
) -> bool {
    match estimate {
        LearnedEstimate::Training {
            samples,
            rejected_samples,
            estimated_interval,
            estimated_deviation,
            confidence,
            ..
        } => t == TimingStatus::Learning {
            model: config.model,
            samples,
            rejected_samples,
            required: config.minimum_samples,
            estimated_interval,
            estimated_deviation,
            confidence,
        },
        LearnedEstimate::Trained {
            samples,
            rejected_samples,
            interval,
            deviation,
            deadline,
            confidence,
        } => t == TimingStatus::Learned {
            model: config.model,
            samples,
            rejected_samples,
            interval,
            deviation,
            deadline,
            adaptation: config.adaptation,
            confidence,
        },
        LearnedEstimate::PatternSearching {
            samples,
            rejected_samples,
            candidate_period,
            confidence,
        } => t == TimingStatus::PatternLearning {
            config: pattern_config_of(config.model),
            samples,
            rejected_samples,
            minimum_samples: config.minimum_samples,
            candidate_period,
            confidence,
        },
        LearnedEstimate::PatternTrained {
            samples,
            rejected_samples,
            period,
            next_phase,
            intervals,
            deviations,
            expected_interval,
            deadline,
            confidence,
        } => match t {
            TimingStatus::PatternLearned {
                config: c,
                samples: s,
                rejected_samples: r,
                period: p,
                next_phase: n,
                intervals: i,
                deviations: d,
                expected_interval: e,
                deadline: l,
                adaptation: a,
                confidence: q,
            } => {
                &&& c == pattern_config_of(config.model)
                &&& s == samples
                &&& r == rejected_samples
                &&& p == period
                &&& n == next_phase
                &&& i@ == intervals@
                &&& d@ == deviations@
                &&& e == expected_interval
                &&& l == deadline
                &&& a == config.adaptation
                &&& q == confidence
            },
            _ => false,
        },
    }
}

/// Returns a copy of a list of spans.
pub fn copy_durations(values: &Vec<Duration>) -> (r: Vec<Duration>)
    ensures
        r@ == values@,
{
    let mut r: Vec<Duration> = Vec::new();
    for i in 0..values.len()
        invariant
            r@ == values@.subrange(0, i as int),
    {
        r.push(values[i]);
        proof {
            assert(r@ =~= values@.subrange(0, i + 1));
        }
    }
    proof {
        assert(values@.subrange(0, values@.len() as int) =~= values@);
    }
    r
}

/// Returns the public timing view of a learned model.
pub fn learned_timing_status(config: LearnedTiming, estimate: &LearnedEstimate) -> (t:
    TimingStatus)
    requires
        estimate.fits(config.model),
    ensures
        learned_timing_is(config, *estimate, t),
{
    match estimate {
        LearnedEstimate::Training {
            samples,
            rejected_samples,
            estimated_interval,
            estimated_deviation,
            confidence,
            ..
        } => TimingStatus::Learning {
            model: config.model,
            samples: *samples,
            rejected_samples: *rejected_samples,
            required: config.minimum_samples,
            estimated_interval: *estimated_interval,
            estimated_deviation: *estimated_deviation,
            confidence: *confidence,
        },
        LearnedEstimate::Trained {
            samples,
            rejected_samples,
            interval,
            deviation,
            deadline,
            confidence,
        } => TimingStatus::Learned {
            model: config.model,
            samples: *samples,
            rejected_samples: *rejected_samples,
            interval: *interval,
            deviation: *deviation,
            deadline: *deadline,
            adaptation: config.adaptation,
            confidence: *confidence,
        },
        LearnedEstimate::PatternSearching {
            samples,
            rejected_samples,
            candidate_period,
            confidence,
        } => {
            let pattern = match config.model {
                crate::config::LearningModel::RepeatingPattern(p) => p,
                _ => crate::config::PatternConfig::new(0, 0).with_tolerance_percent(
                    0,
                ).with_minimum_contrast_percent(0),
            };
            TimingStatus::PatternLearning {
                config: pattern,
                samples: *samples,
                rejected_samples: *rejected_samples,
                minimum_samples: config.minimum_samples,
                candidate_period: *candidate_period,
                confidence: *confidence,
            }
        },
        LearnedEstimate::PatternTrained {
            samples,
            rejected_samples,
            period,
            next_phase,
            intervals,
            deviations,
            expected_interval,
            deadline,
            confidence,
        } => {
            let pattern = match config.model {
                crate::config::LearningModel::RepeatingPattern(p) => p,
                _ => crate::config::PatternConfig::new(0, 0).with_tolerance_percent(
                    0,
                ).with_minimum_contrast_percent(0),
            };
            TimingStatus::PatternLearned {
                config: pattern,
                samples: *samples,
                rejected_samples: *rejected_samples,
                period: *period,
                next_phase: *next_phase,
                intervals: copy_durations(intervals),
                deviations: copy_durations(deviations),
                expected_interval: *expected_interval,
                deadline: *deadline,
                adaptation: config.adaptation,
                confidence: *confidence,
            }
        },
    }
}

} // verus!
