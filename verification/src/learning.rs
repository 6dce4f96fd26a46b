use vstd::prelude::*;

use crate::config::{Adaptation, LearnedTiming, LearningModel, PatternConfig};
use crate::status::Confidence;
use crate::time::Duration;

verus! {

/// The current estimate of a learned model, in plain values.
///
/// The estimate is produced by the learning arithmetic, which works in
/// floating point outside the verified library; the monitor stores it and
/// decides health from it.
#[derive(Clone, Debug, PartialEq, Eq)]
pub enum LearnedEstimate {
    /// A single-interval model that has not yet met its sample count.
    Training {
        samples: u32,
        rejected_samples: u32,
        estimated_interval: Option<Duration>,
        estimated_deviation: Option<Duration>,
        /// The provisional deadline: the current center plus its allowance.
        provisional_deadline: Option<Duration>,
        confidence: Confidence,
    },
    /// A trained single-interval model.
    Trained {
        samples: u32,
        rejected_samples: u32,
        interval: Duration,
        deviation: Duration,
        deadline: Duration,
        confidence: Confidence,
    },
    /// A repeating-pattern model still searching for a cycle.
    PatternSearching {
        samples: u32,
        rejected_samples: u32,
        candidate_period: Option<u8>,
        confidence: Confidence,
    },
    /// A repeating-pattern model that has established a cycle.
    PatternTrained {
        samples: u32,
        rejected_samples: u32,
        period: u8,
        next_phase: u8,
        intervals: Vec<Duration>,
        deviations: Vec<Duration>,
        expected_interval: Duration,
        deadline: Duration,
        confidence: Confidence,
    },
}

impl LearnedEstimate {
    /// Whether the estimate is of the kind the model produces: pattern
    /// estimates for the repeating-pattern model, single-interval estimates
    /// for the others.
    pub open spec fn fits(&self, model: LearningModel) -> bool {
        match self {
            LearnedEstimate::Training { .. } | LearnedEstimate::Trained { .. } => !(
            model is RepeatingPattern),
            LearnedEstimate::PatternSearching { .. } | LearnedEstimate::PatternTrained {
                ..
            } => model is RepeatingPattern,
        }
    }

    /// The estimate of a model that has seen no samples yet.
    pub open spec fn fresh_spec(model: LearningModel) -> LearnedEstimate {
        if model is RepeatingPattern {
            LearnedEstimate::PatternSearching {
                samples: 0,
                rejected_samples: 0,
                candidate_period: None,
                confidence: Confidence::Insufficient,
            }
        } else {
            LearnedEstimate::Training {
                samples: 0,
                rejected_samples: 0,
                estimated_interval: None,
                estimated_deviation: None,
                provisional_deadline: None,
                confidence: Confidence::Insufficient,
            }
        }
    }

    /// Returns the estimate of a model that has seen no samples yet.
    pub fn fresh(model: LearningModel) -> (e: LearnedEstimate)
        ensures
            e == LearnedEstimate::fresh_spec(model),
            e.fits(model),
    {
        match model {
            LearningModel::RepeatingPattern(_) => LearnedEstimate::PatternSearching {
                samples: 0,
                rejected_samples: 0,
                candidate_period: None,
                confidence: Confidence::Insufficient,
            },
            _ => LearnedEstimate::Training {
                samples: 0,
                rejected_samples: 0,
                estimated_interval: None,
                estimated_deviation: None,
                provisional_deadline: None,
                confidence: Confidence::Insufficient,
            },
        }
    }

    /// Whether the estimate is of the kind the model produces.
    pub fn fits_model(&self, model: LearningModel) -> (b: bool)
        ensures
            b == self.fits(model),
    {
        let pattern = match model {
            LearningModel::RepeatingPattern(_) => true,
            _ => false,
        };
        match self {
            LearnedEstimate::Training { .. } | LearnedEstimate::Trained { .. } => !pattern,
            _ => pattern,
        }
    }
}

/// The pattern configuration of a repeating-pattern model.
pub open spec fn pattern_config_of(model: LearningModel) -> PatternConfig {
    match model {
        LearningModel::RepeatingPattern(p) => p,
        _ => PatternConfig {
            maximum_period: 0,
            minimum_cycles: 0,
            tolerance_percent: 0,
            minimum_contrast_percent: 0,
        },
    }
}

/// The sample bookkeeping of a learned model: how many observations were
/// accepted and rejected, whether training is complete, and whether the next
/// interval must be ignored after a retraining request.
#[derive(Clone, Copy, Debug, PartialEq, Eq, Structural)]
pub struct LearningBook {
    pub accepted_samples: u32,
    pub rejected_samples: u32,
    pub trained: bool,
    pub skip_next_interval: bool,
}

/// What the learning arithmetic must do with one observed interval.
#[derive(Clone, Copy, Debug, PartialEq, Eq, Structural)]
pub enum ObservationStep {
    /// The first interval after a retraining request is discarded.
    Skipped,
    /// An empty interval carries no timing information.
    Ignored,
    /// The repeating-pattern detector must judge the interval and report the
    /// outcome with [`LearningBook::finish_pattern`].
    Pattern,
    /// The interval lies outside the trained range and was counted as
    /// rejected.
    Rejected,
    /// The interval was accepted without changing the estimator.
    Counted,
    /// The interval was accepted and must update the estimator.
    Update {
        /// Whether the model was already trained before this interval, which
        /// selects the adaptation rate and whether training clamps apply.
        was_trained: bool,
        /// Accepted samples before this interval.
        accepted_before: u32,
    },
}

/// `n + 1`, or `n` where that does not fit in a `u32`.
pub open spec fn saturating_inc(n: u32) -> u32 {
    if n < u32::MAX {
        (n + 1) as u32
    } else {
        n
    }
}

impl LearningBook {
    /// The bookkeeping of a model that has seen no samples.
    pub open spec fn fresh_spec() -> LearningBook {
        LearningBook {
            accepted_samples: 0,
            rejected_samples: 0,
            trained: false,
            skip_next_interval: false,
        }
    }

    /// Creates the bookkeeping of a model that has seen no samples.
    pub fn new() -> (b: LearningBook)
        ensures
            b == LearningBook::fresh_spec(),
    {
        LearningBook {
            accepted_samples: 0,
            rejected_samples: 0,
            trained: false,
            skip_next_interval: false,
        }
    }

    /// A single-interval model is trained only on at least the required
    /// number of accepted samples.
    pub open spec fn trained_on_enough(self, config: LearnedTiming) -> bool {
        self.trained ==> self.accepted_samples >= config.minimum_samples
    }

    /// Forgets every sample, optionally discarding the next interval.
    pub fn reset_for_retraining(&mut self, skip_next_interval: bool)
        ensures
            *final(self) == (LearningBook { skip_next_interval, ..LearningBook::fresh_spec() }),
    {
        *self = LearningBook::new();
        self.skip_next_interval = skip_next_interval;
    }

    /// Whether a trained single-interval model updates its estimator with an
    /// accepted interval: the moving average does while it adapts at all; a
    /// robust window does on every `stride`-th post-training sample.
    pub open spec fn should_adapt_spec(self, config: LearnedTiming) -> bool {
        match config.model {
            LearningModel::Ewma => config.adaptation != crate::config::Adaptation::FrozenAfterTraining,
            LearningModel::RobustWindow { .. } => match config.adaptation {
                crate::config::Adaptation::FrozenAfterTraining => false,
                crate::config::Adaptation::Slow => {
                    let post = if self.accepted_samples >= config.minimum_samples {
                        self.accepted_samples - config.minimum_samples
                    } else {
                        0
                    };
                    post % 4 == 0
                },
                crate::config::Adaptation::Continuous => true,
            },
            LearningModel::RepeatingPattern(_) => false,
        }
    }

    /// Returns whether a trained single-interval model updates its estimator
    /// with an accepted interval.
    pub fn should_adapt(&self, config: LearnedTiming) -> (b: bool)
        ensures
            b == self.should_adapt_spec(config),
    {
        match config.model {
            LearningModel::Ewma => config.adaptation.adapts(),
            LearningModel::RobustWindow { .. } => match config.adaptation.robust_update_stride() {
                None => false,
                Some(stride) => {
                    let post_training = self.accepted_samples.saturating_sub(
                        config.minimum_samples,
                    );
                    post_training.checked_rem(stride) == Some(0u32)
                },
            },
            LearningModel::RepeatingPattern(_) => false,
        }
    }

    /// Records one observed interval of `observed_micros` microseconds and
    /// says what the learning arithmetic must do with it.
    ///
    /// `in_trusted_range` is whether the interval lies within the current
    /// center plus or minus its allowance; it is consulted only when a
    /// trained single-interval model judges the interval.
    pub fn observe(&mut self, observed_micros: u128, in_trusted_range: bool, config: LearnedTiming) -> (step:
        ObservationStep)
        ensures
            old(self).skip_next_interval ==> step == ObservationStep::Skipped && *final(self)
                == (LearningBook { skip_next_interval: false, ..*old(self) }),
            !old(self).skip_next_interval && observed_micros == 0 ==> step
                == ObservationStep::Ignored && *final(self) == *old(self),
            !old(self).skip_next_interval && observed_micros > 0 && config.model
                is RepeatingPattern ==> step == ObservationStep::Pattern && *final(self)
                == *old(self),
            !old(self).skip_next_interval && observed_micros > 0 && !(config.model
                is RepeatingPattern) && old(self).trained && !in_trusted_range ==> step
                == ObservationStep::Rejected && *final(self) == (LearningBook {
                rejected_samples: saturating_inc(old(self).rejected_samples),
                ..*old(self)
            }),
            !old(self).skip_next_interval && observed_micros > 0 && !(config.model
                is RepeatingPattern) && (!old(self).trained || in_trusted_range) ==> {
                &&& final(self).accepted_samples == saturating_inc(old(self).accepted_samples)
                &&& final(self).rejected_samples == old(self).rejected_samples
                &&& final(self).trained == (final(self).accepted_samples
                    >= config.minimum_samples)
                &&& !final(self).skip_next_interval
                &&& step == if !old(self).trained || old(self).should_adapt_spec(config) {
                    ObservationStep::Update {
                        was_trained: old(self).trained,
                        accepted_before: old(self).accepted_samples,
                    }
                } else {
                    ObservationStep::Counted
                }
            },
            !(config.model is RepeatingPattern) && old(self).trained_on_enough(config)
                ==> final(self).trained_on_enough(config),
            !(config.model is RepeatingPattern) && old(self).trained
                && old(self).trained_on_enough(config) ==> final(self).trained,
            old(self).trained && config.adaptation == Adaptation::FrozenAfterTraining
                ==> !(step is Update),
            !old(self).skip_next_interval && observed_micros > 0 && (config.model is Ewma)
                && old(self).trained && in_trusted_range && config.adaptation
                != Adaptation::FrozenAfterTraining ==> step == (ObservationStep::Update {
                was_trained: true,
                accepted_before: old(self).accepted_samples,
            }),
    {
        if self.skip_next_interval {
            self.skip_next_interval = false;
            return ObservationStep::Skipped;
        }
        if observed_micros == 0 {
            return ObservationStep::Ignored;
        }
        if let LearningModel::RepeatingPattern(_) = config.model {
            return ObservationStep::Pattern;
        }
        if self.trained && !in_trusted_range {
            self.rejected_samples = self.rejected_samples.saturating_add(1);
            return ObservationStep::Rejected;
        }
        let should_update = !self.trained || self.should_adapt(config);
        let step = if should_update {
            ObservationStep::Update {
                was_trained: self.trained,
                accepted_before: self.accepted_samples,
            }
        } else {
            ObservationStep::Counted
        };
        self.accepted_samples = self.accepted_samples.saturating_add(1);
        self.trained = self.accepted_samples >= config.minimum_samples;
        step
    }

    /// Records the repeating-pattern detector's judgement of an interval and
    /// whether the detector has established a cycle.
    pub fn finish_pattern(&mut self, accepted: bool, trained: bool)
        ensures
            final(self).accepted_samples == if accepted {
                saturating_inc(old(self).accepted_samples)
            } else {
                old(self).accepted_samples
            },
            final(self).rejected_samples == if accepted {
                old(self).rejected_samples
            } else {
                saturating_inc(old(self).rejected_samples)
            },
            final(self).trained == trained,
            final(self).skip_next_interval == old(self).skip_next_interval,
    {
        if accepted {
            self.accepted_samples = self.accepted_samples.saturating_add(1);
        } else {
            self.rejected_samples = self.rejected_samples.saturating_add(1);
        }
        self.trained = trained;
    }
}



/// After training, the adaptation setting decides whether an accepted
/// interval updates the estimator: a moving average keeps updating unless
/// it is frozen; a robust window updates on every accepted interval when
/// continuous, on every fourth one past the required samples when slow, and
/// never when frozen; a repeating pattern's estimator is not updated through
/// this decision.
pub proof fn lemma_adaptation_decides_updates(book: LearningBook, config: LearnedTiming)
    ensures
        (config.model is Ewma) ==> (book.should_adapt_spec(config) <==> config.adaptation
            != Adaptation::FrozenAfterTraining),
        (config.model is RobustWindow) && config.adaptation == Adaptation::Continuous
            ==> book.should_adapt_spec(config),
        (config.model is RobustWindow) && config.adaptation == Adaptation::FrozenAfterTraining
            ==> !book.should_adapt_spec(config),
        (config.model is RobustWindow) && config.adaptation == Adaptation::Slow
            ==> (book.should_adapt_spec(config) <==> (book.accepted_samples
            <= config.minimum_samples || (book.accepted_samples - config.minimum_samples) % 4
            == 0)),
        (config.model is RepeatingPattern) ==> !book.should_adapt_spec(config),
{
}

/// Where an established repeating pattern stands: its period and the phase
/// the next interval belongs to. Before a cycle is established both are
/// zero.
#[derive(Clone, Copy, Debug)]
pub struct PatternPhase {
    period: u8,
    next_phase: u8,
}

impl PatternPhase {
    /// The next phase lies within the period, and is zero while no period
    /// is established.
    #[verifier::type_invariant]
    closed spec fn wf(&self) -> bool {
        if self.period == 0 {
            self.next_phase == 0
        } else {
            self.next_phase < self.period
        }
    }

    /// The established period; zero while none is.
    pub closed spec fn period_spec(&self) -> nat {
        self.period as nat
    }

    /// The phase of the next interval.
    pub closed spec fn next_phase_spec(&self) -> nat {
        self.next_phase as nat
    }

    /// Creates the position of a pattern with no established cycle.
    pub fn new() -> (p: PatternPhase)
        ensures
            p.period_spec() == 0,
            p.next_phase_spec() == 0,
    {
        PatternPhase { period: 0, next_phase: 0 }
    }

    /// Returns the established period, zero while none is.
    pub fn period(&self) -> (n: u8)
        ensures
            n == self.period_spec(),
    {
        self.period
    }

    /// Returns the phase of the next interval.
    pub fn next_phase(&self) -> (n: u8)
        ensures
            n == self.next_phase_spec(),
            self.period_spec() > 0 ==> n < self.period_spec(),
            self.period_spec() == 0 ==> n == 0,
    {
        proof {
            use_type_invariant(self);
        }
        self.next_phase
    }

    /// Returns whether a cycle is established.
    pub fn is_established(&self) -> (b: bool)
        ensures
            b == (self.period_spec() > 0),
    {
        self.period > 0
    }

    /// Establishes a cycle of `period` phases after `pushed` samples: the
    /// next interval's phase is its global position modulo the period.
    pub fn establish(&mut self, period: u8, pushed: u32)
        requires
            period > 0,
        ensures
            final(self).period_spec() == period,
            final(self).next_phase_spec() == pushed as nat % period as nat,
    {
        let phase = pushed % (period as u32);
        *self = PatternPhase { period, next_phase: phase as u8 };
    }

    /// Moves past one interval of an established cycle and returns the phase
    /// that interval belonged to. Every interval advances the phase, whether
    /// the pattern accepted it or rejected it as an outlier.
    pub fn advance(&mut self) -> (observed: u8)
        requires
            old(self).period_spec() > 0,
        ensures
            observed == old(self).next_phase_spec(),
            final(self).period_spec() == old(self).period_spec(),
            final(self).next_phase_spec() == (old(self).next_phase_spec() + 1) % old(
                self,
            ).period_spec(),
    {
        proof {
            use_type_invariant(&*self);
        }
        let observed = self.next_phase;
        let next = (self.next_phase + 1) % self.period;
        *self = PatternPhase { period: self.period, next_phase: next };
        observed
    }
}

/// The phase stays the global position modulo the period: moving past one
/// interval from the phase of position `position` gives the phase of the
/// next position.
pub proof fn lemma_phase_follows_position(period: nat, position: nat)
    requires
        period > 0,
    ensures
        (position % period + 1) % period == (position + 1) % period,
{
    vstd::arithmetic::div_mod::lemma_add_mod_noop(position as int, 1, period as int);
    if period == 1 {
        vstd::arithmetic::div_mod::lemma_mod_self_0(1);
    } else {
        vstd::arithmetic::div_mod::lemma_small_mod(1, period);
    }
}

/// The number of judged samples, accepted plus rejected, saturating at
/// `u32::MAX` and never less than one.
pub open spec fn judged_samples(accepted: u32, rejected: u32) -> nat {
    let sum = accepted + rejected;
    if sum > u32::MAX {
        u32::MAX as nat
    } else if sum == 0 {
        1
    } else {
        sum as nat
    }
}

/// Whether at most `percent` percent of the judged samples were rejected.
///
/// For 32-bit counts this is exactly the comparison of the rejected ratio,
/// computed in double precision, with the double nearest `percent / 100`
/// for the percentages 10 and 20: the two sides differ by far more than a
/// rounding step whenever the exact ratio exceeds the threshold.
pub open spec fn rejected_at_most(accepted: u32, rejected: u32, percent: nat) -> bool {
    rejected * 100 <= percent * judged_samples(accepted, rejected)
}

/// The rank of a confidence level, from `Insufficient` (0) to `High` (3).
pub open spec fn confidence_rank(c: Confidence) -> nat {
    match c {
        Confidence::Insufficient => 0,
        Confidence::Low => 1,
        Confidence::Medium => 2,
        Confidence::High => 3,
    }
}

/// `n * k`, capped at `u32::MAX`.
pub open spec fn saturating_times(n: u32, k: nat) -> nat {
    if n * k > u32::MAX {
        u32::MAX as nat
    } else {
        (n * k) as nat
    }
}

/// The confidence of a single-interval model: none before training; high
/// with four times the required samples, a relative deviation within 5%
/// and at most 10% rejected; medium with twice the samples, a relative
/// deviation within 15% and at most 20% rejected; low otherwise.
pub open spec fn interval_confidence_spec(
    trained: bool,
    accepted: u32,
    rejected: u32,
    minimum_samples: u32,
    deviation_within_5_percent: bool,
    deviation_within_15_percent: bool,
) -> Confidence {
    if !trained {
        Confidence::Insufficient
    } else if accepted >= saturating_times(minimum_samples, 4) && deviation_within_5_percent
        && rejected_at_most(accepted, rejected, 10) {
        Confidence::High
    } else if accepted >= saturating_times(minimum_samples, 2) && deviation_within_15_percent
        && rejected_at_most(accepted, rejected, 20) {
        Confidence::Medium
    } else {
        Confidence::Low
    }
}

/// The confidence of a repeating-pattern model: none before training; high
/// with three times the required cycles, a fit within half the tolerance and
/// at most 10% rejected; medium with twice the cycles, a fit within the
/// tolerance and at most 20% rejected; low otherwise.
pub open spec fn pattern_confidence_spec(
    trained: bool,
    accepted: u32,
    rejected: u32,
    period: u8,
    minimum_cycles: u8,
    fit_within_half_tolerance: bool,
    fit_within_tolerance: bool,
) -> Confidence {
    let cycles = (accepted as nat) / (if period == 0 { 1nat } else { period as nat });
    if !trained {
        Confidence::Insufficient
    } else if cycles >= minimum_cycles * 3 && fit_within_half_tolerance && rejected_at_most(
        accepted,
        rejected,
        10,
    ) {
        Confidence::High
    } else if cycles >= minimum_cycles * 2 && fit_within_tolerance && rejected_at_most(
        accepted,
        rejected,
        20,
    ) {
        Confidence::Medium
    } else {
        Confidence::Low
    }
}

/// Returns `n * k`, capped at `u32::MAX`.
fn times_capped(n: u32, k: u32) -> (r: u32)
    requires
        k <= 4,
    ensures
        r == saturating_times(n, k as nat),
{
    assert((n as u64) * (k as u64) <= 4 * 0xFFFF_FFFFu64) by (nonlinear_arith)
        requires
            k <= 4,
            n <= 0xFFFF_FFFFu64,
    ;
    let product = n as u64 * k as u64;
    if product > u32::MAX as u64 {
        u32::MAX
    } else {
        product as u32
    }
}

/// Returns whether at most `percent` percent of the judged samples were
/// rejected.
fn rejected_share_within(accepted: u32, rejected: u32, percent: u64) -> (b: bool)
    requires
        percent <= 100,
    ensures
        b == rejected_at_most(accepted, rejected, percent as nat),
{
    let judged = accepted.saturating_add(rejected);
    let judged = if judged == 0 {
        1
    } else {
        judged
    };
    assert(percent * (judged as u64) <= 100 * 0xFFFF_FFFFu64) by (nonlinear_arith)
        requires
            percent <= 100,
            judged <= 0xFFFF_FFFFu64,
    ;
    rejected as u64 * 100 <= percent * judged as u64
}

/// Returns the confidence of a single-interval model. The two deviation
/// flags say whether the deviation, relative to the center, is within 5% and
/// within 15%.
pub fn interval_confidence(
    trained: bool,
    accepted: u32,
    rejected: u32,
    minimum_samples: u32,
    deviation_within_5_percent: bool,
    deviation_within_15_percent: bool,
) -> (c: Confidence)
    ensures
        c == interval_confidence_spec(
            trained,
            accepted,
            rejected,
            minimum_samples,
            deviation_within_5_percent,
            deviation_within_15_percent,
        ),
{
    if !trained {
        return Confidence::Insufficient;
    }
    if accepted >= times_capped(minimum_samples, 4) && deviation_within_5_percent
        && rejected_share_within(accepted, rejected, 10) {
        Confidence::High
    } else if accepted >= times_capped(minimum_samples, 2) && deviation_within_15_percent
        && rejected_share_within(accepted, rejected, 20) {
        Confidence::Medium
    } else {
        Confidence::Low
    }
}

/// Returns the confidence of a repeating-pattern model. The two fit flags
/// say whether the fit's median relative residual is within half the
/// tolerance and within the tolerance.
pub fn pattern_confidence(
    trained: bool,
    accepted: u32,
    rejected: u32,
    period: u8,
    minimum_cycles: u8,
    fit_within_half_tolerance: bool,
    fit_within_tolerance: bool,
) -> (c: Confidence)
    ensures
        c == pattern_confidence_spec(
            trained,
            accepted,
            rejected,
            period,
            minimum_cycles,
            fit_within_half_tolerance,
            fit_within_tolerance,
        ),
{
    if !trained {
        return Confidence::Insufficient;
    }
    let period = if period == 0 {
        1
    } else {
        period as u32
    };
    let cycles = accepted / period;
    let minimum_cycles = minimum_cycles as u32;
    if cycles >= minimum_cycles * 3 && fit_within_half_tolerance && rejected_share_within(
        accepted,
        rejected,
        10,
    ) {
        Confidence::High
    } else if cycles >= minimum_cycles * 2 && fit_within_tolerance && rejected_share_within(
        accepted,
        rejected,
        20,
    ) {
        Confidence::Medium
    } else {
        Confidence::Low
    }
}

/// What each confidence level of a single-interval model requires: none
/// before training and never none after it; high only with four times the
/// required samples (or every sample a count can hold), a deviation within
/// 5% and at most a tenth of the judged samples rejected; medium or better
/// only with twice the samples, a deviation within 15% and at most a fifth
/// rejected. Meeting those conditions gives the level.
pub proof fn lemma_interval_confidence_levels(
    trained: bool,
    accepted: u32,
    rejected: u32,
    minimum_samples: u32,
    within_5: bool,
    within_15: bool,
)
    ensures
        ({
            let c = interval_confidence_spec(
                trained,
                accepted,
                rejected,
                minimum_samples,
                within_5,
                within_15,
            );
            let judged = if accepted + rejected == 0 {
                1
            } else if accepted + rejected > u32::MAX {
                u32::MAX as int
            } else {
                accepted + rejected
            };
            &&& !trained <==> c == Confidence::Insufficient
            &&& c == Confidence::High ==> within_5 && 10 * rejected <= judged && (accepted >= 4
                * minimum_samples || accepted == u32::MAX)
            &&& (c == Confidence::High || c == Confidence::Medium) ==> trained && (
            accepted >= 2 * minimum_samples || accepted == u32::MAX) && (within_5 || within_15)
            &&& trained && within_5 && accepted >= 4 * minimum_samples && 10 * rejected
                <= judged ==> c == Confidence::High
            &&& trained && within_15 && accepted >= 2 * minimum_samples && 5 * rejected
                <= judged ==> c == Confidence::High || c == Confidence::Medium
        }),
{
}

/// What each confidence level of a repeating pattern requires: none before
/// training and never none after it; high only with three times the
/// required whole cycles of its period, a fit within half the tolerance and
/// at most a tenth of the judged samples rejected; medium or better only with
/// twice the cycles, a fit within the tolerance and at most a fifth rejected.
/// Meeting those conditions gives the level.
pub proof fn lemma_pattern_confidence_levels(
    trained: bool,
    accepted: u32,
    rejected: u32,
    period: u8,
    minimum_cycles: u8,
    within_half: bool,
    within: bool,
)
    requires
        period > 0,
    ensures
        ({
            let c = pattern_confidence_spec(
                trained,
                accepted,
                rejected,
                period,
                minimum_cycles,
                within_half,
                within,
            );
            let judged = if accepted + rejected == 0 {
                1
            } else if accepted + rejected > u32::MAX {
                u32::MAX as int
            } else {
                accepted + rejected
            };
            &&& !trained <==> c == Confidence::Insufficient
            &&& c == Confidence::High ==> within_half && 10 * rejected <= judged && accepted
                >= 3 * minimum_cycles * period
            &&& (c == Confidence::High || c == Confidence::Medium) ==> trained && accepted >= 2
                * minimum_cycles * period && (within_half || within)
            &&& trained && within_half && accepted >= 3 * minimum_cycles * period && 10 * rejected
                <= judged ==> c == Confidence::High
            &&& trained && within && accepted >= 2 * minimum_cycles * period && 5 * rejected
                <= judged ==> c == Confidence::High || c == Confidence::Medium
        }),
{
    let p = period as int;
    let cycles = (accepted as int) / p;
    assert(cycles >= 3 * minimum_cycles ==> accepted >= 3 * minimum_cycles * period) by (nonlinear_arith)
        requires
            p > 0,
            cycles == (accepted as int) / p,
            p == period,
    {
        vstd::arithmetic::div_mod::lemma_fundamental_div_mod(accepted as int, p);
    }
    assert(cycles >= 2 * minimum_cycles ==> accepted >= 2 * minimum_cycles * period) by (nonlinear_arith)
        requires
            p > 0,
            cycles == (accepted as int) / p,
            p == period,
    {
        vstd::arithmetic::div_mod::lemma_fundamental_div_mod(accepted as int, p);
    }
    assert(accepted >= 3 * minimum_cycles * period ==> cycles >= 3 * minimum_cycles) by (nonlinear_arith)
        requires
            p > 0,
            cycles == (accepted as int) / p,
            p == period,
    {
        vstd::arithmetic::div_mod::lemma_fundamental_div_mod(accepted as int, p);
    }
    assert(accepted >= 2 * minimum_cycles * period ==> cycles >= 2 * minimum_cycles) by (nonlinear_arith)
        requires
            p > 0,
            cycles == (accepted as int) / p,
            p == period,
    {
        vstd::arithmetic::div_mod::lemma_fundamental_div_mod(accepted as int, p);
    }
}

/// With everything else unchanged, more accepted samples never lower a
/// single-interval model's confidence.
pub proof fn lemma_interval_confidence_grows_with_evidence(
    trained: bool,
    fewer: u32,
    more: u32,
    rejected: u32,
    minimum_samples: u32,
    within_5: bool,
    within_15: bool,
)
    requires
        fewer <= more,
        within_5 ==> within_15,
    ensures
        confidence_rank(
            interval_confidence_spec(trained, fewer, rejected, minimum_samples, within_5, within_15),
        ) <= confidence_rank(
            interval_confidence_spec(trained, more, rejected, minimum_samples, within_5, within_15),
        ),
{
    assert(judged_samples(fewer, rejected) <= judged_samples(more, rejected));
    assert(rejected_at_most(fewer, rejected, 10) ==> rejected_at_most(more, rejected, 10))
        by (nonlinear_arith)
        requires
            judged_samples(fewer, rejected) <= judged_samples(more, rejected),
    ;
    assert(rejected_at_most(fewer, rejected, 20) ==> rejected_at_most(more, rejected, 20))
        by (nonlinear_arith)
        requires
            judged_samples(fewer, rejected) <= judged_samples(more, rejected),
    ;
    assert(rejected_at_most(more, rejected, 10) ==> rejected_at_most(more, rejected, 20));
}

/// With everything else unchanged, more accepted samples never lower a
/// repeating-pattern model's confidence.
pub proof fn lemma_pattern_confidence_grows_with_evidence(
    trained: bool,
    fewer: u32,
    more: u32,
    rejected: u32,
    period: u8,
    minimum_cycles: u8,
    within_half: bool,
    within: bool,
)
    requires
        fewer <= more,
        within_half ==> within,
    ensures
        confidence_rank(
            pattern_confidence_spec(trained, fewer, rejected, period, minimum_cycles, within_half, within),
        ) <= confidence_rank(
            pattern_confidence_spec(trained, more, rejected, period, minimum_cycles, within_half, within),
        ),
{
    let p: nat = if period == 0 { 1 } else { period as nat };
    assert((fewer as nat) / p <= (more as nat) / p) by {
        vstd::arithmetic::div_mod::lemma_div_is_ordered(fewer as int, more as int, p as int);
    }
    assert(judged_samples(fewer, rejected) <= judged_samples(more, rejected));
    assert(rejected_at_most(fewer, rejected, 10) ==> rejected_at_most(more, rejected, 10))
        by (nonlinear_arith)
        requires
            judged_samples(fewer, rejected) <= judged_samples(more, rejected),
    ;
    assert(rejected_at_most(fewer, rejected, 20) ==> rejected_at_most(more, rejected, 20))
        by (nonlinear_arith)
        requires
            judged_samples(fewer, rejected) <= judged_samples(more, rejected),
    ;
    assert(rejected_at_most(more, rejected, 10) ==> rejected_at_most(more, rejected, 20));
}

} // verus!
