use vstd::prelude::*;

use crate::errors::ConfigError;
use crate::time::Duration;

verus! {

/// The largest capacity of a robust learning window.
pub const MAX_ROBUST_WINDOW: usize = 31;

/// The largest number of phases in a repeating pattern.
pub const MAX_PATTERN_PERIOD: usize = 8;

/// The largest number of cycles a repeating pattern may be required to show.
pub const MAX_PATTERN_CYCLES: usize = 8;

/// The bit pattern of the IEEE-754 double `4.0`, the default sensitivity.
pub const DEFAULT_SENSITIVITY_BITS: u64 = 0x4010_0000_0000_0000;

/// The smallest bit pattern of a non-finite positive IEEE-754 double
/// (positive infinity); every smaller non-zero pattern with a clear sign bit
/// is a finite, strictly positive double.
pub const POSITIVE_INFINITY_BITS: u64 = 0x7FF0_0000_0000_0000;

/// Controls how a learned model changes after its training phase.
#[derive(Clone, Copy, Debug, PartialEq, Eq, Structural)]
pub enum Adaptation {
    /// Keep the learned baseline fixed after the minimum sample count is met.
    FrozenAfterTraining,
    /// Accept healthy observations with a conservative adaptation rate.
    Slow,
    /// Accept healthy observations with a faster adaptation rate.
    Continuous,
}

impl Default for Adaptation {
    fn default() -> (a: Adaptation)
        ensures
            a == Adaptation::Slow,
    {
        Adaptation::Slow
    }
}

impl Adaptation {
    /// Whether a trained model keeps adapting to accepted observations, that
    /// is, whether its adaptation rate is positive.
    pub fn adapts(self) -> (b: bool)
        ensures
            b == (self != Adaptation::FrozenAfterTraining),
    {
        match self {
            Adaptation::FrozenAfterTraining => false,
            Adaptation::Slow => true,
            Adaptation::Continuous => true,
        }
    }

    /// How many accepted post-training observations separate two updates of a
    /// robust window; `None` when the window is frozen after training.
    pub fn robust_update_stride(self) -> (r: Option<u32>)
        ensures
            r == match self {
                Adaptation::FrozenAfterTraining => None::<u32>,
                Adaptation::Slow => Some(4u32),
                Adaptation::Continuous => Some(1u32),
            },
    {
        match self {
            Adaptation::FrozenAfterTraining => None,
            Adaptation::Slow => Some(4),
            Adaptation::Continuous => Some(1),
        }
    }
}

/// Configuration for bounded repeating-pattern discovery.
#[derive(Clone, Copy, Debug, PartialEq, Eq, Structural)]
pub struct PatternConfig {
    /// The largest number of distinct heartbeat intervals in one cycle.
    pub maximum_period: u8,
    /// How many repetitions must be seen before a cycle can be trusted.
    pub minimum_cycles: u8,
    /// The largest median relative residual accepted for a candidate cycle.
    pub tolerance_percent: u8,
    /// The smallest relative spread required between learned phases.
    pub minimum_contrast_percent: u8,
}

impl PatternConfig {
    /// Creates a repeating-pattern configuration with a 10% tolerance and a
    /// 20% minimum contrast.
    pub fn new(maximum_period: u8, minimum_cycles: u8) -> (c: PatternConfig)
        ensures
            c == (PatternConfig {
                maximum_period,
                minimum_cycles,
                tolerance_percent: 10,
                minimum_contrast_percent: 20,
            }),
    {
        PatternConfig {
            maximum_period,
            minimum_cycles,
            tolerance_percent: 10,
            minimum_contrast_percent: 20,
        }
    }

    /// Sets the candidate-fit tolerance percentage.
    pub fn with_tolerance_percent(self, tolerance_percent: u8) -> (c: PatternConfig)
        ensures
            c == (PatternConfig { tolerance_percent, ..self }),
    {
        PatternConfig { tolerance_percent, ..self }
    }

    /// Sets the minimum phase-contrast percentage.
    pub fn with_minimum_contrast_percent(self, minimum_contrast_percent: u8) -> (c:
        PatternConfig)
        ensures
            c == (PatternConfig { minimum_contrast_percent, ..self }),
    {
        PatternConfig { minimum_contrast_percent, ..self }
    }

    /// Returns the largest cycle length considered by the detector.
    pub fn maximum_period(self) -> (r: u8)
        ensures
            r == self.maximum_period,
    {
        self.maximum_period
    }

    /// Returns the minimum number of complete cycles required for training.
    pub fn minimum_cycles(self) -> (r: u8)
        ensures
            r == self.minimum_cycles,
    {
        self.minimum_cycles
    }

    /// Returns the candidate-fit tolerance percentage.
    pub fn tolerance_percent(self) -> (r: u8)
        ensures
            r == self.tolerance_percent,
    {
        self.tolerance_percent
    }

    /// Returns the minimum phase-contrast percentage.
    pub fn minimum_contrast_percent(self) -> (r: u8)
        ensures
            r == self.minimum_contrast_percent,
    {
        self.minimum_contrast_percent
    }
}

/// Statistical model used to learn a task's heartbeat timing.
#[derive(Clone, Copy, Debug, PartialEq, Eq, Structural)]
pub enum LearningModel {
    /// Constant-memory exponentially weighted moving statistics.
    Ewma,
    /// A bounded median and median-absolute-deviation window; the capacity
    /// must be an odd number from 5 through 31.
    RobustWindow { capacity: u8 },
    /// Discover a bounded repeating sequence of heartbeat intervals.
    RepeatingPattern(PatternConfig),
}

impl Default for LearningModel {
    fn default() -> (m: LearningModel)
        ensures
            m == LearningModel::Ewma,
    {
        LearningModel::Ewma
    }
}

impl LearningModel {
    /// Creates a bounded robust window model.
    pub fn robust_window(capacity: u8) -> (m: LearningModel)
        ensures
            m == (LearningModel::RobustWindow { capacity }),
    {
        LearningModel::RobustWindow { capacity }
    }

    /// Creates a bounded repeating-pattern model with default fit thresholds.
    pub fn repeating_pattern(maximum_period: u8, minimum_cycles: u8) -> (m: LearningModel)
        ensures
            m == LearningModel::RepeatingPattern(
                PatternConfig {
                    maximum_period,
                    minimum_cycles,
                    tolerance_percent: 10,
                    minimum_contrast_percent: 20,
                },
            ),
    {
        LearningModel::RepeatingPattern(PatternConfig::new(maximum_period, minimum_cycles))
    }
}

/// Fixed timing configuration for a task.
#[derive(Clone, Copy, Debug, PartialEq, Eq, Structural)]
pub struct FixedTiming {
    /// The expected heartbeat interval.
    pub interval: Duration,
    /// Time beyond the interval before the task becomes late.
    pub grace: Duration,
}

impl FixedTiming {
    /// Creates fixed timing with no additional grace period.
    pub fn new(interval: Duration) -> (t: FixedTiming)
        ensures
            t.interval == interval,
            t.grace@ == 0,
    {
        FixedTiming { interval, grace: Duration::zero() }
    }

    /// Adds time beyond the expected interval before the task becomes late.
    pub fn with_grace(self, grace: Duration) -> (t: FixedTiming)
        ensures
            t == (FixedTiming { grace, ..self }),
    {
        FixedTiming { grace, ..self }
    }

    /// Returns the expected heartbeat interval.
    pub fn interval(self) -> (d: Duration)
        ensures
            d == self.interval,
    {
        self.interval
    }

    /// Returns the configured grace period.
    pub fn grace(self) -> (d: Duration)
        ensures
            d == self.grace,
    {
        self.grace
    }

    /// The silence after which a task that has beaten becomes late.
    pub open spec fn deadline_spec(self) -> nat {
        saturating_nanos(self.interval@ + self.grace@)
    }

    /// The interval plus the grace period, saturating at the largest span.
    pub fn deadline(self) -> (d: Duration)
        ensures
            d@ == self.deadline_spec(),
    {
        self.interval.saturating_add(self.grace)
    }
}

/// A nanosecond count capped at the largest span a `Duration` holds.
pub open spec fn saturating_nanos(n: nat) -> nat {
    if n <= crate::time::MAX_NANOS { n } else { crate::time::MAX_NANOS as nat }
}

/// Whether `bits` is the bit pattern of a finite, strictly positive
/// IEEE-754 double.
pub open spec fn sensitivity_is_valid(bits: u64) -> bool {
    0 < bits < POSITIVE_INFINITY_BITS
}

/// Learned timing configuration for a task.
///
/// The sensitivity is a double, held here as its IEEE-754 bit pattern; the
/// learning arithmetic that reads it runs outside the verified library.
/// Equality compares the bit patterns, which for every valid (finite,
/// strictly positive) sensitivity agrees with comparing the doubles.
#[derive(Clone, Copy, Debug, PartialEq, Eq, Structural)]
pub struct LearnedTiming {
    /// Accepted interval samples required for training.
    pub minimum_samples: u32,
    /// The longest initial silence allowed before any baseline exists.
    pub startup_grace: Duration,
    /// The smallest grace period used around the learned interval.
    pub minimum_grace: Duration,
    /// Bit pattern of the number of learned deviations accepted around the
    /// center.
    pub sensitivity_bits: u64,
    /// How the trusted model changes after training.
    pub adaptation: Adaptation,
    /// The statistical model used for learning.
    pub model: LearningModel,
}

impl Default for LearnedTiming {
    fn default() -> (t: LearnedTiming)
        ensures
            t.minimum_samples == 8,
            t.startup_grace@ == 30_000_000_000,
            t.minimum_grace@ == 10_000_000,
            t.sensitivity_bits == DEFAULT_SENSITIVITY_BITS,
            t.adaptation == Adaptation::Slow,
            t.model == LearningModel::Ewma,
    {
        LearnedTiming {
            minimum_samples: 8,
            startup_grace: Duration::from_secs(30),
            minimum_grace: Duration::from_millis(10),
            sensitivity_bits: DEFAULT_SENSITIVITY_BITS,
            adaptation: Adaptation::Slow,
            model: LearningModel::Ewma,
        }
    }
}

impl LearnedTiming {
    /// Sets the number of accepted interval samples required for training.
    pub fn with_minimum_samples(self, minimum_samples: u32) -> (t: LearnedTiming)
        ensures
            t == (LearnedTiming { minimum_samples, ..self }),
    {
        LearnedTiming { minimum_samples, ..self }
    }

    /// Sets the maximum initial silence allowed before any baseline exists.
    pub fn with_startup_grace(self, startup_grace: Duration) -> (t: LearnedTiming)
        ensures
            t == (LearnedTiming { startup_grace, ..self }),
    {
        LearnedTiming { startup_grace, ..self }
    }

    /// Sets the smallest grace period used around the learned interval.
    pub fn with_minimum_grace(self, minimum_grace: Duration) -> (t: LearnedTiming)
        ensures
            t == (LearnedTiming { minimum_grace, ..self }),
    {
        LearnedTiming { minimum_grace, ..self }
    }

    /// Sets the sensitivity from the bit pattern of an IEEE-754 double.
    pub fn with_sensitivity_bits(self, sensitivity_bits: u64) -> (t: LearnedTiming)
        ensures
            t == (LearnedTiming { sensitivity_bits, ..self }),
    {
        LearnedTiming { sensitivity_bits, ..self }
    }

    /// Sets how the trusted model changes after training.
    pub fn with_adaptation(self, adaptation: Adaptation) -> (t: LearnedTiming)
        ensures
            t == (LearnedTiming { adaptation, ..self }),
    {
        LearnedTiming { adaptation, ..self }
    }

    /// Selects the statistical model used for learning.
    pub fn with_model(self, model: LearningModel) -> (t: LearnedTiming)
        ensures
            t == (LearnedTiming { model, ..self }),
    {
        LearnedTiming { model, ..self }
    }

    /// Returns the minimum number of interval samples required for training.
    pub fn minimum_samples(self) -> (r: u32)
        ensures
            r == self.minimum_samples,
    {
        self.minimum_samples
    }

    /// Returns the configured adaptation policy.
    pub fn adaptation(self) -> (r: Adaptation)
        ensures
            r == self.adaptation,
    {
        self.adaptation
    }

    /// Returns the configured learning model.
    pub fn model(self) -> (r: LearningModel)
        ensures
            r == self.model,
    {
        self.model
    }

    /// Returns the bit pattern of the configured sensitivity.
    pub fn sensitivity_bits(self) -> (r: u64)
        ensures
            r == self.sensitivity_bits,
    {
        self.sensitivity_bits
    }
}

/// Timing policy used to determine a task's health.
#[derive(Clone, Copy, Debug, PartialEq, Eq, Structural)]
pub enum Timing {
    /// Use a caller-provided expected interval.
    Fixed(FixedTiming),
    /// Learn expected timing from healthy heartbeat observations.
    Learned(LearnedTiming),
}

impl Timing {
    /// Creates a fixed timing policy with no additional grace period.
    pub fn fixed(interval: Duration) -> (t: Timing)
        ensures
            t matches Timing::Fixed(f) && f.interval == interval && f.grace@ == 0,
    {
        Timing::Fixed(FixedTiming::new(interval))
    }

    /// Creates the default learned-frequency policy.
    pub fn learned() -> (t: Timing)
        ensures
            t matches Timing::Learned(l) && l.minimum_samples == 8 && l.startup_grace@
                == 30_000_000_000 && l.minimum_grace@ == 10_000_000 && l.sensitivity_bits
                == DEFAULT_SENSITIVITY_BITS && l.adaptation == Adaptation::Slow && l.model
                == LearningModel::Ewma,
    {
        Timing::Learned(LearnedTiming::default())
    }
}

/// Whether `c` is a Unicode `White_Space` character, the characters that
/// `char::is_whitespace` accepts.
pub open spec fn is_white_space_spec(c: char) -> bool {
    let n = c as u32;
    ||| 0x09 <= n <= 0x0D
    ||| n == 0x20
    ||| n == 0x85
    ||| n == 0xA0
    ||| n == 0x1680
    ||| 0x2000 <= n <= 0x200A
    ||| n == 0x2028
    ||| n == 0x2029
    ||| n == 0x202F
    ||| n == 0x205F
    ||| n == 0x3000
}

/// Whether every character of `s` is white space, that is, whether `s`
/// trims to the empty string.
pub open spec fn is_blank(s: Seq<char>) -> bool {
    forall|i: int| 0 <= i < s.len() ==> #[trigger] is_white_space_spec(s[i])
}

/// Whether a robust window capacity is an odd number from 5 through 31.
pub open spec fn robust_capacity_is_valid(capacity: u8) -> bool {
    5 <= capacity <= MAX_ROBUST_WINDOW && capacity % 2 == 1
}

/// The first problem found with a learned timing configuration, in the
/// order the checks are made.
pub open spec fn learned_timing_error(l: LearnedTiming) -> Option<ConfigError> {
    if l.minimum_samples < 2 {
        Some(ConfigError::TooFewLearningSamples)
    } else if l.startup_grace@ == 0 {
        Some(ConfigError::ZeroStartupGrace)
    } else if !sensitivity_is_valid(l.sensitivity_bits) {
        Some(ConfigError::InvalidSensitivity)
    } else {
        match l.model {
            LearningModel::Ewma => None,
            LearningModel::RobustWindow { capacity } => if robust_capacity_is_valid(capacity) {
                None
            } else {
                Some(ConfigError::InvalidRobustWindowCapacity)
            },
            LearningModel::RepeatingPattern(p) => if !(2 <= p.maximum_period
                <= MAX_PATTERN_PERIOD) {
                Some(ConfigError::InvalidPatternMaximumPeriod)
            } else if !(3 <= p.minimum_cycles <= MAX_PATTERN_CYCLES) {
                Some(ConfigError::InvalidPatternMinimumCycles)
            } else if !(1 <= p.tolerance_percent <= 50) {
                Some(ConfigError::InvalidPatternTolerance)
            } else if !(1 <= p.minimum_contrast_percent <= 100) {
                Some(ConfigError::InvalidPatternContrast)
            } else {
                None
            },
        }
    }
}

/// The first problem found with a task configuration, in the order the
/// checks are made; `None` for a valid configuration.
pub open spec fn config_error(c: TaskConfig) -> Option<ConfigError> {
    if is_blank(c.name@) {
        Some(ConfigError::EmptyName)
    } else if c.startup_grace matches Some(g) && g@ == 0 {
        Some(ConfigError::ZeroStartupGrace)
    } else {
        match c.timing {
            Timing::Fixed(f) => if f.interval@ == 0 {
                Some(ConfigError::ZeroInterval)
            } else {
                None
            },
            Timing::Learned(l) => learned_timing_error(l),
        }
    }
}

/// A blank name is refused before anything else, then a zero startup grace
/// override; a fixed timing is then refused exactly when its interval is
/// zero.
pub proof fn lemma_task_faults(c: TaskConfig)
    ensures
        is_blank(c.name@) ==> config_error(c) == Some(ConfigError::EmptyName),
        !is_blank(c.name@) && (c.startup_grace matches Some(g) && g@ == 0) ==> config_error(c)
            == Some(ConfigError::ZeroStartupGrace),
        !is_blank(c.name@) && !(c.startup_grace matches Some(g) && g@ == 0) && (c.timing matches Timing::Fixed(f)
            && f.interval@ == 0) ==> config_error(c) == Some(ConfigError::ZeroInterval),
        !is_blank(c.name@) && !(c.startup_grace matches Some(g) && g@ == 0) && (c.timing matches Timing::Fixed(f)
            && f.interval@ > 0) ==> config_error(c) is None,
{
}

/// Every accepted configuration is within the documented ranges: a name
/// that is not blank, no zero startup grace, a non-zero fixed interval, at
/// least two learning samples, a positive learned startup grace, a finite
/// positive sensitivity, an odd robust window of 5 through 31 samples, and a
/// pattern of 2 through 8 phases, 3 through 8 cycles, a tolerance of 1
/// through 50 percent and a contrast of 1 through 100 percent.
pub proof fn lemma_accepted_configurations_are_in_range(c: TaskConfig)
    requires
        config_error(c) is None,
    ensures
        !is_blank(c.name@),
        c.startup_grace matches Some(g) ==> g@ > 0,
        c.timing matches Timing::Fixed(f) ==> f.interval@ > 0,
        c.timing matches Timing::Learned(l) ==> {
            &&& l.minimum_samples >= 2
            &&& l.startup_grace@ > 0
            &&& 0 < l.sensitivity_bits < 0x7FF0_0000_0000_0000u64
            &&& l.model matches LearningModel::RobustWindow { capacity } ==> 5 <= capacity <= 31
                && capacity % 2 == 1
            &&& l.model matches LearningModel::RepeatingPattern(p) ==> {
                &&& 2 <= p.maximum_period <= 8
                &&& 3 <= p.minimum_cycles <= 8
                &&& 1 <= p.tolerance_percent <= 50
                &&& 1 <= p.minimum_contrast_percent <= 100
            }
        },
{
}

/// A learned configuration that is valid but for its model is refused for
/// the model's first bad setting, in the order period, cycles, tolerance,
/// contrast for a pattern, and accepted when every setting is in range.
pub proof fn lemma_model_faults(c: TaskConfig, l: LearnedTiming)
    requires
        !is_blank(c.name@),
        c.startup_grace matches Some(g) ==> g@ > 0,
        c.timing == Timing::Learned(l),
        l.minimum_samples >= 2,
        l.startup_grace@ > 0,
        0 < l.sensitivity_bits < 0x7FF0_0000_0000_0000u64,
    ensures
        l.model matches LearningModel::RobustWindow { capacity } ==> (config_error(c) is None
            <==> 5 <= capacity <= 31 && capacity % 2 == 1) && (config_error(c) is Some
            ==> config_error(c) == Some(ConfigError::InvalidRobustWindowCapacity)),
        l.model matches LearningModel::RepeatingPattern(p) ==> {
            &&& !(2 <= p.maximum_period <= 8) ==> config_error(c) == Some(
                ConfigError::InvalidPatternMaximumPeriod,
            )
            &&& 2 <= p.maximum_period <= 8 && !(3 <= p.minimum_cycles <= 8) ==> config_error(c)
                == Some(ConfigError::InvalidPatternMinimumCycles)
            &&& 2 <= p.maximum_period <= 8 && 3 <= p.minimum_cycles <= 8 && !(1
                <= p.tolerance_percent <= 50) ==> config_error(c) == Some(
                ConfigError::InvalidPatternTolerance,
            )
            &&& 2 <= p.maximum_period <= 8 && 3 <= p.minimum_cycles <= 8 && 1 <= p.tolerance_percent
                <= 50 && !(1 <= p.minimum_contrast_percent <= 100) ==> config_error(c) == Some(
                ConfigError::InvalidPatternContrast,
            )
            &&& 2 <= p.maximum_period <= 8 && 3 <= p.minimum_cycles <= 8 && 1 <= p.tolerance_percent
                <= 50 && 1 <= p.minimum_contrast_percent <= 100 ==> config_error(c) is None
        },
        (l.model is Ewma) ==> config_error(c) is None,
{
}

/// A learned configuration is refused for too few samples before anything
/// else about its timing, then for a zero startup grace, then for an
/// invalid sensitivity.
pub proof fn lemma_learned_timing_faults(c: TaskConfig, l: LearnedTiming)
    requires
        !is_blank(c.name@),
        c.startup_grace matches Some(g) ==> g@ > 0,
        c.timing == Timing::Learned(l),
    ensures
        l.minimum_samples < 2 ==> config_error(c) == Some(ConfigError::TooFewLearningSamples),
        l.minimum_samples >= 2 && l.startup_grace@ == 0 ==> config_error(c) == Some(
            ConfigError::ZeroStartupGrace,
        ),
        l.minimum_samples >= 2 && l.startup_grace@ > 0 && !(0 < l.sensitivity_bits
            < 0x7FF0_0000_0000_0000u64) ==> config_error(c) == Some(
            ConfigError::InvalidSensitivity,
        ),
{
}

/// Registration configuration for a monitored task.
#[derive(Clone, Debug, PartialEq, Eq)]
pub struct TaskConfig {
    /// The task's display name.
    pub name: String,
    /// The timing policy that decides the task's health.
    pub timing: Timing,
    /// How long the task may stay silent before its first beat, overriding
    /// the timing policy's own startup allowance.
    pub startup_grace: Option<Duration>,
}

impl TaskConfig {
    /// Creates a task configuration.
    pub fn new(name: &str, timing: Timing) -> (c: TaskConfig)
        ensures
            c.name@ == name@,
            c.timing == timing,
            c.startup_grace is None,
    {
        TaskConfig { name: name.to_string(), timing, startup_grace: None }
    }

    /// Overrides how long a task may remain silent before its first beat.
    pub fn with_startup_grace(self, startup_grace: Duration) -> (c: TaskConfig)
        ensures
            c.name == self.name,
            c.timing == self.timing,
            c.startup_grace == Some(startup_grace),
    {
        TaskConfig { startup_grace: Some(startup_grace), ..self }
    }

    /// Checks the configuration, reporting the first problem found.
    pub fn validate(&self) -> (r: Result<(), ConfigError>)
        ensures
            r == match config_error(*self) {
                None => Ok::<(), ConfigError>(()),
                Some(e) => Err(e),
            },
    {
        if name_is_blank(self.name.as_str()) {
            return Err(ConfigError::EmptyName);
        }
        if let Some(grace) = self.startup_grace {
            if grace.is_zero() {
                return Err(ConfigError::ZeroStartupGrace);
            }
        }
        match self.timing {
            Timing::Fixed(fixed) => {
                if fixed.interval.is_zero() {
                    return Err(ConfigError::ZeroInterval);
                }
            },
            Timing::Learned(learned) => {
                if learned.minimum_samples < 2 {
                    return Err(ConfigError::TooFewLearningSamples);
                }
                if learned.startup_grace.is_zero() {
                    return Err(ConfigError::ZeroStartupGrace);
                }
                if !(0 < learned.sensitivity_bits && learned.sensitivity_bits
                    < POSITIVE_INFINITY_BITS) {
                    return Err(ConfigError::InvalidSensitivity);
                }
                match learned.model {
                    LearningModel::Ewma => {},
                    LearningModel::RobustWindow { capacity } => {
                        if !(5 <= capacity && (capacity as usize) <= MAX_ROBUST_WINDOW
                            && capacity % 2 == 1) {
                            return Err(ConfigError::InvalidRobustWindowCapacity);
                        }
                    },
                    LearningModel::RepeatingPattern(pattern) => {
                        let maximum_period = pattern.maximum_period as usize;
                        let minimum_cycles = pattern.minimum_cycles as usize;
                        if !(2 <= maximum_period && maximum_period <= MAX_PATTERN_PERIOD) {
                            return Err(ConfigError::InvalidPatternMaximumPeriod);
                        }
                        if !(3 <= minimum_cycles && minimum_cycles <= MAX_PATTERN_CYCLES) {
                            return Err(ConfigError::InvalidPatternMinimumCycles);
                        }
                        if !(1 <= pattern.tolerance_percent && pattern.tolerance_percent <= 50) {
                            return Err(ConfigError::InvalidPatternTolerance);
                        }
                        if !(1 <= pattern.minimum_contrast_percent
                            && pattern.minimum_contrast_percent <= 100) {
                            return Err(ConfigError::InvalidPatternContrast);
                        }
                    },
                }
            },
        }
        Ok(())
    }

    /// The silence allowed before the first beat: the override when one is
    /// set, else the fixed deadline or the learned startup grace.
    pub open spec fn effective_startup_grace_spec(self) -> nat {
        match self.startup_grace {
            Some(g) => g@,
            None => match self.timing {
                Timing::Fixed(f) => f.deadline_spec(),
                Timing::Learned(l) => l.startup_grace@,
            },
        }
    }

    /// Returns how long the task may stay silent before its first beat.
    pub fn effective_startup_grace(&self) -> (d: Duration)
        ensures
            d@ == self.effective_startup_grace_spec(),
    {
        match self.startup_grace {
            Some(grace) => grace,
            None => match self.timing {
                Timing::Fixed(fixed) => fixed.deadline(),
                Timing::Learned(learned) => learned.startup_grace,
            },
        }
    }
}

/// Whether `c` is a Unicode `White_Space` character.
pub fn is_white_space(c: char) -> (b: bool)
    ensures
        b == is_white_space_spec(c),
{
    let n = c as u32;
    (0x09 <= n && n <= 0x0D) || n == 0x20 || n == 0x85 || n == 0xA0 || n == 0x1680 || (0x2000
        <= n && n <= 0x200A) || n == 0x2028 || n == 0x2029 || n == 0x202F || n == 0x205F || n
        == 0x3000
}

/// Whether `name` is empty once leading and trailing white space is trimmed.
pub fn name_is_blank(name: &str) -> (b: bool)
    ensures
        b == is_blank(name@),
{
    let mut blank = true;
    for c in it: name.chars()
        invariant
            it.seq() == name@,
            blank == (forall|i: int| 0 <= i < it.index() ==> #[trigger] is_white_space_spec(name@[i])),
    {
        if !is_white_space(c) {
            blank = false;
        }
    }
    blank
}

} // verus!
