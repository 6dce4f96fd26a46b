use vstd::prelude::*;
use vstd::string::*;

verus! {

/// A task configuration error.
#[derive(Clone, Copy, Debug, PartialEq, Eq, Structural)]
pub enum ConfigError {
    EmptyName,
    ZeroInterval,
    ZeroStartupGrace,
    TooFewLearningSamples,
    InvalidSensitivity,
    InvalidRobustWindowCapacity,
    InvalidPatternMaximumPeriod,
    InvalidPatternMinimumCycles,
    InvalidPatternTolerance,
    InvalidPatternContrast,
}

impl ConfigError {
    /// The human-readable description of the error.
    pub open spec fn message_spec(self) -> Seq<char> {
        match self {
            ConfigError::EmptyName => "task name cannot be empty"@,
            ConfigError::ZeroInterval => "fixed interval cannot be zero"@,
            ConfigError::ZeroStartupGrace => "startup grace cannot be zero"@,
            ConfigError::TooFewLearningSamples => "learned timing requires at least two interval samples"@,
            ConfigError::InvalidSensitivity => "learned timing sensitivity must be finite and positive"@,
            ConfigError::InvalidRobustWindowCapacity => "robust learning window capacity must be an odd number from 5 through 31"@,
            ConfigError::InvalidPatternMaximumPeriod => "pattern maximum period must be from 2 through 8"@,
            ConfigError::InvalidPatternMinimumCycles => "pattern minimum cycles must be from 3 through 8"@,
            ConfigError::InvalidPatternTolerance => "pattern tolerance must be from 1 through 50 percent"@,
            ConfigError::InvalidPatternContrast => "pattern minimum contrast must be from 1 through 100 percent"@,
        }
    }

    /// Returns the human-readable description of the error.
    pub fn message(&self) -> (text: &'static str)
        ensures
            text@ == self.message_spec(),
    {
        match self {
            ConfigError::EmptyName => "task name cannot be empty",
            ConfigError::ZeroInterval => "fixed interval cannot be zero",
            ConfigError::ZeroStartupGrace => "startup grace cannot be zero",
            ConfigError::TooFewLearningSamples => "learned timing requires at least two interval samples",
            ConfigError::InvalidSensitivity => "learned timing sensitivity must be finite and positive",
            ConfigError::InvalidRobustWindowCapacity => "robust learning window capacity must be an odd number from 5 through 31",
            ConfigError::InvalidPatternMaximumPeriod => "pattern maximum period must be from 2 through 8",
            ConfigError::InvalidPatternMinimumCycles => "pattern minimum cycles must be from 3 through 8",
            ConfigError::InvalidPatternTolerance => "pattern tolerance must be from 1 through 50 percent",
            ConfigError::InvalidPatternContrast => "pattern minimum contrast must be from 1 through 100 percent",
        }
    }
}

/// A task registration error.
#[derive(Clone, Copy, Debug, PartialEq, Eq, Structural)]
pub enum RegisterError {
    /// The configuration was refused for the given reason.
    InvalidConfig(ConfigError),
    /// Every task identifier has been allocated.
    IdSpaceExhausted,
}

impl From<ConfigError> for RegisterError {
    fn from(error: ConfigError) -> (r: RegisterError)
        ensures
            r == RegisterError::InvalidConfig(error),
    {
        RegisterError::InvalidConfig(error)
    }
}

impl vstd::std_specs::convert::FromSpecImpl<ConfigError> for RegisterError {
    open spec fn obeys_from_spec() -> bool {
        true
    }

    open spec fn from_spec(v: ConfigError) -> RegisterError {
        RegisterError::InvalidConfig(v)
    }
}

impl RegisterError {
    /// The human-readable description of the error; a refused configuration
    /// is described after a common prefix.
    pub open spec fn message_spec(self) -> Seq<char> {
        match self {
            RegisterError::InvalidConfig(error) => "invalid task configuration: "@
                + error.message_spec(),
            RegisterError::IdSpaceExhausted => "task ID space exhausted"@,
        }
    }

    /// Returns the human-readable description of the error.
    pub fn message(&self) -> (text: String)
        ensures
            text@ == self.message_spec(),
    {
        match self {
            RegisterError::InvalidConfig(error) => {
                let prefix = String::from_str("invalid task configuration: ");
                prefix.concat(error.message())
            },
            RegisterError::IdSpaceExhausted => String::from_str("task ID space exhausted"),
        }
    }
}

/// Returned when a learned task cannot be retrained.
#[derive(Clone, Copy, Debug, PartialEq, Eq, Structural)]
pub enum RetrainError {
    /// No retained task exists for the supplied identifier.
    UnknownTask,
    /// Fixed timing has no learned baseline to reset.
    FixedTiming,
    /// Stopped tasks cannot re-enter learning.
    Stopped,
}

impl RetrainError {
    /// The human-readable description of the error.
    pub open spec fn message_spec(self) -> Seq<char> {
        match self {
            RetrainError::UnknownTask => "task is not registered"@,
            RetrainError::FixedTiming => "fixed timing cannot be retrained"@,
            RetrainError::Stopped => "stopped task cannot be retrained"@,
        }
    }

    /// Returns the human-readable description of the error.
    pub fn message(&self) -> (text: &'static str)
        ensures
            text@ == self.message_spec(),
    {
        match self {
            RetrainError::UnknownTask => "task is not registered",
            RetrainError::FixedTiming => "fixed timing cannot be retrained",
            RetrainError::Stopped => "stopped task cannot be retrained",
        }
    }
}

/// Returned when a heartbeat is sent after a task has stopped.
#[derive(Clone, Copy, Debug, PartialEq, Eq, Structural)]
pub struct StoppedError;

impl StoppedError {
    /// The human-readable description of the error.
    pub open spec fn message_spec(self) -> Seq<char> {
        "task has stopped"@
    }

    /// Returns the human-readable description of the error.
    pub fn message(&self) -> (text: &'static str)
        ensures
            text@ == self.message_spec(),
    {
        "task has stopped"
    }
}

} // verus!
