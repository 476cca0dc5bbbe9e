//! Validation of replication parameters before any sampling begins.

use vstd::prelude::*;

verus! {

/// The reason a replication request was rejected before any sampling began.
///
/// A rejected configuration is fatal to the whole call: no trial is started
/// and no partial result is produced.
#[derive(Clone, Copy, Debug, PartialEq, Eq, Structural)]
pub enum ConfigError {
    /// The noise standard deviation was not strictly positive, so the
    /// per-step evidence distribution is undefined.
    NonPositiveSdrw,
    /// The decision criterion was not strictly positive, so there is no
    /// meaningful threshold to cross.
    NonPositiveCriterion,
    /// Zero trials were requested.
    ZeroReps,
    /// A zero per-trial sample budget was given.
    ZeroMaxSamples,
}

impl ConfigError {
    /// Names the parameter that violated its constraint.
    pub fn message(&self) -> (m: &'static str)
        ensures
            self is NonPositiveSdrw ==> m@ == "sdrw must be strictly positive"@,
            self is NonPositiveCriterion ==> m@ == "criterion must be strictly positive"@,
            self is ZeroReps ==> m@ == "num_reps must be at least 1"@,
            self is ZeroMaxSamples ==> m@ == "max_samples must be at least 1"@,
    {
        match self {
            ConfigError::NonPositiveSdrw => "sdrw must be strictly positive",
            ConfigError::NonPositiveCriterion => "criterion must be strictly positive",
            ConfigError::ZeroReps => "num_reps must be at least 1",
            ConfigError::ZeroMaxSamples => "max_samples must be at least 1",
        }
    }
}

/// What validation decides, as a function of the parameters.
///
/// The two real-valued parameters enter through the one fact the decision
/// reads of them: whether each is strictly positive.
pub open spec fn config_check(
    num_reps: usize,
    max_samples: usize,
    sdrw_positive: bool,
    criterion_positive: bool,
) -> Result<(), ConfigError> {
    if !sdrw_positive {
        Err(ConfigError::NonPositiveSdrw)
    } else if !criterion_positive {
        Err(ConfigError::NonPositiveCriterion)
    } else if num_reps == 0 {
        Err(ConfigError::ZeroReps)
    } else if max_samples == 0 {
        Err(ConfigError::ZeroMaxSamples)
    } else {
        Ok(())
    }
}

/// Validates a replication configuration before any sampling.
///
/// `sdrw_positive` and `criterion_positive` report whether the noise scale
/// and the criterion are strictly positive; the caller, who owns the real
/// values, computes the two comparisons. Zero `num_reps` or `max_samples`
/// fails fast here rather than yielding an empty successful result.
pub fn validate_config(
    num_reps: usize,
    max_samples: usize,
    sdrw_positive: bool,
    criterion_positive: bool,
) -> (r: Result<(), ConfigError>)
    ensures
        r == config_check(num_reps, max_samples, sdrw_positive, criterion_positive),
        r is Ok <==> (num_reps > 0 && max_samples > 0 && sdrw_positive && criterion_positive),
{
    if !sdrw_positive {
        Err(ConfigError::NonPositiveSdrw)
    } else if !criterion_positive {
        Err(ConfigError::NonPositiveCriterion)
    } else if num_reps == 0 {
        Err(ConfigError::ZeroReps)
    } else if max_samples == 0 {
        Err(ConfigError::ZeroMaxSamples)
    } else {
        Ok(())
    }
}

} // verus!
