//! Parameters and validation of the binomial distribution.
//!
//! The distribution itself samples Bernoulli trials from double-width
//! uniform draws and evaluates its probability mass in log space; both are
//! floating-point work and live with the crate's embedding. The integer
//! parameters and the validation rules are here: a success probability
//! outside [0, 1] and a trial count of zero are rejected at construction
//! with a distinguishable error rather than silently producing nonsensical
//! probabilities.

use vstd::prelude::*;

use crate::distributions::DistributionParams;

verus! {

/// Parameters of one binomial query: how many Bernoulli trials are run.
#[derive(Clone, Copy, Debug, PartialEq, Eq, Structural)]
pub struct BinomialParams {
    pub num_trials: u64,
}

impl DistributionParams for BinomialParams {

}

/// The ways binomial parameters can be rejected.
#[derive(Clone, Copy, Debug, PartialEq, Eq, Structural)]
pub enum BinomialError {
    SuccessProbabiliyOutOfRange,
    NumTrialsTooSmall,
}

impl BinomialParams {
    /// Accepts a trial count if and only if at least one trial is run: a
    /// binomial distribution over zero trials has no outcome to weigh.
    pub fn new(num_trials: u64) -> (r: Result<BinomialParams, BinomialError>)
        ensures
            num_trials == 0 ==> r == Err::<BinomialParams, BinomialError>(
                BinomialError::NumTrialsTooSmall,
            ),
            num_trials > 0 ==> r == Ok::<BinomialParams, BinomialError>(
                (BinomialParams { num_trials }),
            ),
    {
        if num_trials == 0 {
            Err(BinomialError::NumTrialsTooSmall)
        } else {
            Ok(BinomialParams { num_trials })
        }
    }
}

/// Validates a binomial construction. The caller reports whether the
/// success probability lies inside [0, 1] — that scale is a floating-point
/// value this crate does not hold itself — and an out-of-range probability
/// is rejected first; a trial count of zero is rejected next; anything else
/// is accepted, if and only if.
pub fn validate_binomial_params(success_probability_in_range: bool, num_trials: u64) -> (r: Result<
    BinomialParams,
    BinomialError,
>)
    ensures
        !success_probability_in_range ==> r == Err::<BinomialParams, BinomialError>(
            BinomialError::SuccessProbabiliyOutOfRange,
        ),
        success_probability_in_range && num_trials == 0 ==> r == Err::<
            BinomialParams,
            BinomialError,
        >(BinomialError::NumTrialsTooSmall),
        success_probability_in_range && num_trials > 0 ==> r == Ok::<BinomialParams, BinomialError>(
            (BinomialParams { num_trials }),
        ),
{
    if !success_probability_in_range {
        Err(BinomialError::SuccessProbabiliyOutOfRange)
    } else {
        BinomialParams::new(num_trials)
    }
}

} // verus!
