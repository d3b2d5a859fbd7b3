use random_numbers::binomial_distribution::{validate_binomial_params, BinomialError, BinomialParams};
use random_numbers::distributions::{from_seed_uniform, SampleDistribution};
use random_numbers::uniform_distribution::Uniform;
use random_numbers::RandomNumberAlgorithm;

#[test]
fn sample_uniform_boolean_test() {
    let mut uniform = Uniform::from_seed(RandomNumberAlgorithm::Xoshiro256SS, 0);

    let b: bool = uniform.sample();

    assert!(b);
}

#[test]
fn sample_matches_generator_draws() {
    let mut uniform = from_seed_uniform(None, 7);
    let mut shadow = random_numbers::from_seed(RandomNumberAlgorithm::Xoshiro256SS, 7);

    let sampled: u64 = uniform.sample();
    assert_eq!(sampled, shadow.next_u64());

    let sampled: u8 = uniform.sample();
    assert_eq!(sampled, shadow.next_u8());

    let sampled: i128 = uniform.sample();
    assert_eq!(sampled, shadow.next_i128());
}

#[test]
fn binomial_params_zero_trials_rejected() {
    assert_eq!(BinomialParams::new(0), Err(BinomialError::NumTrialsTooSmall));
}

#[test]
fn binomial_params_accepts_positive_trials() {
    assert_eq!(BinomialParams::new(20), Ok(BinomialParams { num_trials: 20 }));
}

#[test]
fn binomial_probability_out_of_range_rejected() {
    assert_eq!(
        validate_binomial_params(false, 20),
        Err(BinomialError::SuccessProbabiliyOutOfRange)
    );
}

#[test]
fn binomial_probability_checked_before_trials() {
    assert_eq!(
        validate_binomial_params(false, 0),
        Err(BinomialError::SuccessProbabiliyOutOfRange)
    );
    assert_eq!(validate_binomial_params(true, 0), Err(BinomialError::NumTrialsTooSmall));
    assert_eq!(validate_binomial_params(true, 1), Ok(BinomialParams { num_trials: 1 }));
}
