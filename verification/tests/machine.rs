use driftwalk::config::{validate_config, ConfigError};
use driftwalk::trial::{Region, StepVerdict, Trial, TrialOutcome};

/// Drives one trial over a fixed, pre-classified sample stream, mirroring
/// how a sampling loop feeds the machine: one region per step, stopping the
/// moment the machine decides. Panics if the stream runs out first.
fn run_fixed(regions: &[Region], max_samples: usize) -> Option<TrialOutcome> {
    let mut trial = Trial::new(max_samples);
    for &r in regions {
        match trial.observe(r) {
            StepVerdict::Continue(next) => trial = next,
            StepVerdict::Crossed(outcome) => return Some(outcome),
            StepVerdict::Exhausted => return None,
        }
    }
    panic!("fixed stream ended before the trial decided");
}

fn assert_outcome_shape(o: &TrialOutcome) {
    assert_eq!(o.trace.len(), o.latency + 1);
    assert!(o.trace[o.latency] != Region::Within);
    assert_eq!(o.response, o.trace[o.latency] == Region::Above);
    for j in 0..o.latency {
        assert_eq!(o.trace[j], Region::Within);
    }
}

#[test]
fn validate_rejects_nonpositive_sdrw() {
    let r = validate_config(5, 5, false, true);
    assert_eq!(r, Err(ConfigError::NonPositiveSdrw));
    assert_eq!(
        ConfigError::NonPositiveSdrw.message(),
        "sdrw must be strictly positive"
    );
}

#[test]
fn validate_rejects_nonpositive_criterion() {
    let r = validate_config(5, 5, true, false);
    assert_eq!(r, Err(ConfigError::NonPositiveCriterion));
    assert_eq!(
        ConfigError::NonPositiveCriterion.message(),
        "criterion must be strictly positive"
    );
}

#[test]
fn validate_rejects_zero_reps() {
    let r = validate_config(0, 5, true, true);
    assert_eq!(r, Err(ConfigError::ZeroReps));
    assert_eq!(ConfigError::ZeroReps.message(), "num_reps must be at least 1");
}

#[test]
fn validate_rejects_zero_max_samples() {
    let r = validate_config(5, 0, true, true);
    assert_eq!(r, Err(ConfigError::ZeroMaxSamples));
    assert_eq!(
        ConfigError::ZeroMaxSamples.message(),
        "max_samples must be at least 1"
    );
}

#[test]
fn validate_reports_sdrw_first() {
    // Every parameter is bad at once; the noise scale is reported.
    let r = validate_config(0, 0, false, false);
    assert_eq!(r, Err(ConfigError::NonPositiveSdrw));
}

#[test]
fn validate_accepts_valid_config() {
    assert_eq!(validate_config(1, 1, true, true), Ok(()));
    assert_eq!(validate_config(1000, 10000, true, true), Ok(()));
}

#[test]
fn crossing_at_first_sample_is_latency_zero() {
    let o = run_fixed(&[Region::Above], 5).expect("first step crosses");
    assert_eq!(o.latency, 0);
    assert!(o.response);
    assert_eq!(o.trace, vec![Region::Above]);
    assert_outcome_shape(&o);
}

#[test]
fn negative_crossing_gives_false_response() {
    let o = run_fixed(&[Region::Within, Region::Below], 5).expect("second step crosses");
    assert_eq!(o.latency, 1);
    assert!(!o.response);
    assert_eq!(o.trace, vec![Region::Within, Region::Below]);
    assert_outcome_shape(&o);
}

#[test]
fn walk_stops_at_first_crossing() {
    // Regions after the first crossing are never consumed.
    let stream = [
        Region::Within,
        Region::Within,
        Region::Above,
        Region::Below,
        Region::Above,
    ];
    let o = run_fixed(&stream, 5).expect("third step crosses");
    assert_eq!(o.latency, 2);
    assert!(o.response);
    assert_eq!(o.trace.len(), 3);
    assert_outcome_shape(&o);
}

#[test]
fn budget_exhaustion_abandons_trial() {
    let stream = [Region::Within, Region::Within, Region::Within];
    assert!(run_fixed(&stream, 3).is_none());
}

#[test]
fn crossing_on_last_budgeted_sample_completes() {
    let stream = [Region::Within, Region::Within, Region::Above];
    let o = run_fixed(&stream, 3).expect("crossing on the last allowed step");
    assert_eq!(o.latency, 2);
    assert!(o.latency < 3);
    assert_outcome_shape(&o);
}

#[test]
fn larger_budget_keeps_decided_trials() {
    // One fixed sample stream: a trial decided under a small budget is
    // decided identically under every larger budget.
    let stream = [
        Region::Within,
        Region::Within,
        Region::Within,
        Region::Below,
        Region::Within,
        Region::Within,
    ];
    let small = run_fixed(&stream, 4).expect("crosses at step 3");
    for budget in 5..=6 {
        let large = run_fixed(&stream, budget).expect("still crosses");
        assert_eq!(large.latency, small.latency);
        assert_eq!(large.response, small.response);
        assert_eq!(large.trace, small.trace);
    }
    // Under a budget too small for the crossing the trial is abandoned.
    assert!(run_fixed(&stream[..3], 3).is_none());
}

#[test]
fn rerun_yields_same_shape() {
    let stream = [Region::Within, Region::Above];
    let first = run_fixed(&stream, 8).expect("crosses");
    let second = run_fixed(&stream, 8).expect("crosses");
    assert_outcome_shape(&first);
    assert_outcome_shape(&second);
    assert_eq!(first.latency, second.latency);
    assert_eq!(first.response, second.response);
    assert_eq!(first.trace, second.trace);
}
