use fsrs::config::SimulatorConfig;
use fsrs::progress::ItemProgress;
use fsrs::sampling::{sample_seed, DEFAULT_SEED, SAMPLE_SIZE};
use fsrs::{check_parameter_count, FSRSError, PARAMETER_COUNT};

#[test]
fn parameter_count_is_validated() {
    // empty stands for the defaults, a full vector is accepted, and every
    // other length is rejected before anything runs
    assert!(check_parameter_count(0).is_ok());
    assert!(check_parameter_count(PARAMETER_COUNT).is_ok());
    assert_eq!(check_parameter_count(1), Err(FSRSError::InvalidParameters));
    assert_eq!(check_parameter_count(18), Err(FSRSError::InvalidParameters));
}

#[test]
fn progress_counts_steps() {
    let mut progress = ItemProgress::new(0);
    assert_eq!(progress.current, 0);
    assert_eq!(progress.total, 0);
    progress.step();
    progress.step();
    assert_eq!(progress.current, 2);
    assert_eq!(progress.total, 0);
}

#[test]
fn repeat_seeds_are_deterministic_offsets() {
    assert_eq!(SAMPLE_SIZE, 4);
    assert_eq!(DEFAULT_SEED, 42);
    assert_eq!(sample_seed(0), 42);
    assert_eq!(sample_seed(3), 45);
}

#[test]
fn default_config_matches_reference() {
    let cfg = SimulatorConfig::default();
    assert_eq!(cfg.deck_size, 10000);
    assert_eq!(cfg.learn_span, 365);
    assert_eq!(cfg.max_cost_perday, Some(1_800_000));
    assert_eq!(cfg.max_ivl, 36500);
    assert_eq!(cfg.recall_costs, [14_000, 10_000, 6_000]);
    assert_eq!(cfg.forget_cost, 125_000);
    assert_eq!(cfg.learn_cost, 20_000);
    assert_eq!(cfg.learn_limit, usize::MAX);
    assert_eq!(cfg.review_limit, usize::MAX);
}

#[test]
fn review_cost_follows_the_outcome() {
    let cfg = SimulatorConfig::default();
    // a forgotten card costs the loss-averse forget cost, whatever rating
    // slot would have applied; recalled cards cost by rating
    assert_eq!(cfg.review_cost(true, 2), 125_000);
    assert_eq!(cfg.review_cost(true, 4), 125_000);
    assert_eq!(cfg.review_cost(false, 2), 14_000);
    assert_eq!(cfg.review_cost(false, 3), 10_000);
    assert_eq!(cfg.review_cost(false, 4), 6_000);
}
