use fsrs::admission::plan_admission;
use fsrs::config::SimulatorConfig;

fn open_config() -> SimulatorConfig {
    SimulatorConfig {
        max_cost_perday: None,
        ..SimulatorConfig::default()
    }
}

#[test]
fn review_budget_cuts_off_prefix() {
    // three due cards at 100 each, budget 250: the third one would push the
    // running sum to 300, so only the first two are admitted
    let cfg = SimulatorConfig {
        max_cost_perday: Some(250),
        ..SimulatorConfig::default()
    };
    let need_review = vec![true, true, true];
    let need_learn = vec![false, false, false];
    let costs = vec![100u64, 100, 100];
    let plan = plan_admission(&need_review, &need_learn, &costs, &cfg);
    assert_eq!(plan.admit_review, vec![true, true, false]);
    assert_eq!(plan.admit_learn, vec![false, false, false]);
    assert_eq!(plan.review_count, 2);
    assert_eq!(plan.learn_count, 0);
    assert_eq!(plan.cost_total, 200);
}

#[test]
fn daily_spend_stays_within_budget() {
    // the reference budget admits fourteen forgotten reviews at 125 000 each:
    // 14 * 125 000 = 1 750 000 <= 1 800 000, and one more would overshoot
    let cfg = SimulatorConfig::default();
    let n = 30;
    let need_review = vec![true; n];
    let need_learn = vec![false; n];
    let costs = vec![cfg.forget_cost; n];
    let plan = plan_admission(&need_review, &need_learn, &costs, &cfg);
    assert_eq!(plan.review_count, 14);
    assert_eq!(plan.cost_total, 1_750_000);
    assert!(plan.cost_total <= 1_800_000);
    for (i, admitted) in plan.admit_review.iter().enumerate() {
        assert_eq!(*admitted, i < 14);
    }
}

#[test]
fn review_limit_counts_cards_walked() {
    // the review cap counts every due card walked, in index order
    let cfg = SimulatorConfig {
        review_limit: 2,
        ..open_config()
    };
    let need_review = vec![true, false, true, true];
    let need_learn = vec![false; 4];
    let costs = vec![10u64; 4];
    let plan = plan_admission(&need_review, &need_learn, &costs, &cfg);
    assert_eq!(plan.admit_review, vec![true, false, true, false]);
    assert_eq!(plan.review_count, 2);
}

#[test]
fn learn_count_fills_the_limit() {
    // a backlog of 100 unlearned cards and an unlimited budget: exactly
    // learn_limit cards are learned, the earliest slots first
    let cfg = SimulatorConfig {
        learn_limit: 60,
        ..open_config()
    };
    let n = 100;
    let need_review = vec![false; n];
    let need_learn = vec![true; n];
    let costs = vec![0u64; n];
    let plan = plan_admission(&need_review, &need_learn, &costs, &cfg);
    assert_eq!(plan.learn_count, 60);
    for (i, admitted) in plan.admit_learn.iter().enumerate() {
        assert_eq!(*admitted, i < 60);
    }
    assert_eq!(plan.cost_total, 60 * cfg.learn_cost as u128);
}

#[test]
fn learn_backlog_smaller_than_limit() {
    let cfg = SimulatorConfig {
        learn_limit: 60,
        ..open_config()
    };
    let need_review = vec![false; 10];
    let need_learn = vec![true; 10];
    let costs = vec![0u64; 10];
    let plan = plan_admission(&need_review, &need_learn, &costs, &cfg);
    assert_eq!(plan.learn_count, 10);
}

#[test]
fn learn_sweep_shares_the_cost_pool() {
    // the learn sweep runs over a cost array that already carries every due
    // review's cost, admitted or not: with budget 150, reviews at 100 + 100
    // (only the first admitted) still push the learn slot's running sum to
    // 230, so the learn is refused even though only 100 was actually spent
    let cfg = SimulatorConfig {
        max_cost_perday: Some(150),
        learn_cost: 30,
        ..SimulatorConfig::default()
    };
    let need_review = vec![true, true, false];
    let need_learn = vec![false, false, true];
    let costs = vec![100u64, 100, 0];
    let plan = plan_admission(&need_review, &need_learn, &costs, &cfg);
    assert_eq!(plan.admit_review, vec![true, false, false]);
    assert_eq!(plan.admit_learn, vec![false, false, false]);
    assert_eq!(plan.cost_total, 100);
}

#[test]
fn unlimited_budget_admits_every_due_card() {
    let cfg = open_config();
    let need_review = vec![true, false, true];
    let need_learn = vec![false, true, false];
    let costs = vec![1_000_000u64, 0, 9_999_999];
    let plan = plan_admission(&need_review, &need_learn, &costs, &cfg);
    assert_eq!(plan.admit_review, vec![true, false, true]);
    assert_eq!(plan.admit_learn, vec![false, true, false]);
    assert_eq!(plan.review_count, 2);
    assert_eq!(plan.learn_count, 1);
    assert_eq!(plan.cost_total, 1_000_000 + 9_999_999 + cfg.learn_cost as u128);
}

#[test]
fn empty_deck_plans_nothing() {
    let cfg = SimulatorConfig::default();
    let plan = plan_admission(&vec![], &vec![], &vec![], &cfg);
    assert_eq!(plan.review_count, 0);
    assert_eq!(plan.learn_count, 0);
    assert_eq!(plan.cost_total, 0);
    assert!(plan.admit_review.is_empty());
    assert!(plan.admit_learn.is_empty());
}
