use fsrs::deck::{Card, Deck};

#[test]
fn fresh_slots_start_unscheduled() {
    let deck = Deck::new(5, 30, &vec![]);
    assert_eq!(deck.num_cards(), 5);
    for i in 0..5 {
        assert_eq!(deck.due_at(i), 30);
        assert_eq!(deck.last_date_at(i), 0);
        assert_eq!(deck.interval_at(i), 0);
        assert!(!deck.learned_at(i));
    }
    // nothing is due on day zero; everything is up for a first learn
    let (need_review, need_learn) = deck.classify(0);
    assert_eq!(need_review, vec![false; 5]);
    assert_eq!(need_learn, vec![true; 5]);
}

#[test]
fn seeded_cards_fill_the_prefix() {
    let existing = vec![
        Card { due: 0, last_date: -5, learned: true },
        Card { due: 2, last_date: -2, learned: true },
    ];
    let deck = Deck::new(4, 30, &existing);
    assert_eq!(deck.due_at(0), 0);
    assert_eq!(deck.last_date_at(0), -5);
    assert!(deck.learned_at(0));
    assert_eq!(deck.due_at(1), 2);
    assert_eq!(deck.due_at(2), 30);
    assert!(!deck.learned_at(2));

    // on day zero only the first seeded card is due; the fresh tail is
    // learnable
    let (need_review, need_learn) = deck.classify(0);
    assert_eq!(need_review, vec![true, false, false, false]);
    assert_eq!(need_learn, vec![false, false, true, true]);

    // by day two the second seeded card has come due as well
    let (need_review, _) = deck.classify(2);
    assert_eq!(need_review, vec![true, true, false, false]);
}

#[test]
fn admitted_cards_are_rescheduled() {
    let mut deck = Deck::new(3, 30, &vec![]);
    let admit_review = vec![false, false, false];
    let admit_learn = vec![true, true, false];
    let candidates = vec![7, 40, 9];
    deck.apply_day(&admit_review, &admit_learn, &candidates, 4, 10);

    assert_eq!(deck.interval_at(0), 7);
    assert_eq!(deck.due_at(0), 11);
    assert_eq!(deck.last_date_at(0), 4);
    assert!(deck.learned_at(0));

    // the candidate 40 is clamped to the interval bound 10
    assert_eq!(deck.interval_at(1), 10);
    assert_eq!(deck.due_at(1), 14);

    // the card that was not admitted is untouched and stays eligible
    assert_eq!(deck.due_at(2), 30);
    assert_eq!(deck.interval_at(2), 0);
    assert!(!deck.learned_at(2));
}

#[test]
fn interval_candidates_are_clamped_upward() {
    let mut deck = Deck::new(2, 30, &vec![]);
    deck.apply_day(&vec![true, true], &vec![false, false], &vec![0, -3], 5, 10);
    // candidates below one day are raised to one
    assert_eq!(deck.interval_at(0), 1);
    assert_eq!(deck.due_at(0), 6);
    assert_eq!(deck.interval_at(1), 1);
    assert_eq!(deck.due_at(1), 6);
}

#[test]
fn deferred_card_stays_due() {
    // a due card that the budget defers is not rescheduled: it remains due
    // on every following day until admitted
    let existing = vec![Card { due: 1, last_date: 0, learned: true }];
    let mut deck = Deck::new(1, 30, &existing);
    let (need_review, _) = deck.classify(1);
    assert_eq!(need_review, vec![true]);
    deck.apply_day(&vec![false], &vec![false], &vec![0], 1, 10);
    let (need_review, _) = deck.classify(2);
    assert_eq!(need_review, vec![true]);
    assert_eq!(deck.due_at(0), 1);
}
