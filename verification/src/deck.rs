//! The deck: per-card scheduling state, advanced one day at a time.
//!
//! A card's memory strength lives with the caller; the deck keeps what the
//! day loop decides on: when each card is due, when it was last touched, its
//! scheduled interval, and whether it has ever been learned. Unseeded slots
//! carry the horizon itself as their due day, so they only ever qualify as
//! first-time learns.

use vstd::prelude::*;

verus! {

/// Bound on day numbers (horizons, intervals, due days) that keeps all day
/// arithmetic comfortably inside `i64`.
pub const MAX_DAY: u64 = 0x1_0000_0000;

/// The scheduling state a pre-existing card is seeded with. Day numbers may
/// be negative: a card last reviewed before the simulation starts has a
/// negative `last_date`. `learned` says whether the card already carries a
/// positive memory strength.
#[derive(Clone, Copy, Debug, PartialEq, Eq, Structural)]
pub struct Card {
    pub due: i64,
    pub last_date: i64,
    pub learned: bool,
}

/// Scheduling state of a whole deck, kept as dense parallel columns so the
/// day loop can sweep them in index order. Index order is also admission
/// priority order.
pub struct Deck {
    horizon: i64,
    due: Vec<i64>,
    last_date: Vec<i64>,
    interval: Vec<i64>,
    learned: Vec<bool>,
}

/// An interval candidate forced into the legal range `[1, max_ivl]`.
pub open spec fn clamp_interval(candidate: int, max_ivl: int) -> int {
    if candidate < 1 {
        1
    } else if candidate > max_ivl {
        max_ivl
    } else {
        candidate
    }
}

/// LAW: the clamp keeps every scheduled interval within `[1, max_ivl]`,
/// whatever candidate the memory model proposes, on every simulated day.
pub proof fn lemma_clamped_interval_in_range(candidate: int, max_ivl: int)
    requires
        1 <= max_ivl,
    ensures
        1 <= clamp_interval(candidate, max_ivl) <= max_ivl,
{
}

impl Deck {
    /// The final simulated day; slots due exactly then are unscheduled.
    pub closed spec fn horizon(self) -> i64 {
        self.horizon
    }

    /// Due day of each card.
    pub closed spec fn dues(self) -> Seq<i64> {
        self.due@
    }

    /// Day each card was last reviewed or learned.
    pub closed spec fn last_dates(self) -> Seq<i64> {
        self.last_date@
    }

    /// Scheduled interval of each card, zero until first scheduled.
    pub closed spec fn intervals(self) -> Seq<i64> {
        self.interval@
    }

    /// Whether each card has ever been learned.
    pub closed spec fn learned_flags(self) -> Seq<bool> {
        self.learned@
    }

    /// Number of card slots.
    pub open spec fn len(self) -> nat {
        self.dues().len()
    }

    /// The columns agree in length and the horizon is a valid day number.
    pub open spec fn wf(self) -> bool {
        &&& self.last_dates().len() == self.len()
        &&& self.intervals().len() == self.len()
        &&& self.learned_flags().len() == self.len()
        &&& 0 <= self.horizon() <= MAX_DAY
    }

    /// Builds a deck of `deck_size` slots. The first slots take the seeded
    /// cards as they are; every remaining slot starts unlearned, due on the
    /// horizon so it only qualifies as a first-time learn.
    pub fn new(deck_size: usize, horizon: i64, existing: &Vec<Card>) -> (d: Deck)
        requires
            existing@.len() <= deck_size,
            0 <= horizon <= MAX_DAY,
        ensures
            d.wf(),
            d.len() == deck_size,
            d.horizon() == horizon,
            forall|k: int|
                0 <= k < existing@.len() ==> {
                    &&& d.dues()[k] == existing@[k].due
                    &&& d.last_dates()[k] == existing@[k].last_date
                    &&& d.learned_flags()[k] == existing@[k].learned
                },
            forall|k: int|
                existing@.len() <= k < deck_size ==> {
                    &&& d.dues()[k] == horizon
                    &&& d.last_dates()[k] == 0i64
                    &&& !d.learned_flags()[k]
                },
            forall|k: int| 0 <= k < deck_size ==> d.intervals()[k] == 0i64,
    {
        let mut due: Vec<i64> = Vec::new();
        let mut last_date: Vec<i64> = Vec::new();
        let mut interval: Vec<i64> = Vec::new();
        let mut learned: Vec<bool> = Vec::new();
        let mut i: usize = 0;
        while i < deck_size
            invariant
                i <= deck_size,
                existing@.len() <= deck_size,
                due@.len() == i,
                last_date@.len() == i,
                interval@.len() == i,
                learned@.len() == i,
                forall|k: int|
                    0 <= k < i && k < existing@.len() ==> {
                        &&& due@[k] == existing@[k].due
                        &&& last_date@[k] == existing@[k].last_date
                        &&& learned@[k] == existing@[k].learned
                    },
                forall|k: int|
                    existing@.len() <= k < i ==> {
                        &&& due@[k] == horizon
                        &&& last_date@[k] == 0i64
                        &&& !learned@[k]
                    },
                forall|k: int| 0 <= k < i ==> interval@[k] == 0i64,
            decreases deck_size - i,
        {
            if i < existing.len() {
                due.push(existing[i].due);
                last_date.push(existing[i].last_date);
                learned.push(existing[i].learned);
            } else {
                due.push(horizon);
                last_date.push(0);
                learned.push(false);
            }
            interval.push(0);
            i += 1;
        }
        Deck { horizon, due, last_date, interval, learned }
    }

    /// Splits the deck into today's two eligible classes, in the fixed
    /// priority order of the day loop: a card is up for review when its due
    /// day has arrived, and up for a first learn when its due day is the
    /// horizon sentinel. Everything else is left alone today.
    pub fn classify(&self, today: i64) -> (r: (Vec<bool>, Vec<bool>))
        requires
            self.wf(),
        ensures
            r.0@.len() == self.len(),
            r.1@.len() == self.len(),
            forall|k: int| 0 <= k < self.len() ==> r.0@[k] == (self.dues()[k] <= today),
            forall|k: int| 0 <= k < self.len() ==> r.1@[k] == (self.dues()[k] == self.horizon()),
    {
        let n = self.due.len();
        let mut need_review: Vec<bool> = Vec::new();
        let mut need_learn: Vec<bool> = Vec::new();
        let mut i: usize = 0;
        while i < n
            invariant
                i <= n,
                n == self.len(),
                self.wf(),
                need_review@.len() == i,
                need_learn@.len() == i,
                forall|k: int| 0 <= k < i ==> need_review@[k] == (self.dues()[k] <= today),
                forall|k: int| 0 <= k < i ==> need_learn@[k] == (self.dues()[k] == self.horizon()),
            decreases n - i,
        {
            need_review.push(self.due[i] <= today);
            need_learn.push(self.due[i] == self.horizon);
            i += 1;
        }
        (need_review, need_learn)
    }

    /// Reschedules every card admitted today: its interval becomes the
    /// caller's candidate clamped to `[1, max_ivl]`, it falls due that many
    /// days from today, today becomes its last review day, and it counts as
    /// learned from now on. Cards not admitted are untouched, so a deferred
    /// due card stays eligible tomorrow.
    pub fn apply_day(
        &mut self,
        admit_review: &Vec<bool>,
        admit_learn: &Vec<bool>,
        ivl_candidate: &Vec<i64>,
        today: i64,
        max_ivl: i64,
    )
        requires
            old(self).wf(),
            admit_review@.len() == old(self).len(),
            admit_learn@.len() == old(self).len(),
            ivl_candidate@.len() == old(self).len(),
            0 <= today <= MAX_DAY,
            1 <= max_ivl <= MAX_DAY,
        ensures
            final(self).wf(),
            final(self).len() == old(self).len(),
            final(self).horizon() == old(self).horizon(),
            forall|k: int|
                0 <= k < old(self).len() && (admit_review@[k] || admit_learn@[k]) ==> {
                    &&& final(self).intervals()[k] == clamp_interval(
                        ivl_candidate@[k] as int,
                        max_ivl as int,
                    )
                    &&& final(self).dues()[k] == today + clamp_interval(
                        ivl_candidate@[k] as int,
                        max_ivl as int,
                    )
                    &&& final(self).last_dates()[k] == today
                    &&& final(self).learned_flags()[k]
                },
            forall|k: int|
                0 <= k < old(self).len() && !(admit_review@[k] || admit_learn@[k]) ==> {
                    &&& final(self).intervals()[k] == old(self).intervals()[k]
                    &&& final(self).dues()[k] == old(self).dues()[k]
                    &&& final(self).last_dates()[k] == old(self).last_dates()[k]
                    &&& final(self).learned_flags()[k] == old(self).learned_flags()[k]
                },
    {
        let ghost odue = self.due@;
        let ghost olast = self.last_date@;
        let ghost oivl = self.interval@;
        let ghost olearned = self.learned@;
        let n = self.due.len();
        let mut i: usize = 0;
        while i < n
            invariant
                i <= n,
                n == self.due@.len(),
                self.due@.len() == odue.len(),
                self.last_date@.len() == olast.len(),
                self.interval@.len() == oivl.len(),
                self.learned@.len() == olearned.len(),
                odue.len() == n,
                olast.len() == n,
                oivl.len() == n,
                olearned.len() == n,
                admit_review@.len() == n,
                admit_learn@.len() == n,
                ivl_candidate@.len() == n,
                0 <= today <= MAX_DAY,
                1 <= max_ivl <= MAX_DAY,
                self.horizon == old(self).horizon,
                forall|k: int|
                    0 <= k < i && (admit_review@[k] || admit_learn@[k]) ==> {
                        &&& self.interval@[k] == clamp_interval(
                            ivl_candidate@[k] as int,
                            max_ivl as int,
                        )
                        &&& self.due@[k] == today + clamp_interval(
                            ivl_candidate@[k] as int,
                            max_ivl as int,
                        )
                        &&& self.last_date@[k] == today
                        &&& self.learned@[k]
                    },
                forall|k: int|
                    (i <= k < n || (0 <= k < i && !(admit_review@[k] || admit_learn@[k]))) ==> {
                        &&& self.interval@[k] == oivl[k]
                        &&& self.due@[k] == odue[k]
                        &&& self.last_date@[k] == olast[k]
                        &&& self.learned@[k] == olearned[k]
                    },
            decreases n - i,
        {
            if admit_review[i] || admit_learn[i] {
                let candidate = ivl_candidate[i];
                let ivl = if candidate < 1 {
                    1
                } else if candidate > max_ivl {
                    max_ivl
                } else {
                    candidate
                };
                self.interval.set(i, ivl);
                self.due.set(i, today + ivl);
                self.last_date.set(i, today);
                self.learned.set(i, true);
            }
            i += 1;
        }
    }

    /// Number of card slots.
    pub fn num_cards(&self) -> (n: usize)
        ensures
            n == self.len(),
    {
        self.due.len()
    }

    /// Due day of one card.
    pub fn due_at(&self, i: usize) -> (v: i64)
        requires
            self.wf(),
            i < self.len(),
        ensures
            v == self.dues()[i as int],
    {
        self.due[i]
    }

    /// Last review day of one card.
    pub fn last_date_at(&self, i: usize) -> (v: i64)
        requires
            self.wf(),
            i < self.len(),
        ensures
            v == self.last_dates()[i as int],
    {
        self.last_date[i]
    }

    /// Scheduled interval of one card.
    pub fn interval_at(&self, i: usize) -> (v: i64)
        requires
            self.wf(),
            i < self.len(),
        ensures
            v == self.intervals()[i as int],
    {
        self.interval[i]
    }

    /// Whether one card has ever been learned.
    pub fn learned_at(&self, i: usize) -> (v: bool)
        requires
            self.wf(),
            i < self.len(),
        ensures
            v == self.learned_flags()[i as int],
    {
        self.learned[i]
    }
}

} // verus!
