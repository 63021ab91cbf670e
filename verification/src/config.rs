//! Configuration of one simulation run.

use vstd::prelude::*;

verus! {

/// The immutable settings of a simulation run.
///
/// All review costs are whole numbers of milliseconds, so a day's budget
/// arithmetic is exact. `forget_cost` is the cost of a failed review with the
/// caller's loss-aversion multiplier already applied. A `max_cost_perday` of
/// `None` leaves the daily time budget unlimited, and a limit of
/// `usize::MAX` effectively removes the matching per-day count cap.
#[derive(Clone, Debug)]
pub struct SimulatorConfig {
    /// Number of card slots in the deck.
    pub deck_size: usize,
    /// Number of simulated days.
    pub learn_span: usize,
    /// Daily budget for the combined cost of admitted reviews and learns.
    pub max_cost_perday: Option<u64>,
    /// Upper bound, in days, of a scheduled interval.
    pub max_ivl: i64,
    /// Cost of a successful review, by rating: hard, good, easy.
    pub recall_costs: [u64; 3],
    /// Cost of a failed review, loss aversion included.
    pub forget_cost: u64,
    /// Cost of learning a card for the first time.
    pub learn_cost: u64,
    /// Most cards that may be learned for the first time on one day.
    pub learn_limit: usize,
    /// Most due cards that may be reviewed on one day.
    pub review_limit: usize,
}

impl SimulatorConfig {
    /// The cost a review card incurs today: the (loss-averse) forget cost if
    /// the card was forgotten, else the cost of its recall rating.
    pub open spec fn spec_review_cost(self, forgotten: bool, rating: int) -> int {
        if forgotten {
            self.forget_cost as int
        } else {
            self.recall_costs@[rating - 2] as int
        }
    }

    /// Computes the cost of one reviewed card from its simulated outcome:
    /// whether it was forgotten and, if not, the recall rating drawn for it.
    pub fn review_cost(&self, forgotten: bool, rating: u8) -> (c: u64)
        requires
            forgotten || (2 <= rating <= 4),
        ensures
            c == self.spec_review_cost(forgotten, rating as int),
    {
        if forgotten {
            self.forget_cost
        } else {
            self.recall_costs[(rating - 2) as usize]
        }
    }
}

impl Default for SimulatorConfig {
    /// The reference configuration: a ten-thousand card deck simulated for a
    /// year, a daily budget of half an hour, and no per-day count caps.
    fn default() -> (c: SimulatorConfig)
        ensures
            c.deck_size == 10000,
            c.learn_span == 365,
            c.max_cost_perday == Some(1_800_000u64),
            c.max_ivl == 36500,
            c.recall_costs@ == seq![14_000u64, 10_000u64, 6_000u64],
            c.forget_cost == 125_000,
            c.learn_cost == 20_000,
            c.learn_limit == usize::MAX,
            c.review_limit == usize::MAX,
    {
        SimulatorConfig {
            deck_size: 10000,
            learn_span: 365,
            max_cost_perday: Some(1_800_000),
            max_ivl: 36500,
            recall_costs: [14_000, 10_000, 6_000],
            forget_cost: 125_000,
            learn_cost: 20_000,
            learn_limit: usize::MAX,
            review_limit: usize::MAX,
        }
    }
}

} // verus!
