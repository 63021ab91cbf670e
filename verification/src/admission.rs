//! Per-day admission control.
//!
//! On each simulated day the deck is swept twice in index order over one
//! shared cost pool: first the due reviews, then the first-time learns. A
//! card is admitted while the running cost sum stays within the day's budget
//! and the running count of its class stays within that class's cap. The
//! sweep is deliberately greedy: earlier-indexed cards have priority, and the
//! learn sweep runs over a cost array that already carries the cost of every
//! due review, admitted or not, so both classes draw on one combined pool.

use vstd::prelude::*;
use crate::config::SimulatorConfig;

verus! {

/// Whether a running cost `v` is inside the daily budget; `None` means the
/// budget is unlimited.
pub open spec fn within_cap(cap: Option<u64>, v: int) -> bool {
    match cap {
        Option::None => true,
        Option::Some(c) => v <= c,
    }
}

/// Cost slot `j` carries during the review sweep: its review cost if it is
/// due, nothing otherwise.
pub open spec fn review_slot_cost(nr: Seq<bool>, rc: Seq<u64>, j: int) -> int {
    if nr[j] {
        rc[j] as int
    } else {
        0
    }
}

/// Cost slot `j` carries during the learn sweep: the learn cost overwrites
/// the slot for a first-time learn, a due review keeps its review cost, and
/// every other slot carries nothing.
pub open spec fn combined_slot_cost(
    nr: Seq<bool>,
    nl: Seq<bool>,
    rc: Seq<u64>,
    learn_cost: u64,
    j: int,
) -> int {
    if nl[j] {
        learn_cost as int
    } else if nr[j] {
        rc[j] as int
    } else {
        0
    }
}

/// Running review-cost sum over the first `n` slots.
pub open spec fn cum_review_cost(nr: Seq<bool>, rc: Seq<u64>, n: int) -> int
    decreases n,
{
    if n <= 0 {
        0
    } else {
        cum_review_cost(nr, rc, n - 1) + review_slot_cost(nr, rc, n - 1)
    }
}

/// Running combined cost sum over the first `n` slots.
pub open spec fn cum_combined_cost(
    nr: Seq<bool>,
    nl: Seq<bool>,
    rc: Seq<u64>,
    learn_cost: u64,
    n: int,
) -> int
    decreases n,
{
    if n <= 0 {
        0
    } else {
        cum_combined_cost(nr, nl, rc, learn_cost, n - 1) + combined_slot_cost(
            nr,
            nl,
            rc,
            learn_cost,
            n - 1,
        )
    }
}

/// How many of the first `n` slots are due for review.
pub open spec fn review_rank(nr: Seq<bool>, n: int) -> int
    decreases n,
{
    if n <= 0 {
        0
    } else {
        review_rank(nr, n - 1) + if nr[n - 1] {
            1int
        } else {
            0int
        }
    }
}

/// How many of the first `n` slots are up for a first learn.
pub open spec fn learn_rank(nl: Seq<bool>, n: int) -> int
    decreases n,
{
    if n <= 0 {
        0
    } else {
        learn_rank(nl, n - 1) + if nl[n - 1] {
            1int
        } else {
            0int
        }
    }
}

/// The review sweep admits slot `j` exactly when it is due, the review-cost
/// sum up to and including it fits the budget, and its position among the
/// due cards is within the review cap. The rank counts every due card walked
/// so far, admitted or not, as the sweep does.
pub open spec fn review_admitted(nr: Seq<bool>, rc: Seq<u64>, cfg: SimulatorConfig, j: int) -> bool {
    &&& nr[j]
    &&& within_cap(cfg.max_cost_perday, cum_review_cost(nr, rc, j + 1))
    &&& review_rank(nr, j + 1) <= cfg.review_limit
}

/// The learn sweep admits slot `j` exactly when it is up for a first learn,
/// the combined cost sum up to and including it fits the budget, and its
/// position among the learnable cards is within the learn cap.
pub open spec fn learn_admitted(
    nr: Seq<bool>,
    nl: Seq<bool>,
    rc: Seq<u64>,
    cfg: SimulatorConfig,
    j: int,
) -> bool {
    &&& nl[j]
    &&& within_cap(cfg.max_cost_perday, cum_combined_cost(nr, nl, rc, cfg.learn_cost, j + 1))
    &&& learn_rank(nl, j + 1) <= cfg.learn_limit
}

/// Number of reviews admitted among the first `n` slots.
pub open spec fn admitted_review_count(nr: Seq<bool>, rc: Seq<u64>, cfg: SimulatorConfig, n: int) -> int
    decreases n,
{
    if n <= 0 {
        0
    } else {
        admitted_review_count(nr, rc, cfg, n - 1) + if review_admitted(nr, rc, cfg, n - 1) {
            1int
        } else {
            0int
        }
    }
}

/// Number of first learns admitted among the first `n` slots.
pub open spec fn admitted_learn_count(
    nr: Seq<bool>,
    nl: Seq<bool>,
    rc: Seq<u64>,
    cfg: SimulatorConfig,
    n: int,
) -> int
    decreases n,
{
    if n <= 0 {
        0
    } else {
        admitted_learn_count(nr, nl, rc, cfg, n - 1) + if learn_admitted(nr, nl, rc, cfg, n - 1) {
            1int
        } else {
            0int
        }
    }
}

/// Total cost actually spent on the first `n` slots: each admitted card
/// contributes its combined slot cost, everything else is free.
pub open spec fn admitted_cost(
    nr: Seq<bool>,
    nl: Seq<bool>,
    rc: Seq<u64>,
    cfg: SimulatorConfig,
    n: int,
) -> int
    decreases n,
{
    if n <= 0 {
        0
    } else {
        admitted_cost(nr, nl, rc, cfg, n - 1) + if review_admitted(nr, rc, cfg, n - 1)
            || learn_admitted(nr, nl, rc, cfg, n - 1) {
            combined_slot_cost(nr, nl, rc, cfg.learn_cost, n - 1)
        } else {
            0int
        }
    }
}

/// Every slot due for review sits before every slot up for a first learn.
/// This is how a simulated deck is laid out: learned cards occupy the low
/// indices and never-scheduled slots the high ones.
pub open spec fn reviews_precede_learns(nr: Seq<bool>, nl: Seq<bool>) -> bool {
    forall|i: int, j: int|
        0 <= i < nl.len() && 0 <= j < nr.len() && nl[i] && nr[j] ==> j < i
}

/// Builds the day's review-cost column: each due card costs what its
/// simulated outcome says — the loss-averse forget cost if it was
/// forgotten, else the cost of its recall rating — and every other slot
/// carries nothing.
pub fn review_cost_column(
    need_review: &Vec<bool>,
    forgot: &Vec<bool>,
    ratings: &Vec<u8>,
    cfg: &SimulatorConfig,
) -> (costs: Vec<u64>)
    requires
        forgot@.len() == need_review@.len(),
        ratings@.len() == need_review@.len(),
        forall|k: int|
            0 <= k < need_review@.len() && need_review@[k] && !forgot@[k] ==> 2 <= ratings@[k] <= 4,
    ensures
        costs@.len() == need_review@.len(),
        forall|k: int|
            0 <= k < need_review@.len() ==> costs@[k] == if need_review@[k] {
                cfg.spec_review_cost(forgot@[k], ratings@[k] as int)
            } else {
                0
            },
{
    let n = need_review.len();
    let mut costs: Vec<u64> = Vec::new();
    let mut i: usize = 0;
    while i < n
        invariant
            i <= n,
            n == need_review@.len(),
            forgot@.len() == n,
            ratings@.len() == n,
            forall|k: int| 0 <= k < n && need_review@[k] && !forgot@[k] ==> 2 <= ratings@[k] <= 4,
            costs@.len() == i,
            forall|k: int|
                0 <= k < i ==> costs@[k] == if need_review@[k] {
                    cfg.spec_review_cost(forgot@[k], ratings@[k] as int)
                } else {
                    0
                },
        decreases n - i,
    {
        if need_review[i] {
            costs.push(cfg.review_cost(forgot[i], ratings[i]));
        } else {
            costs.push(0);
        }
        i += 1;
    }
    costs
}

/// One day's admission decisions, with the day's aggregate bookkeeping.
pub struct DayPlan {
    /// Which slots the review sweep admitted.
    pub admit_review: Vec<bool>,
    /// Which slots the learn sweep admitted.
    pub admit_learn: Vec<bool>,
    /// How many reviews were admitted.
    pub review_count: usize,
    /// How many first learns were admitted.
    pub learn_count: usize,
    /// Total cost spent on admitted cards.
    pub cost_total: u128,
}

/// Runs the two greedy sweeps of one day over the classified deck and the
/// per-card review costs, and returns exactly which cards today's budgets
/// admit, together with the day's admitted counts and total spend.
pub fn plan_admission(
    need_review: &Vec<bool>,
    need_learn: &Vec<bool>,
    review_costs: &Vec<u64>,
    cfg: &SimulatorConfig,
) -> (p: DayPlan)
    requires
        need_learn@.len() == need_review@.len(),
        review_costs@.len() == need_review@.len(),
    ensures
        p.admit_review@.len() == need_review@.len(),
        p.admit_learn@.len() == need_review@.len(),
        forall|j: int|
            0 <= j < need_review@.len() ==> p.admit_review@[j] == review_admitted(
                need_review@,
                review_costs@,
                *cfg,
                j,
            ),
        forall|j: int|
            0 <= j < need_review@.len() ==> p.admit_learn@[j] == learn_admitted(
                need_review@,
                need_learn@,
                review_costs@,
                *cfg,
                j,
            ),
        p.review_count == admitted_review_count(
            need_review@,
            review_costs@,
            *cfg,
            need_review@.len() as int,
        ),
        p.learn_count == admitted_learn_count(
            need_review@,
            need_learn@,
            review_costs@,
            *cfg,
            need_review@.len() as int,
        ),
        p.cost_total == admitted_cost(
            need_review@,
            need_learn@,
            review_costs@,
            *cfg,
            need_review@.len() as int,
        ),
        p.review_count <= cfg.review_limit,
        p.learn_count <= cfg.learn_limit,
{
    let n = need_review.len();
    let mut admit_review: Vec<bool> = Vec::new();
    let mut review_count: usize = 0;
    let mut rank: usize = 0;
    let mut cum: u128 = 0;
    let mut j: usize = 0;
    while j < n
        invariant
            j <= n,
            n == need_review@.len(),
            review_costs@.len() == n,
            admit_review@.len() == j,
            forall|k: int|
                0 <= k < j ==> admit_review@[k] == review_admitted(
                    need_review@,
                    review_costs@,
                    *cfg,
                    k,
                ),
            rank == review_rank(need_review@, j as int),
            rank <= j,
            cum == cum_review_cost(need_review@, review_costs@, j as int),
            cum <= j * 0xffff_ffff_ffff_ffff,
            review_count == admitted_review_count(need_review@, review_costs@, *cfg, j as int),
            review_count <= j,
        decreases n - j,
    {
        let is_due = need_review[j];
        if is_due {
            rank = rank + 1;
            proof {
                assert(cum as int + review_costs@[j as int] <= u128::MAX) by (nonlinear_arith)
                    requires
                        cum as int <= j * 0xffff_ffff_ffff_ffff,
                        review_costs@[j as int] <= 0xffff_ffff_ffff_ffff,
                        j < 0x1_0000_0000_0000_0000,
                ;
            }
            cum = cum + review_costs[j] as u128;
        }
        let cap_ok = match cfg.max_cost_perday {
            Option::None => true,
            Option::Some(c) => cum <= c as u128,
        };
        let adm = is_due && cap_ok && rank <= cfg.review_limit;
        if adm {
            review_count = review_count + 1;
        }
        admit_review.push(adm);
        j = j + 1;
    }
    let mut admit_learn: Vec<bool> = Vec::new();
    let mut learn_count: usize = 0;
    let mut lrank: usize = 0;
    let mut cum2: u128 = 0;
    let mut cost_total: u128 = 0;
    let mut j: usize = 0;
    while j < n
        invariant
            j <= n,
            n == need_review@.len(),
            need_learn@.len() == n,
            review_costs@.len() == n,
            admit_review@.len() == n,
            forall|k: int|
                0 <= k < n ==> admit_review@[k] == review_admitted(
                    need_review@,
                    review_costs@,
                    *cfg,
                    k,
                ),
            admit_learn@.len() == j,
            forall|k: int|
                0 <= k < j ==> admit_learn@[k] == learn_admitted(
                    need_review@,
                    need_learn@,
                    review_costs@,
                    *cfg,
                    k,
                ),
            lrank == learn_rank(need_learn@, j as int),
            lrank <= j,
            cum2 == cum_combined_cost(need_review@, need_learn@, review_costs@, cfg.learn_cost, j as int),
            cum2 <= j * 0xffff_ffff_ffff_ffff,
            learn_count == admitted_learn_count(
                need_review@,
                need_learn@,
                review_costs@,
                *cfg,
                j as int,
            ),
            learn_count <= j,
            cost_total == admitted_cost(need_review@, need_learn@, review_costs@, *cfg, j as int),
            cost_total <= cum2,
        decreases n - j,
    {
        let is_learn = need_learn[j];
        let slot: u64 = if is_learn {
            cfg.learn_cost
        } else if need_review[j] {
            review_costs[j]
        } else {
            0
        };
        if is_learn {
            lrank = lrank + 1;
        }
        proof {
            assert(cum2 as int + slot as int <= u128::MAX) by (nonlinear_arith)
                requires
                    cum2 as int <= j * 0xffff_ffff_ffff_ffff,
                    slot <= 0xffff_ffff_ffff_ffff,
                    j < 0x1_0000_0000_0000_0000,
            ;
        }
        cum2 = cum2 + slot as u128;
        let cap_ok = match cfg.max_cost_perday {
            Option::None => true,
            Option::Some(c) => cum2 <= c as u128,
        };
        let adm = is_learn && cap_ok && lrank <= cfg.learn_limit;
        if adm {
            learn_count = learn_count + 1;
        }
        if admit_review[j] || adm {
            cost_total = cost_total + slot as u128;
        }
        admit_learn.push(adm);
        j = j + 1;
    }
    proof {
        lemma_review_count_within_limit(need_review@, review_costs@, *cfg, n as int);
        lemma_learn_count_within_limit(need_review@, need_learn@, review_costs@, *cfg, n as int);
    }
    DayPlan { admit_review, admit_learn, review_count, learn_count, cost_total }
}

proof fn lemma_admitted_cost_le_cum(
    nr: Seq<bool>,
    nl: Seq<bool>,
    rc: Seq<u64>,
    cfg: SimulatorConfig,
    n: int,
)
    ensures
        0 <= admitted_cost(nr, nl, rc, cfg, n),
        admitted_cost(nr, nl, rc, cfg, n) <= cum_combined_cost(nr, nl, rc, cfg.learn_cost, n),
    decreases n,
{
    if n > 0 {
        lemma_admitted_cost_le_cum(nr, nl, rc, cfg, n - 1);
    }
}

proof fn lemma_no_learns_same_cum(nr: Seq<bool>, nl: Seq<bool>, rc: Seq<u64>, learn_cost: u64, n: int)
    requires
        forall|i: int| 0 <= i < n ==> !nl[i],
    ensures
        cum_combined_cost(nr, nl, rc, learn_cost, n) == cum_review_cost(nr, rc, n),
    decreases n,
{
    if n > 0 {
        lemma_no_learns_same_cum(nr, nl, rc, learn_cost, n - 1);
    }
}

/// LAW: with a finite daily budget, the total cost spent on one day's
/// admitted cards never exceeds that budget, provided every due review sits
/// before every first-time learn in index order — the layout a simulated
/// deck has, since first learns live in the never-scheduled tail of the
/// deck. (The budget check runs on the running sum that already includes
/// the candidate card, so no admission can push the spend past the cap.)
pub proof fn lemma_daily_cost_within_budget(
    nr: Seq<bool>,
    nl: Seq<bool>,
    rc: Seq<u64>,
    cfg: SimulatorConfig,
    c: u64,
    n: int,
)
    requires
        nl.len() == nr.len(),
        0 <= n <= nr.len(),
        cfg.max_cost_perday == Some(c),
        reviews_precede_learns(nr, nl),
    ensures
        admitted_cost(nr, nl, rc, cfg, n) <= c,
    decreases n,
{
    if n > 0 {
        let j = n - 1;
        if learn_admitted(nr, nl, rc, cfg, j) {
            lemma_admitted_cost_le_cum(nr, nl, rc, cfg, n);
        } else if review_admitted(nr, rc, cfg, j) {
            assert forall|i: int| 0 <= i < n implies !nl[i] by {
                if nl[i] {
                    assert(j < i);  // reviews_precede_learns at (i, j)
                }
            }
            lemma_admitted_cost_le_cum(nr, nl, rc, cfg, n);
            lemma_no_learns_same_cum(nr, nl, rc, cfg.learn_cost, n);
        } else {
            lemma_daily_cost_within_budget(nr, nl, rc, cfg, c, n - 1);
        }
    }
}

/// LAW: the day classes a well-laid-out deck yields satisfy the ordering
/// hypothesis of [`lemma_daily_cost_within_budget`]. A deck is well laid
/// out when its learned cards form a contiguous prefix, every unlearned
/// slot still carries the horizon sentinel as its due day, and no
/// scheduled card happens to fall due exactly on the horizon.
pub proof fn lemma_layout_orders_classes(
    dues: Seq<i64>,
    learned: Seq<bool>,
    nr: Seq<bool>,
    nl: Seq<bool>,
    today: i64,
    horizon: i64,
)
    requires
        learned.len() == dues.len(),
        nr.len() == dues.len(),
        nl.len() == dues.len(),
        today < horizon,
        forall|k: int| 0 <= k < dues.len() ==> nr[k] == (dues[k] <= today),
        forall|k: int| 0 <= k < dues.len() ==> nl[k] == (dues[k] == horizon),
        forall|k: int| 0 <= k < dues.len() && !learned[k] ==> dues[k] == horizon,
        forall|k: int| 0 <= k < dues.len() && learned[k] ==> dues[k] != horizon,
        forall|k1: int, k2: int| 0 <= k1 < k2 < dues.len() && learned[k2] ==> learned[k1],
    ensures
        reviews_precede_learns(nr, nl),
{
    assert forall|i: int, j: int|
        0 <= i < nl.len() && 0 <= j < nr.len() && nl[i] && nr[j] implies j < i by {
        assert(dues[i] == horizon);
        assert(dues[j] <= today < horizon);
        assert(learned[j]);
        assert(!learned[i]);
    }
}

proof fn lemma_learn_count_le_rank(nr: Seq<bool>, nl: Seq<bool>, rc: Seq<u64>, cfg: SimulatorConfig, n: int)
    ensures
        0 <= admitted_learn_count(nr, nl, rc, cfg, n),
        admitted_learn_count(nr, nl, rc, cfg, n) <= learn_rank(nl, n),
    decreases n,
{
    if n > 0 {
        lemma_learn_count_le_rank(nr, nl, rc, cfg, n - 1);
    }
}

proof fn lemma_review_count_le_rank(nr: Seq<bool>, rc: Seq<u64>, cfg: SimulatorConfig, n: int)
    ensures
        0 <= admitted_review_count(nr, rc, cfg, n),
        admitted_review_count(nr, rc, cfg, n) <= review_rank(nr, n),
    decreases n,
{
    if n > 0 {
        lemma_review_count_le_rank(nr, rc, cfg, n - 1);
    }
}

/// LAW: a day never admits more first-time learns than the learn cap
/// allows, whatever the deck, the costs and the budget.
pub proof fn lemma_learn_count_within_limit(
    nr: Seq<bool>,
    nl: Seq<bool>,
    rc: Seq<u64>,
    cfg: SimulatorConfig,
    n: int,
)
    ensures
        admitted_learn_count(nr, nl, rc, cfg, n) <= cfg.learn_limit,
    decreases n,
{
    if n > 0 {
        let j = n - 1;
        if learn_admitted(nr, nl, rc, cfg, j) {
            lemma_learn_count_le_rank(nr, nl, rc, cfg, n);
        } else {
            lemma_learn_count_within_limit(nr, nl, rc, cfg, n - 1);
        }
    }
}

/// LAW: a day never admits more reviews than the review cap allows,
/// whatever the deck, the costs and the budget.
pub proof fn lemma_review_count_within_limit(
    nr: Seq<bool>,
    rc: Seq<u64>,
    cfg: SimulatorConfig,
    n: int,
)
    ensures
        admitted_review_count(nr, rc, cfg, n) <= cfg.review_limit,
    decreases n,
{
    if n > 0 {
        let j = n - 1;
        if review_admitted(nr, rc, cfg, j) {
            lemma_review_count_le_rank(nr, rc, cfg, n);
        } else {
            lemma_review_count_within_limit(nr, rc, cfg, n - 1);
        }
    }
}

/// LAW: with an unlimited daily budget, the learn sweep admits exactly as
/// many cards as are there to learn, up to the learn cap: once a backlog of
/// unlearned cards builds up, every day learns precisely `learn_limit` new
/// cards.
pub proof fn lemma_learn_count_fills_limit(
    nr: Seq<bool>,
    nl: Seq<bool>,
    rc: Seq<u64>,
    cfg: SimulatorConfig,
    n: int,
)
    requires
        cfg.max_cost_perday is None,
    ensures
        admitted_learn_count(nr, nl, rc, cfg, n) == if learn_rank(nl, n) <= cfg.learn_limit {
            learn_rank(nl, n)
        } else {
            cfg.learn_limit as int
        },
    decreases n,
{
    if n > 0 {
        lemma_learn_count_fills_limit(nr, nl, rc, cfg, n - 1);
    }
}

/// LAW: with an unlimited daily budget, the review sweep admits exactly as
/// many cards as are due, up to the review cap.
pub proof fn lemma_review_count_fills_limit(
    nr: Seq<bool>,
    rc: Seq<u64>,
    cfg: SimulatorConfig,
    n: int,
)
    requires
        cfg.max_cost_perday is None,
    ensures
        admitted_review_count(nr, rc, cfg, n) == if review_rank(nr, n) <= cfg.review_limit {
            review_rank(nr, n)
        } else {
            cfg.review_limit as int
        },
    decreases n,
{
    if n > 0 {
        lemma_review_count_fills_limit(nr, rc, cfg, n - 1);
    }
}

proof fn lemma_cum_review_monotone(nr: Seq<bool>, rc: Seq<u64>, n1: int, n2: int)
    requires
        n1 <= n2,
    ensures
        cum_review_cost(nr, rc, n1) <= cum_review_cost(nr, rc, n2),
    decreases n2,
{
    if n1 < n2 && n2 > 0 {
        lemma_cum_review_monotone(nr, rc, n1, n2 - 1);
    }
}

proof fn lemma_cum_combined_monotone(
    nr: Seq<bool>,
    nl: Seq<bool>,
    rc: Seq<u64>,
    learn_cost: u64,
    n1: int,
    n2: int,
)
    requires
        n1 <= n2,
    ensures
        cum_combined_cost(nr, nl, rc, learn_cost, n1) <= cum_combined_cost(nr, nl, rc, learn_cost, n2),
    decreases n2,
{
    if n1 < n2 && n2 > 0 {
        lemma_cum_combined_monotone(nr, nl, rc, learn_cost, n1, n2 - 1);
    }
}

proof fn lemma_review_rank_monotone(nr: Seq<bool>, n1: int, n2: int)
    requires
        n1 <= n2,
    ensures
        review_rank(nr, n1) <= review_rank(nr, n2),
    decreases n2,
{
    if n1 < n2 && n2 > 0 {
        lemma_review_rank_monotone(nr, n1, n2 - 1);
    }
}

proof fn lemma_learn_rank_monotone(nl: Seq<bool>, n1: int, n2: int)
    requires
        n1 <= n2,
    ensures
        learn_rank(nl, n1) <= learn_rank(nl, n2),
    decreases n2,
{
    if n1 < n2 && n2 > 0 {
        lemma_learn_rank_monotone(nl, n1, n2 - 1);
    }
}

/// LAW: admission is greedy in index order — if a due review is admitted,
/// so is every due review at a lower index. Earlier cards have priority and
/// a rejected card is never followed by an admitted one of the same class.
pub proof fn lemma_earlier_review_has_priority(
    nr: Seq<bool>,
    rc: Seq<u64>,
    cfg: SimulatorConfig,
    i: int,
    j: int,
)
    requires
        0 <= i < j,
        nr[i],
        review_admitted(nr, rc, cfg, j),
    ensures
        review_admitted(nr, rc, cfg, i),
{
    lemma_cum_review_monotone(nr, rc, i + 1, j + 1);
    lemma_review_rank_monotone(nr, i + 1, j + 1);
}

/// LAW: admission is greedy in index order — if a first-time learn is
/// admitted, so is every learnable card at a lower index. The learned part
/// of the deck therefore always stays a contiguous prefix.
pub proof fn lemma_earlier_learn_has_priority(
    nr: Seq<bool>,
    nl: Seq<bool>,
    rc: Seq<u64>,
    cfg: SimulatorConfig,
    i: int,
    j: int,
)
    requires
        0 <= i < j,
        nl[i],
        learn_admitted(nr, nl, rc, cfg, j),
    ensures
        learn_admitted(nr, nl, rc, cfg, i),
{
    lemma_cum_combined_monotone(nr, nl, rc, cfg.learn_cost, i + 1, j + 1);
    lemma_learn_rank_monotone(nl, i + 1, j + 1);
}

} // verus!
