//! A whole sale, serialized: because every purchase attempt is one atomic
//! critical section, any concurrent run with `buyer_count` buyers is
//! equivalent to some order of `buyer_count` sequential attempts — and the
//! aggregate outcome turns out not to depend on that order at all.
//!
//! [`sale_model`] folds the purchase step over the number of attempts made
//! so far, so its values are exactly the externally observable states of a
//! run. The lemmas pin the aggregate down in closed form:
//! `(max(initial - buyers, 0), min(initial, buyers))`, whatever the
//! interleaving.

use vstd::prelude::*;

use crate::inventory::InventoryState;
use crate::inventory::PurchaseOutcome;

verus! {

/// The counter pair after `attempts` purchase attempts against a sale that
/// started with `initial_inventory` tickets. Which buyers made the attempts,
/// and in which order, does not appear: the step never depends on either.
pub open spec fn sale_model(initial_inventory: u32, attempts: nat) -> InventoryState
    decreases attempts,
{
    if attempts == 0 {
        InventoryState { available_tickets: initial_inventory, sold_tickets: 0 }
    } else {
        sale_model(initial_inventory, (attempts - 1) as nat).purchase_step().0
    }
}

/// The outcomes of the first `attempts` purchase attempts, in attempt order.
pub open spec fn sale_outcomes(initial_inventory: u32, attempts: nat) -> Seq<PurchaseOutcome>
    decreases attempts,
{
    if attempts == 0 {
        Seq::empty()
    } else {
        sale_outcomes(initial_inventory, (attempts - 1) as nat).push(
            sale_model(initial_inventory, (attempts - 1) as nat).purchase_step().1,
        )
    }
}

/// How many of the outcomes in `s` are successful purchases.
pub open spec fn count_bought(s: Seq<PurchaseOutcome>) -> nat
    decreases s.len(),
{
    if s.len() == 0 {
        0
    } else {
        count_bought(s.drop_last()) + if s.last() is Bought {
            1nat
        } else {
            0nat
        }
    }
}

/// Joint invariant: every externally observable state of a run — every state
/// between completed purchase attempts — satisfies
/// `available_tickets + sold_tickets == initial_inventory`, with
/// `sold_tickets` never exceeding the initial inventory. (That
/// `available_tickets >= 0` holds of every state is carried by its type.)
pub proof fn lemma_joint_invariant(initial_inventory: u32, attempts: nat)
    ensures
        sale_model(initial_inventory, attempts).initial_inventory() == initial_inventory,
        sale_model(initial_inventory, attempts).sold_tickets <= initial_inventory,
    decreases attempts,
{
    if attempts > 0 {
        lemma_joint_invariant(initial_inventory, (attempts - 1) as nat);
    }
}

/// Determinism of the aggregate outcome: after all `buyer_count` attempts,
/// the counter pair is exactly
/// `(max(initial_inventory - buyer_count, 0), min(initial_inventory, buyer_count))`,
/// regardless of scheduling. In particular `sold_tickets` is bounded by both
/// the demand and the stock, and the stock is never oversold.
pub proof fn lemma_aggregate_outcome(initial_inventory: u32, buyer_count: nat)
    ensures
        sale_model(initial_inventory, buyer_count).available_tickets == if buyer_count
            >= initial_inventory {
            0int
        } else {
            initial_inventory - buyer_count
        },
        sale_model(initial_inventory, buyer_count).sold_tickets == if buyer_count
            >= initial_inventory {
            initial_inventory as int
        } else {
            buyer_count as int
        },
    decreases buyer_count,
{
    if buyer_count > 0 {
        lemma_aggregate_outcome(initial_inventory, (buyer_count - 1) as nat);
    }
}

/// Exactly `min(initial_inventory, buyer_count)` of the attempts succeed:
/// the successful outcomes are in one-to-one correspondence with the tickets
/// sold. With one ticket and any number of buyers, exactly one buys.
pub proof fn lemma_bought_count(initial_inventory: u32, buyer_count: nat)
    ensures
        count_bought(sale_outcomes(initial_inventory, buyer_count)) == sale_model(
            initial_inventory,
            buyer_count,
        ).sold_tickets,
    decreases buyer_count,
{
    if buyer_count > 0 {
        lemma_bought_count(initial_inventory, (buyer_count - 1) as nat);
        lemma_joint_invariant(initial_inventory, (buyer_count - 1) as nat);
        assert(sale_outcomes(initial_inventory, buyer_count).drop_last() =~= sale_outcomes(
            initial_inventory,
            (buyer_count - 1) as nat,
        ));
    }
}

/// No double-sale: when a single ticket remains, of any two consecutive
/// attempts the first buys it and the second misses — both can never
/// observe a positive count, because each attempt is one indivisible
/// check-then-act step.
pub proof fn lemma_no_double_sale(s: InventoryState)
    requires
        s.available_tickets == 1,
    ensures
        s.purchase_step().1 is Bought,
        !(s.purchase_step().0.purchase_step().1 is Bought),
{
}

/// Run a whole sale to completion: `buyer_count` purchase attempts, each by
/// the next buyer in identifier order, against one counter pair seeded with
/// `initial_inventory` tickets. Returns the final counter pair and every
/// buyer's outcome in identifier order.
///
/// The result is pinned exactly: the final state is
/// `sale_model(initial_inventory, buyer_count)` — in closed form,
/// `(max(initial_inventory - buyer_count, 0), min(initial_inventory, buyer_count))`
/// by [`lemma_aggregate_outcome`] — and the outcomes are
/// `sale_outcomes(initial_inventory, buyer_count)`. Re-running with the same
/// parameters therefore yields the same aggregates every time.
pub fn run_sale(initial_inventory: u32, buyer_count: u32) -> (r: (
    InventoryState,
    Vec<PurchaseOutcome>,
))
    ensures
        r.0 == sale_model(initial_inventory, buyer_count as nat),
        r.1@ == sale_outcomes(initial_inventory, buyer_count as nat),
        r.0.available_tickets == if buyer_count >= initial_inventory {
            0int
        } else {
            initial_inventory - buyer_count
        },
        r.0.sold_tickets == if buyer_count >= initial_inventory {
            initial_inventory as int
        } else {
            buyer_count as int
        },
        r.1@.len() == buyer_count,
{
    let mut state = InventoryState::new(initial_inventory);
    let mut outcomes: Vec<PurchaseOutcome> = Vec::new();
    let mut buyer_id: u32 = 0;
    while buyer_id < buyer_count
        invariant
            buyer_id <= buyer_count,
            state == sale_model(initial_inventory, buyer_id as nat),
            outcomes@ == sale_outcomes(initial_inventory, buyer_id as nat),
            outcomes@.len() == buyer_id,
        decreases buyer_count - buyer_id,
    {
        proof {
            lemma_joint_invariant(initial_inventory, buyer_id as nat);
        }
        let outcome = state.attempt_purchase(buyer_id);
        outcomes.push(outcome);
        buyer_id = buyer_id + 1;
    }
    proof {
        lemma_aggregate_outcome(initial_inventory, buyer_count as nat);
    }
    (state, outcomes)
}

} // verus!
