//! The shared inventory counter pair and the single purchase operation.
//!
//! An [`InventoryState`] holds two counters, `available_tickets` and
//! `sold_tickets`. The only mutator is [`InventoryState::attempt_purchase`]:
//! one check-then-act step that either sells one ticket (decrement available,
//! increment sold) or reports a miss without touching the state. The joint
//! invariant — available plus sold equals the initial inventory — is
//! preserved because the step never changes the sum of the two counters.

use vstd::prelude::*;

verus! {

/// The outcome of one purchase attempt: either the buyer got a ticket,
/// together with the number of tickets remaining right after that sale,
/// or the buyer missed because none were left.
#[derive(Clone, Copy, PartialEq, Eq, Structural, Debug)]
pub enum PurchaseOutcome {
    Bought { remaining: u32 },
    Missed,
}

/// Two mutually consistent counters: tickets still available and tickets
/// already sold. Created with `sold_tickets == 0`, so at every externally
/// observable point `available_tickets + sold_tickets` equals the inventory
/// the sale started with.
#[derive(Clone, Copy, PartialEq, Eq, Structural, Debug)]
pub struct InventoryState {
    pub available_tickets: u32,
    pub sold_tickets: u32,
}

impl InventoryState {
    /// The inventory the sale started with, recovered from the joint
    /// invariant: every purchase moves one ticket from `available_tickets`
    /// to `sold_tickets`, so their sum never changes.
    pub open spec fn initial_inventory(self) -> int {
        self.available_tickets + self.sold_tickets
    }

    /// The state after one purchase attempt, together with its outcome.
    /// This is the mathematical model of [`InventoryState::attempt_purchase`].
    pub open spec fn purchase_step(self) -> (InventoryState, PurchaseOutcome) {
        if self.available_tickets == 0 {
            (self, PurchaseOutcome::Missed)
        } else {
            let after = InventoryState {
                available_tickets: (self.available_tickets - 1) as u32,
                sold_tickets: (self.sold_tickets + 1) as u32,
            };
            (after, PurchaseOutcome::Bought { remaining: after.available_tickets })
        }
    }

    /// Seed a fresh sale: every ticket still available, none sold.
    pub fn new(initial_inventory: u32) -> (s: Self)
        ensures
            s.available_tickets == initial_inventory,
            s.sold_tickets == 0,
            s.initial_inventory() == initial_inventory,
    {
        InventoryState { available_tickets: initial_inventory, sold_tickets: 0 }
    }

    /// One atomic purchase attempt. If no ticket is available the state is
    /// left untouched and the buyer misses; otherwise exactly one ticket
    /// moves from available to sold and the buyer is told how many remain.
    /// The buyer identifier only labels the outcome for reporting; it never
    /// influences the decision.
    ///
    /// The sum of the two counters — the initial inventory — is unchanged
    /// either way, and `sold_tickets` fits because it never exceeds that sum.
    pub fn attempt_purchase(&mut self, buyer_id: u32) -> (outcome: PurchaseOutcome)
        requires
            old(self).available_tickets + old(self).sold_tickets <= u32::MAX,
        ensures
            (*final(self), outcome) == old(self).purchase_step(),
            final(self).initial_inventory() == old(self).initial_inventory(),
            outcome is Bought <==> old(self).available_tickets > 0,
            outcome matches PurchaseOutcome::Bought { remaining }
                ==> remaining == final(self).available_tickets,
    {
        if self.available_tickets == 0 {
            PurchaseOutcome::Missed
        } else {
            self.available_tickets = self.available_tickets - 1;
            self.sold_tickets = self.sold_tickets + 1;
            PurchaseOutcome::Bought { remaining: self.available_tickets }
        }
    }
}

} // verus!
