//! One counter pair shared by truly concurrent buyers.
//!
//! A [`TicketBooth`] holds the [`InventoryState`] behind a lock whose
//! invariant is the joint counter relation: whatever value is stored,
//! `available_tickets + sold_tickets` equals the inventory the booth opened
//! with. Every purchase attempt acquires the lock for the whole
//! check-then-act step, so no interleaving can oversell or let the counters
//! drift apart, and every consistent snapshot an observer takes satisfies
//! the relation.
//!
//! The fan-out/join driver itself — spawning one thread per buyer against a
//! shared booth and waiting for all of them at a join barrier — is thread
//! plumbing that the verifier does not see; the aggregate outcome such a run
//! must produce is pinned down by the serialized model in
//! [`crate::simulation`], since each attempt is one atomic step.

use vstd::prelude::*;
use vstd::rwlock::RwLock;
use vstd::rwlock::RwLockPredicate;

use crate::inventory::InventoryState;
use crate::inventory::PurchaseOutcome;

verus! {

/// The lock invariant of a booth: the stored counter pair always sums to
/// the inventory the booth opened with.
pub struct BoothInv {
    pub initial_inventory: u32,
}

impl RwLockPredicate<InventoryState> for BoothInv {
    open spec fn inv(self, s: InventoryState) -> bool {
        s.initial_inventory() == self.initial_inventory
    }
}

/// What a booth can promise of a single outcome without seeing the other
/// buyers: an empty booth never sells, and a successful buyer is told a
/// remaining count strictly below the initial inventory — one ticket, their
/// own, is certainly gone.
pub open spec fn outcome_ok(initial_inventory: u32, outcome: PurchaseOutcome) -> bool {
    &&& initial_inventory == 0 ==> outcome is Missed
    &&& outcome matches PurchaseOutcome::Bought { remaining } ==> remaining < initial_inventory
}

/// A shared ticket booth: the inventory counter pair behind one exclusion
/// lock, safe to use from any number of threads at once.
pub struct TicketBooth {
    lock: RwLock<InventoryState, BoothInv>,
}

impl TicketBooth {
    /// The inventory this booth opened with; the lock invariant ties every
    /// stored state to it.
    pub closed spec fn initial_inventory(&self) -> u32 {
        self.lock.pred().initial_inventory
    }

    /// Open a booth over a fresh counter pair: every ticket available,
    /// none sold.
    pub fn new(initial_inventory: u32) -> (booth: Self)
        ensures
            booth.initial_inventory() == initial_inventory,
    {
        let state = InventoryState::new(initial_inventory);
        let lock = RwLock::new(state, Ghost(BoothInv { initial_inventory }));
        TicketBooth { lock }
    }

    /// One purchase attempt, atomic with respect to all concurrent callers:
    /// the zero-check, the decrement and the increment happen under one
    /// exclusive lock acquisition, so no two buyers can both observe the
    /// last ticket. The buyer identifier only labels the outcome.
    pub fn attempt_purchase(&self, buyer_id: u32) -> (outcome: PurchaseOutcome)
        ensures
            outcome_ok(self.initial_inventory(), outcome),
    {
        let (mut state, write_handle) = self.lock.acquire_write();
        let outcome = state.attempt_purchase(buyer_id);
        write_handle.release_write(state);
        outcome
    }

    /// A consistent snapshot of `(available_tickets, sold_tickets)`, taken
    /// under the lock: the two counts always sum to the initial inventory,
    /// whatever purchases happen before or after.
    pub fn snapshot(&self) -> (counts: (u32, u32))
        ensures
            counts.0 + counts.1 == self.initial_inventory(),
    {
        let read_handle = self.lock.acquire_read();
        let state = *read_handle.borrow();
        read_handle.release_read();
        (state.available_tickets, state.sold_tickets)
    }
}

} // verus!
