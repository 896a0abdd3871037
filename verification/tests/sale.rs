use ticket_sale::inventory::InventoryState;
use ticket_sale::inventory::PurchaseOutcome;
use ticket_sale::simulation::run_sale;

fn bought_count(outcomes: &[PurchaseOutcome]) -> usize {
    let mut n: usize = 0;
    for o in outcomes {
        if matches!(o, PurchaseOutcome::Bought { .. }) {
            n += 1;
        }
    }
    n
}

fn missed_count(outcomes: &[PurchaseOutcome]) -> usize {
    outcomes.len() - bought_count(outcomes)
}

#[test]
fn purchase_sells_one_ticket() {
    let mut state = InventoryState::new(3);
    let outcome = state.attempt_purchase(0);
    assert_eq!(outcome, PurchaseOutcome::Bought { remaining: 2 });
    assert_eq!(state.available_tickets, 2);
    assert_eq!(state.sold_tickets, 1);
}

#[test]
fn purchase_on_empty_leaves_state_untouched() {
    let mut state = InventoryState::new(0);
    let outcome = state.attempt_purchase(7);
    assert_eq!(outcome, PurchaseOutcome::Missed);
    assert_eq!(state.available_tickets, 0);
    assert_eq!(state.sold_tickets, 0);
}

#[test]
fn joint_invariant_holds_after_every_attempt() {
    let mut state = InventoryState::new(5);
    for buyer_id in 0..8u32 {
        state.attempt_purchase(buyer_id);
        assert_eq!(state.available_tickets as u64 + state.sold_tickets as u64, 5);
        assert!(state.sold_tickets <= 5);
    }
    assert_eq!(state.available_tickets, 0);
    assert_eq!(state.sold_tickets, 5);
}

#[test]
fn remaining_counts_down_to_zero() {
    let (state, outcomes) = run_sale(3, 3);
    assert_eq!(
        outcomes,
        vec![
            PurchaseOutcome::Bought { remaining: 2 },
            PurchaseOutcome::Bought { remaining: 1 },
            PurchaseOutcome::Bought { remaining: 0 },
        ]
    );
    assert_eq!(state.available_tickets, 0);
    assert_eq!(state.sold_tickets, 3);
}

#[test]
fn oversubscribed_sale_sells_out() {
    let (state, outcomes) = run_sale(20, 30);
    assert_eq!(state.available_tickets, 0);
    assert_eq!(state.sold_tickets, 20);
    assert_eq!(outcomes.len(), 30);
    assert_eq!(bought_count(&outcomes), 20);
    assert_eq!(missed_count(&outcomes), 10);
}

#[test]
fn empty_inventory_means_everyone_misses() {
    let (state, outcomes) = run_sale(0, 5);
    assert_eq!(state.available_tickets, 0);
    assert_eq!(state.sold_tickets, 0);
    assert_eq!(outcomes.len(), 5);
    for o in &outcomes {
        assert_eq!(*o, PurchaseOutcome::Missed);
    }
}

#[test]
fn single_ticket_sells_exactly_once() {
    let (state, outcomes) = run_sale(1, 100);
    assert_eq!(state.available_tickets, 0);
    assert_eq!(state.sold_tickets, 1);
    assert_eq!(bought_count(&outcomes), 1);
    assert_eq!(missed_count(&outcomes), 99);
}

#[test]
fn undersubscribed_sale_leaves_surplus() {
    let (state, outcomes) = run_sale(30, 20);
    assert_eq!(state.available_tickets, 10);
    assert_eq!(state.sold_tickets, 20);
    assert_eq!(bought_count(&outcomes), 20);
    assert_eq!(missed_count(&outcomes), 0);
}

#[test]
fn rerunning_gives_the_same_aggregates() {
    let (first_state, first_outcomes) = run_sale(20, 30);
    let (second_state, second_outcomes) = run_sale(20, 30);
    assert_eq!(first_state, second_state);
    assert_eq!(first_outcomes, second_outcomes);
    assert_eq!(
        (first_state.available_tickets, first_state.sold_tickets),
        (0, 20)
    );
}
