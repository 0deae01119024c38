//! The chain order: priority ascending, id as the tie-breaker.

use bpfman::chain::{insert_entry, position_of, remove_entry, ChainEntry, DISPATCHER_SLOTS};
use bpfman::errors::BpfmanError;

#[test]
fn lower_priority_goes_first() {
    let chain = vec![];
    let chain = insert_entry(&chain, ChainEntry::new(50, 1), DISPATCHER_SLOTS).unwrap();
    assert_eq!(chain, vec![ChainEntry::new(50, 1)]);
    let chain = insert_entry(&chain, ChainEntry::new(10, 2), DISPATCHER_SLOTS).unwrap();
    assert_eq!(chain, vec![ChainEntry::new(10, 2), ChainEntry::new(50, 1)]);
}

#[test]
fn priority_tie_breaks_by_id() {
    let chain = vec![];
    let chain = insert_entry(&chain, ChainEntry::new(10, 5), DISPATCHER_SLOTS).unwrap();
    let chain = insert_entry(&chain, ChainEntry::new(10, 9), DISPATCHER_SLOTS).unwrap();
    assert_eq!(chain, vec![ChainEntry::new(10, 5), ChainEntry::new(10, 9)]);
    assert_eq!(position_of(&chain, 5), Some(0));
    assert_eq!(position_of(&chain, 9), Some(1));
}

#[test]
fn negative_priorities_sort_ahead() {
    let chain = vec![];
    let chain = insert_entry(&chain, ChainEntry::new(0, 7), DISPATCHER_SLOTS).unwrap();
    let chain = insert_entry(&chain, ChainEntry::new(-5, 8), DISPATCHER_SLOTS).unwrap();
    assert_eq!(chain[0], ChainEntry::new(-5, 8));
}

#[test]
fn capacity_is_enforced() {
    let mut chain = vec![];
    for i in 0..DISPATCHER_SLOTS {
        chain = insert_entry(&chain, ChainEntry::new(10, i as u32), DISPATCHER_SLOTS).unwrap();
    }
    assert_eq!(chain.len(), DISPATCHER_SLOTS);
    match insert_entry(&chain, ChainEntry::new(10, 99), DISPATCHER_SLOTS) {
        Err(BpfmanError::TooManyPrograms) => {}
        _ => panic!("expected the chain to be full"),
    }
}

#[test]
fn remove_keeps_the_rest_in_order() {
    let chain = vec![
        ChainEntry::new(1, 4),
        ChainEntry::new(2, 3),
        ChainEntry::new(3, 6),
    ];
    let chain = remove_entry(&chain, 3);
    assert_eq!(chain, vec![ChainEntry::new(1, 4), ChainEntry::new(3, 6)]);
    let chain = remove_entry(&chain, 42);
    assert_eq!(chain.len(), 2);
    assert_eq!(position_of(&chain, 42), None);
}
