//! The dispatcher engine: ordering across hooks, atomicity under
//! injected failures, durability across recovery.

use bpfman::chain::ChainEntry;
use bpfman::engine::{DispatcherKey, FailPoint, World};
use bpfman::errors::BpfmanError;
use bpfman::types::Direction;

fn xdp_key(if_index: u32) -> DispatcherKey {
    DispatcherKey {
        if_index,
        direction: None,
    }
}

fn tc_key(if_index: u32, direction: Direction) -> DispatcherKey {
    DispatcherKey {
        if_index,
        direction: Some(direction),
    }
}

#[test]
fn two_xdp_on_one_interface() {
    let mut w = World::new();
    let eth0 = xdp_key(3);
    let chain = w
        .add_program(eth0, ChainEntry::new(50, 1), FailPoint::NoFailure)
        .unwrap();
    assert_eq!(chain, vec![ChainEntry::new(50, 1)]);
    let chain = w
        .add_program(eth0, ChainEntry::new(10, 2), FailPoint::NoFailure)
        .unwrap();
    assert_eq!(chain, vec![ChainEntry::new(10, 2), ChainEntry::new(50, 1)]);
    assert_eq!(w.chain_at(&eth0), chain);
}

#[test]
fn priority_tie_on_one_hook() {
    let mut w = World::new();
    let eth0 = xdp_key(3);
    w.add_program(eth0, ChainEntry::new(10, 5), FailPoint::NoFailure)
        .unwrap();
    let chain = w
        .add_program(eth0, ChainEntry::new(10, 9), FailPoint::NoFailure)
        .unwrap();
    assert_eq!(chain, vec![ChainEntry::new(10, 5), ChainEntry::new(10, 9)]);
}

#[test]
fn tc_directions_are_independent() {
    let mut w = World::new();
    let ingress = tc_key(3, Direction::Ingress);
    let egress = tc_key(3, Direction::Egress);
    w.add_program(ingress, ChainEntry::new(20, 1), FailPoint::NoFailure)
        .unwrap();
    w.add_program(egress, ChainEntry::new(20, 2), FailPoint::NoFailure)
        .unwrap();
    assert_eq!(w.chain_at(&ingress), vec![ChainEntry::new(20, 1)]);
    assert_eq!(w.chain_at(&egress), vec![ChainEntry::new(20, 2)]);
    w.remove_program(ingress, 1, FailPoint::NoFailure).unwrap();
    assert_eq!(w.chain_at(&ingress), vec![]);
    assert_eq!(w.chain_at(&egress), vec![ChainEntry::new(20, 2)]);
}

#[test]
fn remove_rebuilds_empty() {
    let mut w = World::new();
    let eth0 = xdp_key(3);
    w.add_program(eth0, ChainEntry::new(5, 1), FailPoint::NoFailure)
        .unwrap();
    assert!(w.revision_at(&eth0).is_some());
    let chain = w.remove_program(eth0, 1, FailPoint::NoFailure).unwrap();
    assert_eq!(chain, vec![]);
    assert_eq!(w.chain_at(&eth0), vec![]);
    assert!(w.revision_at(&eth0).is_none());
}

#[test]
fn revision_counts_rebuilds() {
    let mut w = World::new();
    let eth0 = xdp_key(3);
    w.add_program(eth0, ChainEntry::new(5, 1), FailPoint::NoFailure)
        .unwrap();
    assert_eq!(w.revision_at(&eth0), Some(0));
    w.add_program(eth0, ChainEntry::new(6, 2), FailPoint::NoFailure)
        .unwrap();
    assert_eq!(w.revision_at(&eth0), Some(1));
}

#[test]
fn injected_failures_leave_state_as_it_was() {
    let mut w = World::new();
    let eth0 = xdp_key(3);
    w.add_program(eth0, ChainEntry::new(5, 1), FailPoint::NoFailure)
        .unwrap();
    let before = w.chain_at(&eth0);
    for fail in [
        FailPoint::LoadExtension,
        FailPoint::BuildDispatcher,
        FailPoint::Commit,
        FailPoint::Attach,
    ] {
        let r = w.add_program(eth0, ChainEntry::new(1, 2), fail);
        assert!(r.is_err());
        assert_eq!(w.chain_at(&eth0), before);
        let r = w.remove_program(eth0, 1, fail);
        assert!(r.is_err());
        assert_eq!(w.chain_at(&eth0), before);
    }
    match w.add_program(eth0, ChainEntry::new(1, 2), FailPoint::Commit) {
        Err(BpfmanError::DatabaseError(_, _)) => {}
        _ => panic!("expected a store failure"),
    }
    match w.add_program(eth0, ChainEntry::new(1, 2), FailPoint::Attach) {
        Err(BpfmanError::KernelAttach { .. }) => {}
        _ => panic!("expected an attach failure"),
    }
}

#[test]
fn acknowledged_adds_survive_recovery() {
    let mut w = World::new();
    let eth0 = xdp_key(3);
    w.add_program(eth0, ChainEntry::new(50, 1), FailPoint::NoFailure)
        .unwrap();
    w.add_program(eth0, ChainEntry::new(10, 2), FailPoint::NoFailure)
        .unwrap();
    let acked = w.chain_at(&eth0);
    w.recover();
    assert_eq!(w.chain_at(&eth0), acked);
    assert_eq!(w.orphans.len(), 0);
}

#[test]
fn crash_mid_swap_recovers_to_the_new_chain() {
    let mut w = World::new();
    let eth0 = xdp_key(3);
    w.add_program(eth0, ChainEntry::new(50, 1), FailPoint::NoFailure)
        .unwrap();
    let chain = w
        .add_program(eth0, ChainEntry::new(10, 2), FailPoint::UnloadOld)
        .unwrap();
    assert_eq!(w.orphans.len(), 1);
    w.recover();
    assert_eq!(w.orphans.len(), 0);
    assert_eq!(w.chain_at(&eth0), chain);
}

#[test]
fn too_many_programs_on_a_hook() {
    let mut w = World::new();
    let eth0 = xdp_key(3);
    for i in 0..10u32 {
        w.add_program(eth0, ChainEntry::new(1, i), FailPoint::NoFailure)
            .unwrap();
    }
    match w.add_program(eth0, ChainEntry::new(1, 99), FailPoint::NoFailure) {
        Err(BpfmanError::TooManyPrograms) => {}
        _ => panic!("expected the chain to be full"),
    }
}

#[test]
fn removing_an_unknown_id_is_not_found() {
    let mut w = World::new();
    let eth0 = xdp_key(3);
    w.add_program(eth0, ChainEntry::new(5, 1), FailPoint::NoFailure)
        .unwrap();
    match w.remove_program(eth0, 42, FailPoint::NoFailure) {
        Err(BpfmanError::NotFound { id }) => assert_eq!(id, 42),
        _ => panic!("expected a not-found error"),
    }
    assert_eq!(w.chain_at(&eth0), vec![ChainEntry::new(5, 1)]);
}

#[test]
fn one_id_joins_a_hook_once() {
    let mut w = World::new();
    let eth0 = xdp_key(3);
    w.add_program(eth0, ChainEntry::new(5, 1), FailPoint::NoFailure)
        .unwrap();
    match w.add_program(eth0, ChainEntry::new(9, 1), FailPoint::NoFailure) {
        Err(BpfmanError::Conflict) => {}
        _ => panic!("expected a conflict"),
    }
    assert_eq!(w.chain_at(&eth0), vec![ChainEntry::new(5, 1)]);
}
