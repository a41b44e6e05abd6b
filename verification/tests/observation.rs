use eva01::observation::resolve_observation_set;
use eva01::types::{AccountReference, Address};

fn addr(id: u64) -> Address {
    Address { id }
}

#[test]
fn resolution_is_exposures_minus_exclusions_in_order() {
    let exposures = vec![addr(1), addr(2), addr(3), addr(2)];
    let exclusions = vec![addr(2)];
    let resolved = resolve_observation_set(&exposures, &exclusions);
    assert_eq!(resolved, vec![addr(1), addr(3)]);
}

#[test]
fn repeated_exposures_appear_once_keeping_first_position() {
    let exposures = vec![addr(5), addr(5), addr(7), addr(5), addr(9), addr(7)];
    let exclusions = vec![];
    let resolved = resolve_observation_set(&exposures, &exclusions);
    assert_eq!(resolved, vec![addr(5), addr(7), addr(9)]);
}

#[test]
fn empty_exposures_resolve_to_nothing() {
    let resolved = resolve_observation_set(&vec![], &vec![addr(1)]);
    assert!(resolved.is_empty());
}

#[test]
fn excluding_every_exposure_resolves_to_nothing() {
    let exposures = vec![addr(1), addr(2)];
    let exclusions = vec![addr(2), addr(1)];
    let resolved = resolve_observation_set(&exposures, &exclusions);
    assert!(resolved.is_empty());
}

#[test]
fn prospective_banks_follow_current_exposures_without_repeats() {
    let account = AccountReference { address: addr(100), exposures: vec![addr(1), addr(2)] };
    let prospective = vec![addr(3), addr(1)];
    let resolved = account.observation_addresses(&prospective, &vec![]);
    assert_eq!(resolved, vec![addr(1), addr(2), addr(3)]);
}
