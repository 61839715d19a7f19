use internet_identity::state::{archive_status_cache_valid, salt_from_random, PersistentState, UsageMetrics};

const HOUR: u64 = 3_600_000_000_000;

#[test]
fn archive_status_cache_lasts_an_hour() {
    assert!(archive_status_cache_valid(10, 10 + HOUR));
    assert!(!archive_status_cache_valid(10, 11 + HOUR));
    assert!(archive_status_cache_valid(10, 5));
}

#[test]
fn salt_needs_32_bytes() {
    assert_eq!(salt_from_random(vec![3; 32]), Ok(vec![3; 32]));
    assert_eq!(salt_from_random(vec![3; 31]), Err(31));
}

#[test]
fn persistent_state_defaults() {
    let s = PersistentState::new();
    assert_eq!(s.max_num_latest_delegation_origins, Some(1000));
    assert_eq!(s.canister_creation_cycles_cost, 0);
    let mut old = PersistentState { max_num_latest_delegation_origins: None, ..s.clone() };
    old.fill_defaults();
    assert_eq!(old.max_num_latest_delegation_origins, Some(1000));
    let mut kept = PersistentState { max_num_latest_delegation_origins: Some(5), ..s };
    kept.fill_defaults();
    assert_eq!(kept.max_num_latest_delegation_origins, Some(5));
    let m = UsageMetrics::default();
    assert_eq!(m.delegation_counter + m.anchor_operation_counter, 0);
}
