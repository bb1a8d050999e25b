//! Reconfiguration detection and version bisection.

use aptos_logger::config::{config_address, EventKey};
use aptos_logger::replay::{is_reconfiguration, BisectState};

#[test]
fn reconfiguration_detected_by_epoch_key() {
    let other = EventKey::new_from_address(&config_address(), 7);
    let epoch = EventKey::new_from_address(&config_address(), 5);
    assert!(!is_reconfiguration(&vec![]));
    assert!(!is_reconfiguration(&vec![other]));
    let other2 = EventKey::new_from_address(&config_address(), 7);
    assert!(is_reconfiguration(&vec![other2, epoch]));
}

#[test]
fn bisection_finds_first_failing_version() {
    // The probe fails from version 6 on; the search over [0, 10) must end
    // at 6.
    let fails_from = 6u64;
    let mut state = BisectState::new(0, 10);
    while let Some(mid) = state.next_probe() {
        state = state.step(mid >= fails_from);
    }
    assert_eq!(state.result, Some(fails_from));
}

#[test]
fn bisection_with_no_failure_reports_none() {
    let mut state = BisectState::new(3, 9);
    while let Some(_mid) = state.next_probe() {
        state = state.step(false);
    }
    assert_eq!(state.result, None);
}

#[test]
fn bisection_steps_narrow_the_range() {
    let state = BisectState::new(0, 8);
    let mid = state.next_probe().unwrap();
    assert_eq!(mid, 4);
    let failed = state.step(true);
    assert_eq!(failed.result, Some(4));
    assert_eq!((failed.begin, failed.end), (0, 4));
    let passed = state.step(false);
    assert_eq!(passed.result, None);
    assert_eq!((passed.begin, passed.end), (5, 8));
}
