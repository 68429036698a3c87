use borg_db::events::{
    bond_expected_delta, bond_positive_cap_reached, bond_total_cap_reached, hour_window_start,
    prev_hmac_for, type_cap_reached, validate_bond_event, BondEventError,
};

#[test]
fn hour_window_rounds_toward_zero() {
    assert_eq!(hour_window_start(7201), 7200);
    assert_eq!(hour_window_start(3600), 3600);
    assert_eq!(hour_window_start(0), 0);
    assert_eq!(hour_window_start(-1), 0);
    assert_eq!(hour_window_start(-3601), -3600);
    assert_eq!(hour_window_start(i64::MIN), i64::MIN - (i64::MIN % 3600));
}

#[test]
fn bond_deltas_are_fixed_per_type() {
    assert_eq!(bond_expected_delta("tool_success"), Some(1));
    assert_eq!(bond_expected_delta("tool_failure"), Some(-1));
    assert_eq!(bond_expected_delta("creation"), Some(1));
    assert_eq!(bond_expected_delta("correction"), Some(-2));
    assert_eq!(bond_expected_delta("suggestion_accepted"), Some(1));
    assert_eq!(bond_expected_delta("suggestion_rejected"), Some(-1));
    assert_eq!(bond_expected_delta("hacked"), None);
}

#[test]
fn bond_record_rejects_invalid_event_type() {
    assert_eq!(validate_bond_event("custom_exploit", 1), Err(BondEventError::InvalidEventType));
    assert_eq!(validate_bond_event("hacked", -1), Err(BondEventError::InvalidEventType));
}

#[test]
fn bond_record_rejects_wrong_delta() {
    assert_eq!(
        validate_bond_event("tool_success", 99),
        Err(BondEventError::WrongDelta { expected: 1 })
    );
    assert_eq!(validate_bond_event("tool_success", 1), Ok(()));
    assert_eq!(validate_bond_event("correction", -2), Ok(()));
}

#[test]
fn hourly_caps() {
    assert!(!bond_total_cap_reached(14));
    assert!(bond_total_cap_reached(15));
    assert!(!bond_positive_cap_reached(7));
    assert!(bond_positive_cap_reached(8));
    assert!(type_cap_reached(3, 3));
    assert!(!type_cap_reached(2, 3));
    assert!(type_cap_reached(0, 0));
}

#[test]
fn chain_starts_from_genesis() {
    assert_eq!(prev_hmac_for(None), "0");
    assert_eq!(prev_hmac_for(Some("abc".to_string())), "abc");
}
