use windscribe_ephemeral_port::errors::ErrorKind;
use windscribe_ephemeral_port::reconcile::{decide, replace_outcome, ReconcileAction};
use windscribe_ephemeral_port::windscribe::{
    get_epf_expiration, WindscribeEpfInfo, WindscribeEpfStatus, MAX_EPOCH_SECS, SEVEN_DAYS_SECS,
};

#[test]
fn expiry_is_exactly_seven_days_later() {
    assert_eq!(get_epf_expiration(0).unwrap(), 604800);
    assert_eq!(get_epf_expiration(1700000000).unwrap(), 1700000000 + 604800);
    assert_eq!(get_epf_expiration(1).unwrap(), 1 + SEVEN_DAYS_SECS);
}

#[test]
fn expiry_rejects_out_of_range_epochs() {
    let err = get_epf_expiration(-1).unwrap_err();
    assert_eq!(err.kind, ErrorKind::Parse);
    let err = get_epf_expiration(MAX_EPOCH_SECS + 1).unwrap_err();
    assert_eq!(err.kind, ErrorKind::Parse);
    assert_eq!(
        get_epf_expiration(MAX_EPOCH_SECS).unwrap(),
        MAX_EPOCH_SECS + SEVEN_DAYS_SECS
    );
}

#[test]
fn matching_unexpired_port_is_kept_with_remaining_delay() {
    let now = 1700000000;
    let status = WindscribeEpfStatus::Enabled(WindscribeEpfInfo {
        expires: now + 100,
        internal_port: 7000,
        external_port: 7000,
    });
    match decide(&status, now, 0) {
        ReconcileAction::Keep(outcome) => {
            assert_eq!(outcome.port, 7000);
            assert_eq!(outcome.delay_secs, 100);
        }
        other => panic!("expected keep, got {:?}", other),
    }
}

#[test]
fn mismatched_ports_always_replace() {
    let now = 1700000000;
    for expires in [now - 5000, now + 5000, now + 999999] {
        let status = WindscribeEpfStatus::Enabled(WindscribeEpfInfo {
            expires,
            internal_port: 5000,
            external_port: 6000,
        });
        match decide(&status, now, 0) {
            ReconcileAction::Replace { delete_existing } => assert!(delete_existing),
            other => panic!("expected replace, got {:?}", other),
        }
    }
}

#[test]
fn expired_port_is_replaced() {
    let now = 1700000000;
    let status = WindscribeEpfStatus::Enabled(WindscribeEpfInfo {
        expires: now - 1,
        internal_port: 7000,
        external_port: 7000,
    });
    match decide(&status, now, 0) {
        ReconcileAction::Replace { delete_existing } => assert!(delete_existing),
        other => panic!("expected replace, got {:?}", other),
    }
    // on the boundary the forwarding counts as expired
    let status = WindscribeEpfStatus::Enabled(WindscribeEpfInfo {
        expires: now,
        internal_port: 7000,
        external_port: 7000,
    });
    assert!(matches!(
        decide(&status, now, 0),
        ReconcileAction::Replace { delete_existing: true }
    ));
}

#[test]
fn extra_delay_tolerates_a_just_expired_port() {
    let now = 1700000000;
    let status = WindscribeEpfStatus::Enabled(WindscribeEpfInfo {
        expires: now - 30,
        internal_port: 7000,
        external_port: 7000,
    });
    match decide(&status, now, 60) {
        ReconcileAction::Keep(outcome) => {
            assert_eq!(outcome.port, 7000);
            assert_eq!(outcome.delay_secs, 30);
        }
        other => panic!("expected keep, got {:?}", other),
    }
}

#[test]
fn disabled_always_replaces_without_delete() {
    let status = WindscribeEpfStatus::Disabled;
    assert!(matches!(
        decide(&status, 1700000000, 0),
        ReconcileAction::Replace { delete_existing: false }
    ));
    assert!(matches!(
        decide(&status, 0, 12345),
        ReconcileAction::Replace { delete_existing: false }
    ));
}

#[test]
fn mismatched_fresh_allocation_is_a_consistency_error() {
    let fresh = WindscribeEpfInfo {
        expires: 1700604800,
        internal_port: 7001,
        external_port: 7002,
    };
    let err = replace_outcome(&fresh, 1700000000, 0).unwrap_err();
    assert_eq!(err.kind, ErrorKind::Consistency);
}

#[test]
fn fresh_allocation_outcome_uses_derived_expiry() {
    let now = 1700000000;
    let fresh = WindscribeEpfInfo {
        expires: now + SEVEN_DAYS_SECS,
        internal_port: 7001,
        external_port: 7001,
    };
    let outcome = replace_outcome(&fresh, now, 0).unwrap();
    assert_eq!(outcome.port, 7001);
    assert_eq!(outcome.delay_secs, SEVEN_DAYS_SECS as u64);
}

#[test]
fn fresh_allocation_delay_is_floored_at_zero() {
    let now = 1700000000;
    let fresh = WindscribeEpfInfo {
        expires: now - 500,
        internal_port: 7001,
        external_port: 7001,
    };
    let outcome = replace_outcome(&fresh, now, 0).unwrap();
    assert_eq!(outcome.delay_secs, 0);
}
