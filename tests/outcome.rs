use lightning_probing::codes::{FailureCode, FailureReason, PaymentStatus};
use lightning_probing::outcome::{
    classify_update, extract_failure_details, Hop, HtlcAttempt, PaymentRecord,
};

fn record(status: PaymentStatus, reason: FailureReason) -> PaymentRecord {
    PaymentRecord { status, failure_reason: reason, htlcs: vec![] }
}

fn hop(id: u64, key: &str) -> Hop {
    Hop { id, pubkey: key.to_string() }
}

#[test]
fn incorrect_details_is_success() {
    let r = classify_update(record(PaymentStatus::Failed, FailureReason::IncorrectPaymentDetails)).unwrap();
    assert!(r.is_probe_success);
    assert!(!r.settled_unexpectedly);
    assert_eq!(r.failure_reason, FailureReason::IncorrectPaymentDetails);
}

#[test]
fn other_failures_are_not_success() {
    let reasons = vec![
        FailureReason::NoFailure,
        FailureReason::Timeout,
        FailureReason::NoRoute,
        FailureReason::Error,
        FailureReason::InsufficientBalance,
        FailureReason::Unknown(9),
    ];
    for reason in reasons {
        let r = classify_update(record(PaymentStatus::Failed, reason)).unwrap();
        assert!(!r.is_probe_success);
        assert!(!r.settled_unexpectedly);
        assert_eq!(r.failure_reason, reason);
    }
}

#[test]
fn settled_payment_flagged() {
    let r = classify_update(record(PaymentStatus::Succeeded, FailureReason::NoFailure)).unwrap();
    assert!(!r.is_probe_success);
    assert!(r.settled_unexpectedly);
}

#[test]
fn in_flight_not_terminal() {
    assert!(classify_update(record(PaymentStatus::InFlight, FailureReason::NoFailure)).is_none());
    assert!(classify_update(record(PaymentStatus::Unknown(4), FailureReason::NoFailure)).is_none());
}

#[test]
fn empty_route_omitted() {
    let payment = PaymentRecord {
        status: PaymentStatus::Failed,
        failure_reason: FailureReason::NoRoute,
        htlcs: vec![
            HtlcAttempt { route: Some(vec![]), failure_code: Some(15) },
            HtlcAttempt { route: None, failure_code: Some(1) },
        ],
    };
    assert!(extract_failure_details(&payment).is_empty());
}

#[test]
fn failed_route_kept_in_order() {
    let payment = PaymentRecord {
        status: PaymentStatus::Failed,
        failure_reason: FailureReason::NoRoute,
        htlcs: vec![
            HtlcAttempt { route: Some(vec![hop(7, "02aa"), hop(8, "03bb")]), failure_code: Some(15) },
            HtlcAttempt { route: Some(vec![hop(9, "02cc")]), failure_code: None },
            HtlcAttempt { route: Some(vec![]), failure_code: Some(12) },
            HtlcAttempt { route: Some(vec![hop(5, "02dd")]), failure_code: Some(4242) },
        ],
    };
    let d = extract_failure_details(&payment);
    assert_eq!(d.len(), 2);
    assert_eq!(d[0].code, FailureCode::TemporaryChannelFailure);
    assert_eq!(d[0].hops.len(), 2);
    assert_eq!((d[0].hops[0].id, d[0].hops[0].pubkey.as_str()), (7, "02aa"));
    assert_eq!((d[0].hops[1].id, d[0].hops[1].pubkey.as_str()), (8, "03bb"));
    assert_eq!(d[1].code, FailureCode::UnknownFailureCode(4242));
    assert_eq!((d[1].hops[0].id, d[1].hops[0].pubkey.as_str()), (5, "02dd"));
}
