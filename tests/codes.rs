use lightning_probing::codes::{FailureCode, FailureReason, PaymentStatus};

#[test]
fn failure_code_named_values() {
    assert_eq!(FailureCode::from(1), FailureCode::IncorrectOrUnknownPaymentDetails);
    assert_eq!(FailureCode::from(12), FailureCode::FeeInsufficient);
    assert_eq!(FailureCode::from(15), FailureCode::TemporaryChannelFailure);
    assert_eq!(FailureCode::from(24), FailureCode::InvalidOnionPayload);
    assert_eq!(FailureCode::from(997), FailureCode::InternalFailure);
    assert_eq!(FailureCode::from(998), FailureCode::UnknownFailure);
    assert_eq!(FailureCode::from(999), FailureCode::UnreadableFailure);
}

#[test]
fn failure_code_unknown_kept() {
    assert_eq!(FailureCode::from(0), FailureCode::UnknownFailureCode(0));
    assert_eq!(FailureCode::from(25), FailureCode::UnknownFailureCode(25));
    assert_eq!(FailureCode::from(-3), FailureCode::UnknownFailureCode(-3));
}

#[test]
fn failure_reason_values() {
    assert_eq!(FailureReason::from(0), FailureReason::NoFailure);
    assert_eq!(FailureReason::from(1), FailureReason::Timeout);
    assert_eq!(FailureReason::from(2), FailureReason::NoRoute);
    assert_eq!(FailureReason::from(3), FailureReason::Error);
    assert_eq!(FailureReason::from(4), FailureReason::IncorrectPaymentDetails);
    assert_eq!(FailureReason::from(5), FailureReason::InsufficientBalance);
    assert_eq!(FailureReason::from(6), FailureReason::Unknown(6));
}

#[test]
fn payment_status_values() {
    assert_eq!(PaymentStatus::from(1), PaymentStatus::InFlight);
    assert_eq!(PaymentStatus::from(2), PaymentStatus::Succeeded);
    assert_eq!(PaymentStatus::from(3), PaymentStatus::Failed);
    assert_eq!(PaymentStatus::from(4), PaymentStatus::Unknown(4));
    assert!(PaymentStatus::Failed.is_terminal());
    assert!(PaymentStatus::Succeeded.is_terminal());
    assert!(!PaymentStatus::InFlight.is_terminal());
    assert!(!PaymentStatus::Unknown(0).is_terminal());
}
