//! Numeric codes reported by the payment node, and their named forms.
use vstd::prelude::*;

verus! {

/// Why one HTLC attempt failed, as reported by the hop that failed it.
#[derive(Debug, Clone, Copy, PartialEq, Eq, Structural)]
pub enum FailureCode {
    IncorrectOrUnknownPaymentDetails,
    IncorrectPaymentAmount,
    FinalIncorrectCltvExpiry,
    FinalIncorrectHtlcAmount,
    FinalExpiryTooSoon,
    InvalidRealm,
    ExpiryTooSoon,
    InvalidOnionVersion,
    InvalidOnionHmac,
    InvalidOnionKey,
    AmountBelowMinimum,
    FeeInsufficient,
    IncorrectCltvExpiry,
    ChannelDisabled,
    TemporaryChannelFailure,
    RequiredNodeFeatureMissing,
    RequiredChannelFeatureMissing,
    UnknownNextPeer,
    TemporaryNodeFailure,
    PermanentNodeFailure,
    PermanentChannelFailure,
    ExpiryTooFar,
    MppTimeout,
    InvalidOnionPayload,
    InternalFailure,
    UnknownFailure,
    UnreadableFailure,
    /// A code that this library does not name, kept as it was received.
    UnknownFailureCode(i32),
}

/// The named failure code for a raw wire value.
pub open spec fn failure_code_spec(code: i32) -> FailureCode {
    match code {
        1 => FailureCode::IncorrectOrUnknownPaymentDetails,
        2 => FailureCode::IncorrectPaymentAmount,
        3 => FailureCode::FinalIncorrectCltvExpiry,
        4 => FailureCode::FinalIncorrectHtlcAmount,
        5 => FailureCode::FinalExpiryTooSoon,
        6 => FailureCode::InvalidRealm,
        7 => FailureCode::ExpiryTooSoon,
        8 => FailureCode::InvalidOnionVersion,
        9 => FailureCode::InvalidOnionHmac,
        10 => FailureCode::InvalidOnionKey,
        11 => FailureCode::AmountBelowMinimum,
        12 => FailureCode::FeeInsufficient,
        13 => FailureCode::IncorrectCltvExpiry,
        14 => FailureCode::ChannelDisabled,
        15 => FailureCode::TemporaryChannelFailure,
        16 => FailureCode::RequiredNodeFeatureMissing,
        17 => FailureCode::RequiredChannelFeatureMissing,
        18 => FailureCode::UnknownNextPeer,
        19 => FailureCode::TemporaryNodeFailure,
        20 => FailureCode::PermanentNodeFailure,
        21 => FailureCode::PermanentChannelFailure,
        22 => FailureCode::ExpiryTooFar,
        23 => FailureCode::MppTimeout,
        24 => FailureCode::InvalidOnionPayload,
        997 => FailureCode::InternalFailure,
        998 => FailureCode::UnknownFailure,
        999 => FailureCode::UnreadableFailure,
        _ => FailureCode::UnknownFailureCode(code),
    }
}

impl From<i32> for FailureCode {
    fn from(code: i32) -> (r: Self)
        ensures
            r == failure_code_spec(code),
    {
        match code {
            1 => FailureCode::IncorrectOrUnknownPaymentDetails,
            2 => FailureCode::IncorrectPaymentAmount,
            3 => FailureCode::FinalIncorrectCltvExpiry,
            4 => FailureCode::FinalIncorrectHtlcAmount,
            5 => FailureCode::FinalExpiryTooSoon,
            6 => FailureCode::InvalidRealm,
            7 => FailureCode::ExpiryTooSoon,
            8 => FailureCode::InvalidOnionVersion,
            9 => FailureCode::InvalidOnionHmac,
            10 => FailureCode::InvalidOnionKey,
            11 => FailureCode::AmountBelowMinimum,
            12 => FailureCode::FeeInsufficient,
            13 => FailureCode::IncorrectCltvExpiry,
            14 => FailureCode::ChannelDisabled,
            15 => FailureCode::TemporaryChannelFailure,
            16 => FailureCode::RequiredNodeFeatureMissing,
            17 => FailureCode::RequiredChannelFeatureMissing,
            18 => FailureCode::UnknownNextPeer,
            19 => FailureCode::TemporaryNodeFailure,
            20 => FailureCode::PermanentNodeFailure,
            21 => FailureCode::PermanentChannelFailure,
            22 => FailureCode::ExpiryTooFar,
            23 => FailureCode::MppTimeout,
            24 => FailureCode::InvalidOnionPayload,
            997 => FailureCode::InternalFailure,
            998 => FailureCode::UnknownFailure,
            999 => FailureCode::UnreadableFailure,
            _ => FailureCode::UnknownFailureCode(code),
        }
    }
}

impl vstd::std_specs::convert::FromSpecImpl<i32> for FailureCode {
    open spec fn obeys_from_spec() -> bool {
        true
    }

    open spec fn from_spec(code: i32) -> FailureCode {
        failure_code_spec(code)
    }
}

/// Why a whole payment attempt failed.
#[derive(Debug, Clone, Copy, PartialEq, Eq, Structural)]
pub enum FailureReason {
    /// No failure has been reported.
    NoFailure,
    Timeout,
    NoRoute,
    Error,
    IncorrectPaymentDetails,
    InsufficientBalance,
    /// A reason that this library does not name, kept as it was received.
    Unknown(i32),
}

/// The named failure reason for a raw wire value.
pub open spec fn failure_reason_spec(value: i32) -> FailureReason {
    match value {
        0 => FailureReason::NoFailure,
        1 => FailureReason::Timeout,
        2 => FailureReason::NoRoute,
        3 => FailureReason::Error,
        4 => FailureReason::IncorrectPaymentDetails,
        5 => FailureReason::InsufficientBalance,
        _ => FailureReason::Unknown(value),
    }
}

impl From<i32> for FailureReason {
    fn from(value: i32) -> (r: Self)
        ensures
            r == failure_reason_spec(value),
    {
        match value {
            0 => FailureReason::NoFailure,
            1 => FailureReason::Timeout,
            2 => FailureReason::NoRoute,
            3 => FailureReason::Error,
            4 => FailureReason::IncorrectPaymentDetails,
            5 => FailureReason::InsufficientBalance,
            _ => FailureReason::Unknown(value),
        }
    }
}

impl vstd::std_specs::convert::FromSpecImpl<i32> for FailureReason {
    open spec fn obeys_from_spec() -> bool {
        true
    }

    open spec fn from_spec(value: i32) -> FailureReason {
        failure_reason_spec(value)
    }
}

/// The state of a payment attempt as streamed by the payment node.
#[derive(Debug, Clone, Copy, PartialEq, Eq, Structural)]
pub enum PaymentStatus {
    InFlight,
    Succeeded,
    Failed,
    /// Any other status value, kept as it was received.
    Unknown(i32),
}

/// The named status for a raw wire value.
pub open spec fn payment_status_spec(value: i32) -> PaymentStatus {
    match value {
        1 => PaymentStatus::InFlight,
        2 => PaymentStatus::Succeeded,
        3 => PaymentStatus::Failed,
        _ => PaymentStatus::Unknown(value),
    }
}

impl From<i32> for PaymentStatus {
    fn from(value: i32) -> (r: Self)
        ensures
            r == payment_status_spec(value),
    {
        match value {
            1 => PaymentStatus::InFlight,
            2 => PaymentStatus::Succeeded,
            3 => PaymentStatus::Failed,
            _ => PaymentStatus::Unknown(value),
        }
    }
}

impl vstd::std_specs::convert::FromSpecImpl<i32> for PaymentStatus {
    open spec fn obeys_from_spec() -> bool {
        true
    }

    open spec fn from_spec(value: i32) -> PaymentStatus {
        payment_status_spec(value)
    }
}

impl PaymentStatus {
    /// Whether no further update is expected after this status.
    pub open spec fn is_terminal_spec(self) -> bool {
        self is Succeeded || self is Failed
    }

    pub fn is_terminal(&self) -> (r: bool)
        ensures
            r == self.is_terminal_spec(),
    {
        match self {
            PaymentStatus::Succeeded | PaymentStatus::Failed => true,
            _ => false,
        }
    }
}

} // verus!
