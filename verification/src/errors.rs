use vstd::prelude::*;
use crate::types::EscrowState;

verus! {

/// Stable error codes for the escrow lifecycle.
///
/// `code` gives each variant its numeric ABI value; the first forty-five are
/// fixed, the remaining ones were appended after them.
#[derive(Clone, Copy, Debug, PartialEq, Eq, Structural, PartialOrd, Ord, Hash)]
pub enum ContractError {
    /// An amount is zero, negative, or otherwise invalid for the operation.
    InvalidAmount,
    /// The contract does not hold enough tokens for the requested withdrawal.
    InsufficientBalance,
    /// The requested escrow id does not exist.
    EscrowNotFound,
    /// The escrow is in a state that does not permit the requested action.
    InvalidState,
    /// The caller may not perform the requested action.
    NotAuthorized,
    /// `initialize` was called on an initialized contract (or a migration is a no-op).
    AlreadyInitialized,
    /// A fee in basis points exceeds its cap.
    FeeExceedsMax,
    /// The action needs a buyer but the escrow has none.
    EscrowHasNoBuyer,
    /// A release window has not elapsed yet.
    ShippingWindowNotElapsed,
    /// Reserved: evidence digests are fixed-size, so this is never returned.
    InvalidEvidenceHash,
    /// No dispute record exists for the escrow.
    DisputeNotFound,
    /// Checked arithmetic failed.
    ArithmeticError,
    /// The buyer's dispute window has not closed yet.
    DeliveryBeforeDisputeWindow,
    /// The contract is paused.
    ContractPaused,
    /// Checked arithmetic on a deadline overflowed.
    ArithmeticOverflow,
    /// The transition is not part of the lifecycle.
    InvalidStateTransition,
    /// A text field is longer than allowed.
    InputTooLong,
    /// An address is invalid for its role.
    InvalidAddress,
    /// An update would not change the stored address.
    SameAddress,
    /// The amount is above the maximum.
    AmountExceedsMaximum,
    /// The tracking id is empty.
    InvalidTrackingId,
    /// Release needs a recorded delivery first.
    DeliveryNotRecorded,
    /// Two roles that must differ share an address.
    ConflictingRoles,
    /// The dispute window is still open (or, for appeals, closed).
    DisputeWindowStillOpen,
    /// The resolver is not approved while strict mode is on.
    UnauthorizedResolver,
    /// Emergency drain needs a paused contract.
    ContractNotPaused,
    /// The token is not on the enabled allowlist.
    TokenNotAllowed,
    /// The escrow has expired.
    EscrowExpired,
    /// The amount is below the minimum.
    AmountBelowMinimum,
    /// The escrow is not awaiting finalization.
    NotPendingFinalization,
    /// The appeal window is still open.
    AppealWindowActive,
    /// The platform fee exceeds its cap.
    PlatformFeeExceedsMax,
    /// The shipping window is outside its allowed range.
    InvalidShippingWindow,
    /// Delivery has already been recorded.
    DeliveryAlreadyRecorded,
    /// The contract has not been initialized.
    NotInitialized,
    /// A collection index is out of bounds.
    IndexOutOfBounds,
    /// An expiration time is not in the future.
    InvalidExpiration,
    /// No delivery proposal exists.
    DeliveryNotProposed,
    /// The delivery timelock has not elapsed.
    TimelockNotElapsed,
    /// The expiry grace period has not elapsed.
    GracePeriodNotElapsed,
    /// The dispute cannot be appealed again.
    MaxAppealsReached,
    /// A basket's tokens and amounts do not match.
    BasketTokenMismatch,
    /// A batched call's argument is missing or of the wrong kind.
    InvalidMulticallArg,
    /// Payee shares do not sum to the whole.
    PayeeBpsMismatch,
    /// The escrow's message thread is full.
    TooManyMessages,
    /// The escrow has already completed.
    EscrowAlreadyCompleted,
    /// The escrow has already been refunded.
    EscrowAlreadyRefunded,
    /// The buyer's dispute window has closed.
    DisputeWindowClosed,
    /// A multi-resolver threshold is zero or larger than the resolver set.
    InvalidResolverThreshold,
    /// The arbitration fee exceeds its cap.
    ArbitrationFeeExceedsMax,
    /// A payee index is out of bounds.
    PayeeIndexOutOfBounds,
    /// A basket index is out of bounds.
    BasketIndexOutOfBounds,
    /// A fallback resolver's deadline lies too far in the future.
    InvalidFallbackDeadline,
    /// Fee arithmetic overflowed.
    FeeCalculationOverflow,
    /// Net amount arithmetic overflowed.
    AmountCalculationOverflow,
}

/// The numeric ABI code assigned to each error.
pub open spec fn abi_code(e: ContractError) -> u32 {
    match e {
        ContractError::InvalidAmount => 1,
        ContractError::InsufficientBalance => 2,
        ContractError::EscrowNotFound => 3,
        ContractError::InvalidState => 4,
        ContractError::NotAuthorized => 5,
        ContractError::AlreadyInitialized => 6,
        ContractError::FeeExceedsMax => 7,
        ContractError::EscrowHasNoBuyer => 8,
        ContractError::ShippingWindowNotElapsed => 9,
        ContractError::InvalidEvidenceHash => 10,
        ContractError::DisputeNotFound => 11,
        ContractError::ArithmeticError => 12,
        ContractError::DeliveryBeforeDisputeWindow => 13,
        ContractError::ContractPaused => 14,
        ContractError::ArithmeticOverflow => 15,
        ContractError::InvalidStateTransition => 16,
        ContractError::InputTooLong => 17,
        ContractError::InvalidAddress => 18,
        ContractError::SameAddress => 19,
        ContractError::AmountExceedsMaximum => 20,
        ContractError::InvalidTrackingId => 21,
        ContractError::DeliveryNotRecorded => 22,
        ContractError::ConflictingRoles => 23,
        ContractError::DisputeWindowStillOpen => 24,
        ContractError::UnauthorizedResolver => 25,
        ContractError::ContractNotPaused => 26,
        ContractError::TokenNotAllowed => 27,
        ContractError::EscrowExpired => 28,
        ContractError::AmountBelowMinimum => 29,
        ContractError::NotPendingFinalization => 30,
        ContractError::AppealWindowActive => 31,
        ContractError::PlatformFeeExceedsMax => 32,
        ContractError::InvalidShippingWindow => 33,
        ContractError::DeliveryAlreadyRecorded => 34,
        ContractError::NotInitialized => 35,
        ContractError::IndexOutOfBounds => 36,
        ContractError::InvalidExpiration => 37,
        ContractError::DeliveryNotProposed => 38,
        ContractError::TimelockNotElapsed => 39,
        ContractError::GracePeriodNotElapsed => 40,
        ContractError::MaxAppealsReached => 41,
        ContractError::BasketTokenMismatch => 42,
        ContractError::InvalidMulticallArg => 43,
        ContractError::PayeeBpsMismatch => 44,
        ContractError::TooManyMessages => 45,
        ContractError::EscrowAlreadyCompleted => 46,
        ContractError::EscrowAlreadyRefunded => 47,
        ContractError::DisputeWindowClosed => 48,
        ContractError::InvalidResolverThreshold => 49,
        ContractError::ArbitrationFeeExceedsMax => 50,
        ContractError::PayeeIndexOutOfBounds => 51,
        ContractError::BasketIndexOutOfBounds => 52,
        ContractError::InvalidFallbackDeadline => 53,
        ContractError::FeeCalculationOverflow => 54,
        ContractError::AmountCalculationOverflow => 55,
    }
}

impl ContractError {
    /// The numeric ABI code of the error.
    pub fn code(&self) -> (c: u32)
        ensures
            c == abi_code(*self),
    {
        match self {
            ContractError::InvalidAmount => 1,
            ContractError::InsufficientBalance => 2,
            ContractError::EscrowNotFound => 3,
            ContractError::InvalidState => 4,
            ContractError::NotAuthorized => 5,
            ContractError::AlreadyInitialized => 6,
            ContractError::FeeExceedsMax => 7,
            ContractError::EscrowHasNoBuyer => 8,
            ContractError::ShippingWindowNotElapsed => 9,
            ContractError::InvalidEvidenceHash => 10,
            ContractError::DisputeNotFound => 11,
            ContractError::ArithmeticError => 12,
            ContractError::DeliveryBeforeDisputeWindow => 13,
            ContractError::ContractPaused => 14,
            ContractError::ArithmeticOverflow => 15,
            ContractError::InvalidStateTransition => 16,
            ContractError::InputTooLong => 17,
            ContractError::InvalidAddress => 18,
            ContractError::SameAddress => 19,
            ContractError::AmountExceedsMaximum => 20,
            ContractError::InvalidTrackingId => 21,
            ContractError::DeliveryNotRecorded => 22,
            ContractError::ConflictingRoles => 23,
            ContractError::DisputeWindowStillOpen => 24,
            ContractError::UnauthorizedResolver => 25,
            ContractError::ContractNotPaused => 26,
            ContractError::TokenNotAllowed => 27,
            ContractError::EscrowExpired => 28,
            ContractError::AmountBelowMinimum => 29,
            ContractError::NotPendingFinalization => 30,
            ContractError::AppealWindowActive => 31,
            ContractError::PlatformFeeExceedsMax => 32,
            ContractError::InvalidShippingWindow => 33,
            ContractError::DeliveryAlreadyRecorded => 34,
            ContractError::NotInitialized => 35,
            ContractError::IndexOutOfBounds => 36,
            ContractError::InvalidExpiration => 37,
            ContractError::DeliveryNotProposed => 38,
            ContractError::TimelockNotElapsed => 39,
            ContractError::GracePeriodNotElapsed => 40,
            ContractError::MaxAppealsReached => 41,
            ContractError::BasketTokenMismatch => 42,
            ContractError::InvalidMulticallArg => 43,
            ContractError::PayeeBpsMismatch => 44,
            ContractError::TooManyMessages => 45,
            ContractError::EscrowAlreadyCompleted => 46,
            ContractError::EscrowAlreadyRefunded => 47,
            ContractError::DisputeWindowClosed => 48,
            ContractError::InvalidResolverThreshold => 49,
            ContractError::ArbitrationFeeExceedsMax => 50,
            ContractError::PayeeIndexOutOfBounds => 51,
            ContractError::BasketIndexOutOfBounds => 52,
            ContractError::InvalidFallbackDeadline => 53,
            ContractError::FeeCalculationOverflow => 54,
            ContractError::AmountCalculationOverflow => 55,
        }
    }
}

/// The error for an action refused because of the escrow's state: a
/// completed or refunded escrow says so, any other state gives `fallback`.
pub fn terminal_state_error(state: &EscrowState, fallback: ContractError) -> (e: ContractError)
    ensures
        e == (match *state {
            EscrowState::Completed => ContractError::EscrowAlreadyCompleted,
            EscrowState::Refunded => ContractError::EscrowAlreadyRefunded,
            _ => fallback,
        }),
{
    match state {
        EscrowState::Completed => ContractError::EscrowAlreadyCompleted,
        EscrowState::Refunded => ContractError::EscrowAlreadyRefunded,
        _ => fallback,
    }
}

} // verus!
