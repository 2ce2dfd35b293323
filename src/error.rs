use vstd::prelude::*;

verus! {

/// Why an escrow transition refused to run.
#[derive(Clone, Copy, Debug, PartialEq, Eq, Structural)]
pub enum ErrorCode {
    InvalidAmount,
    InvalidExpiration,
    RequestIdTooLong,
    AlreadyPaid,
    PaymentExpired,
    InvalidRequestId,
    UnauthorizedSeller,
    NotPaid,
    UnauthorizedPayer,
    PaymentNotExpired,
}

impl ErrorCode {
    /// The human-readable message of the error.
    pub fn message(&self) -> &'static str {
        match self {
            ErrorCode::InvalidAmount => "Invalid amount: must be greater than 0",
            ErrorCode::InvalidExpiration => "Invalid expiration: must be in the future",
            ErrorCode::RequestIdTooLong => "Request ID too long: maximum 64 characters",
            ErrorCode::AlreadyPaid => "Payment already made",
            ErrorCode::PaymentExpired => "Payment expired",
            ErrorCode::InvalidRequestId => "Invalid request ID",
            ErrorCode::UnauthorizedSeller => "Unauthorized seller",
            ErrorCode::NotPaid => "Payment not made yet",
            ErrorCode::UnauthorizedPayer => "Unauthorized payer",
            ErrorCode::PaymentNotExpired => "Payment not expired yet",
        }
    }
}

/// Why an operation on the ledger of records failed.
#[derive(Clone, Copy, Debug, PartialEq, Eq, Structural)]
pub enum LedgerError {
    /// A live record already exists for the (seller, request id) pair.
    AccountInUse,
    /// No live record exists for the (seller, request id) pair.
    AccountNotFound,
    /// The record exists but the transition's own checks refused.
    Escrow(ErrorCode),
}

} // verus!
