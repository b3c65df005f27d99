//! Error taxonomy of the ledger and its codec.

use vstd::prelude::*;

verus! {

/// Caller input or current state fails a business rule; reported, never
/// retried automatically.
#[derive(Clone, Copy, Debug, PartialEq, Eq, Structural)]
pub enum ValidationError {
    /// A risk score above 100 was supplied.
    OutOfRange,
    /// The requested loan amount exceeds the loan-to-value ceiling.
    LoanTooHigh,
    /// The collateral's current risk score does not permit liquidation.
    NotEligible,
}

/// An operation was attempted against a record in the wrong lifecycle state.
#[derive(Clone, Copy, Debug, PartialEq, Eq, Structural)]
pub enum StateError {
    /// A record already occupies the derived address.
    AlreadyExists,
    /// The record is not active.
    Inactive,
}

/// Malformed or truncated binary record input: a version mismatch or data
/// corruption.
#[derive(Clone, Copy, Debug, PartialEq, Eq, Structural)]
pub struct CodecError;

/// The nonce space was exhausted while deriving an address; a fatal
/// configuration or environment anomaly.
#[derive(Clone, Copy, Debug, PartialEq, Eq, Structural)]
pub struct AddressDerivationError;

/// Environment-level submission failure. `Conflict` is retryable with fresh
/// inputs; the others are surfaced to the caller.
#[derive(Clone, Copy, Debug, PartialEq, Eq, Structural)]
pub enum ExecutionError {
    Conflict,
    Unreachable,
    Rejected,
}

/// Any failure of a ledger operation.
#[derive(Clone, Copy, Debug, PartialEq, Eq, Structural)]
pub enum LedgerError {
    Validation(ValidationError),
    State(StateError),
    AddressDerivation(AddressDerivationError),
    Codec(CodecError),
    /// No record is stored at the given address.
    NotFound,
}

} // verus!
