//! The error taxonomy shared by every component.

use vstd::prelude::*;

verus! {

/// Why a ledger primitive rejected a burn or a transfer.
#[derive(Clone, Copy, Debug, PartialEq, Eq, Structural)]
pub enum LedgerError {
    /// The debited account holds less than the amount asked for.
    InsufficientFunds,
    /// The two accounts of a transfer hold different token types.
    MintMismatch,
    /// The credited balance would leave the range of `u64`.
    Overflow,
}

/// Every way an operation of the ledger can fail. A failed operation changes
/// nothing.
#[derive(Clone, Copy, Debug, PartialEq, Eq, Structural)]
pub enum ErrorCode {
    /// The disposed amount is zero.
    InvalidAmount,
    /// The death index lies outside 1..=100.
    InvalidSeverity,
    /// The station name is longer than its reserved storage.
    InvalidName,
    /// The station description is longer than its reserved storage.
    InvalidDescription,
    /// The storage slot to be created is already occupied.
    AlreadyExists,
    /// The station is missing, or a token account is not bound to the
    /// expected token type and owner.
    AccountMismatch,
    /// The burn was rejected; carries the cause.
    BurnFailed(LedgerError),
    /// The reward transfer was rejected; carries the cause.
    TransferFailed(LedgerError),
    /// A counter would leave the range of `u64`.
    Overflow,
}

} // verus!
