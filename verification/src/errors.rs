//! The ways in which an operation of the ledger is refused.

use vstd::prelude::*;

verus! {

/// Why an operation was refused. A refused operation changes no record.
#[derive(Clone, Copy, Debug, PartialEq, Eq, Structural)]
pub enum StakeError {
    /// The record to create already stands at its location.
    AlreadyInitialized,
    /// The caller is not the owner of the stake entry, or the reward
    /// destination is not the one the entry names.
    InvalidAuthorization,
    /// A supplied token type is not the one the pool records, or its
    /// descriptor is not in order.
    InvalidTokenType,
    /// A counter would pass the largest value it can hold.
    ArithmeticOverflow,
    /// A counter would fall below zero.
    ArithmeticUnderflow,
    /// The entry claims more than the pool holds.
    OverdrawError,
    /// The token ledger refused a transfer or a mint.
    ExternalTransferFailure,
}

} // verus!
