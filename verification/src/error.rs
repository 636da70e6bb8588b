//! The ways in which an operation is refused.

use vstd::prelude::*;

verus! {

/// Why an operation was refused. A refused operation changes no record.
#[derive(Clone, Copy, Debug, PartialEq, Eq, Structural, Hash)]
pub enum ExchangeError {
    /// A supplied address is not the one derived for the record.
    AddressMismatch,
    /// The holder record to create is already there.
    AlreadyExists,
    /// The host does not attest the caller's identity.
    AuthenticationFailure,
    /// The amount to buy is zero.
    InvalidAmount,
    /// The stock has fewer units left than the amount to buy.
    InsufficientSupply,
    /// The host reported that the value transfer failed.
    ValueTransferFailure,
    /// A sum, product or counter does not fit in 64 bits.
    OverflowError,
    /// No bump seed gives a valid address for the holder record.
    DerivationExhausted,
}

} // verus!
