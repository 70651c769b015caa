//! Error taxonomy of the escrow engine. Every error is terminal for the call
//! that raised it: the caller discards all partial state.
use vstd::prelude::*;

verus! {

/// Errors raised by the escrow ledger, the commitment guards and the
/// administrative layer.
#[derive(Clone, Copy, Debug, PartialEq, Eq, Structural)]
pub enum QuickexError {
    /// A non-positive amount was supplied to `deposit` or `withdraw`.
    InvalidAmount,
    /// `deposit` was asked to reuse a commitment digest that already keys a record.
    CommitmentAlreadyExists,
    /// `withdraw` revealed a preimage whose digest keys no record.
    CommitmentNotFound,
    /// `withdraw` replayed a commitment that was already settled.
    AlreadySpent,
    /// The revealed amount differs from the stored amount although the digest matched.
    InvalidCommitment,
    /// The caller is not the identity the operation demands.
    Unauthorized,
    /// `initialize` was called a second time.
    AlreadyInitialized,
    /// The operation is refused while the contract is paused.
    ContractPaused,
}

} // verus!
