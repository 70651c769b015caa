//! Data model of the escrow ledger: the lifecycle status of a record and the
//! record itself, together with its mathematical view.
use vstd::prelude::*;

verus! {

/// Lifecycle of an escrow record. `Expired` is a reserved state: no transition
/// in this design produces it.
#[derive(Clone, Copy, Debug, PartialEq, Eq, Structural)]
pub enum EscrowStatus {
    Pending,
    Spent,
    Expired,
}

/// One outstanding or settled deposit, keyed in the ledger by its commitment
/// digest. Identities (`token`, `depositor`) are carried as their canonical
/// byte serialization.
#[derive(Debug, PartialEq, Eq)]
pub struct EscrowEntry {
    /// The commitment digest this record is keyed by.
    pub commitment: Vec<u8>,
    /// Identifier of the escrowed fungible asset.
    pub token: Vec<u8>,
    /// Escrowed amount; strictly positive at creation and immutable afterwards.
    pub amount: i128,
    /// Identity captured at deposit time, for audit only.
    pub depositor: Vec<u8>,
    /// Current lifecycle state.
    pub status: EscrowStatus,
    /// Ledger timestamp at deposit.
    pub created_at: u64,
}

/// Mathematical view of an [`EscrowEntry`].
#[verifier::ext_equal]
pub ghost struct EscrowModel {
    pub commitment: Seq<u8>,
    pub token: Seq<u8>,
    pub amount: i128,
    pub depositor: Seq<u8>,
    pub status: EscrowStatus,
    pub created_at: u64,
}

impl View for EscrowEntry {
    type V = EscrowModel;

    open spec fn view(&self) -> EscrowModel {
        EscrowModel {
            commitment: self.commitment@,
            token: self.token@,
            amount: self.amount,
            depositor: self.depositor@,
            status: self.status,
            created_at: self.created_at,
        }
    }
}

impl Clone for EscrowEntry {
    fn clone(&self) -> (r: Self)
        ensures
            r@ == self@,
    {
        EscrowEntry {
            commitment: crate::bytemap::copy_vec(&self.commitment),
            token: crate::bytemap::copy_vec(&self.token),
            amount: self.amount,
            depositor: crate::bytemap::copy_vec(&self.depositor),
            status: self.status,
            created_at: self.created_at,
        }
    }
}

} // verus!
