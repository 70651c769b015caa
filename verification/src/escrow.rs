//! The escrow state machine, specified over the ledger's map view: per
//! commitment key the only transition is `Pending -> Spent`, records come
//! into existence only through `deposit`, and nothing is ever deleted.
use crate::commitment::commitment_of;
use crate::errors::QuickexError;
use crate::types::EscrowEntry;
use crate::types::EscrowModel;
use crate::types::EscrowStatus;
use vstd::prelude::*;

verus! {

/// The record a successful deposit creates.
pub open spec fn deposit_record(
    from: Seq<u8>,
    token: Seq<u8>,
    amount: i128,
    commitment: Seq<u8>,
    created_at: u64,
) -> EscrowModel {
    EscrowModel {
        commitment,
        token,
        amount,
        depositor: from,
        status: EscrowStatus::Pending,
        created_at,
    }
}

/// What a deposit of `amount` under `commitment` returns against the ledger
/// `escrows`: `Ok` exactly when the amount is strictly positive and the
/// commitment digest keys no record yet.
pub open spec fn deposit_outcome(
    escrows: Map<Seq<u8>, EscrowModel>,
    amount: i128,
    commitment: Seq<u8>,
) -> Result<(), QuickexError> {
    if amount <= 0 {
        Err(QuickexError::InvalidAmount)
    } else if escrows.contains_key(commitment) {
        Err(QuickexError::CommitmentAlreadyExists)
    } else {
        Ok(())
    }
}

/// The ledger after a deposit: a new `Pending` record on success, unchanged
/// on failure.
pub open spec fn deposit_effect(
    escrows: Map<Seq<u8>, EscrowModel>,
    from: Seq<u8>,
    token: Seq<u8>,
    amount: i128,
    commitment: Seq<u8>,
    created_at: u64,
) -> Map<Seq<u8>, EscrowModel> {
    if deposit_outcome(escrows, amount, commitment) is Ok {
        escrows.insert(commitment, deposit_record(from, token, amount, commitment, created_at))
    } else {
        escrows
    }
}

/// What settling a single record against a revealed `amount` yields: the
/// `Spent` copy of the record when it is `Pending` and the amounts agree,
/// and the exact error otherwise.
pub open spec fn settle_outcome(entry: EscrowModel, amount: i128) -> Result<
    EscrowModel,
    QuickexError,
> {
    if entry.status != EscrowStatus::Pending {
        Err(QuickexError::AlreadySpent)
    } else if entry.amount != amount {
        Err(QuickexError::InvalidCommitment)
    } else {
        Ok(EscrowModel { status: EscrowStatus::Spent, ..entry })
    }
}

/// What a withdrawal revealing (claimant, amount, salt) returns against the
/// ledger `escrows`. The checks run in this order: positive amount, record
/// present under the recomputed digest, record still `Pending`, stored amount
/// equal to the revealed amount.
pub open spec fn withdraw_outcome(
    escrows: Map<Seq<u8>, EscrowModel>,
    claimant: Seq<u8>,
    amount: i128,
    salt: Seq<u8>,
) -> Result<bool, QuickexError> {
    let digest = commitment_of(claimant, amount, salt);
    if amount <= 0 {
        Err(QuickexError::InvalidAmount)
    } else if !escrows.contains_key(digest) {
        Err(QuickexError::CommitmentNotFound)
    } else {
        match settle_outcome(escrows[digest], amount) {
            Ok(_) => Ok(true),
            Err(e) => Err(e),
        }
    }
}

/// The ledger after a withdrawal: the record under the recomputed digest
/// flipped to `Spent` on success, unchanged on failure.
pub open spec fn withdraw_effect(
    escrows: Map<Seq<u8>, EscrowModel>,
    claimant: Seq<u8>,
    amount: i128,
    salt: Seq<u8>,
) -> Map<Seq<u8>, EscrowModel> {
    let digest = commitment_of(claimant, amount, salt);
    if withdraw_outcome(escrows, claimant, amount, salt) is Ok {
        escrows.insert(digest, EscrowModel { status: EscrowStatus::Spent, ..escrows[digest] })
    } else {
        escrows
    }
}

/// Whether a revealed (claimant, amount, salt) proves an outstanding claim:
/// a record exists under the recomputed digest, is still `Pending`, and
/// stores exactly the revealed amount.
pub open spec fn proof_accepted(
    escrows: Map<Seq<u8>, EscrowModel>,
    claimant: Seq<u8>,
    amount: i128,
    salt: Seq<u8>,
) -> bool {
    let digest = commitment_of(claimant, amount, salt);
    escrows.contains_key(digest) && escrows[digest].status == EscrowStatus::Pending
        && escrows[digest].amount == amount
}

/// Law: the read-only proof check predicts settlement exactly. For a
/// positive amount, a reveal is accepted by the proof check if and only if a
/// withdrawal with the same reveal would succeed.
pub proof fn lemma_proof_accepted_iff_withdraw_succeeds(
    escrows: Map<Seq<u8>, EscrowModel>,
    claimant: Seq<u8>,
    amount: i128,
    salt: Seq<u8>,
)
    requires
        amount > 0,
    ensures
        proof_accepted(escrows, claimant, amount, salt) <==> withdraw_outcome(
            escrows,
            claimant,
            amount,
            salt,
        ) == Ok::<bool, QuickexError>(true),
{
}

/// Maps the result of [`settle_entry`] to its mathematical view.
pub open spec fn settle_view(r: Result<EscrowEntry, QuickexError>) -> Result<
    EscrowModel,
    QuickexError,
> {
    match r {
        Ok(e) => Ok(e@),
        Err(e) => Err(e),
    }
}

/// Law: once a deposit has been recorded under a commitment digest, a second
/// deposit under the same digest always fails, and fails with
/// `CommitmentAlreadyExists` whenever it passes the positivity guard —
/// whatever amount or asset it supplies.
pub proof fn lemma_second_deposit_rejected(
    escrows: Map<Seq<u8>, EscrowModel>,
    from1: Seq<u8>,
    token1: Seq<u8>,
    amount1: i128,
    created1: u64,
    amount2: i128,
    commitment: Seq<u8>,
)
    requires
        deposit_outcome(escrows, amount1, commitment) is Ok,
    ensures
        deposit_outcome(
            deposit_effect(escrows, from1, token1, amount1, commitment, created1),
            amount2,
            commitment,
        ) is Err,
        amount2 > 0 ==> deposit_outcome(
            deposit_effect(escrows, from1, token1, amount1, commitment, created1),
            amount2,
            commitment,
        ) == Err::<(), QuickexError>(QuickexError::CommitmentAlreadyExists),
{
}

/// Law: a `Pending` record is settled by exactly one successful withdrawal.
/// The matching reveal succeeds once, leaves the record `Spent`, and every
/// further withdrawal with the same reveal fails with `AlreadySpent`.
pub proof fn lemma_withdraw_exactly_once(
    escrows: Map<Seq<u8>, EscrowModel>,
    claimant: Seq<u8>,
    amount: i128,
    salt: Seq<u8>,
)
    requires
        amount > 0,
        escrows.contains_key(commitment_of(claimant, amount, salt)),
        escrows[commitment_of(claimant, amount, salt)].status == EscrowStatus::Pending,
        escrows[commitment_of(claimant, amount, salt)].amount == amount,
    ensures
        withdraw_outcome(escrows, claimant, amount, salt) == Ok::<bool, QuickexError>(true),
        withdraw_effect(escrows, claimant, amount, salt)[commitment_of(claimant, amount, salt)]
            .status == EscrowStatus::Spent,
        withdraw_outcome(
            withdraw_effect(escrows, claimant, amount, salt),
            claimant,
            amount,
            salt,
        ) == Err::<bool, QuickexError>(QuickexError::AlreadySpent),
{
}

/// Law: revealing a wrong amount never settles and never changes the ledger.
/// The digest recomputed from the wrong amount either keys no record
/// (`CommitmentNotFound`) or — should it collide with an outstanding record —
/// keys one whose stored amount disagrees (`InvalidCommitment`). The
/// hypothesis rules out a stray record that legitimately matches the wrong
/// reveal, which only a digest collision could produce.
pub proof fn lemma_withdraw_wrong_amount(
    escrows: Map<Seq<u8>, EscrowModel>,
    claimant: Seq<u8>,
    wrong_amount: i128,
    salt: Seq<u8>,
)
    requires
        wrong_amount > 0,
        escrows.contains_key(commitment_of(claimant, wrong_amount, salt))
            ==> escrows[commitment_of(claimant, wrong_amount, salt)].status
            == EscrowStatus::Pending && escrows[commitment_of(claimant, wrong_amount, salt)].amount
            != wrong_amount,
    ensures
        withdraw_outcome(escrows, claimant, wrong_amount, salt) == Err::<bool, QuickexError>(
            QuickexError::CommitmentNotFound,
        ) || withdraw_outcome(escrows, claimant, wrong_amount, salt) == Err::<bool, QuickexError>(
            QuickexError::InvalidCommitment,
        ),
        withdraw_effect(escrows, claimant, wrong_amount, salt) == escrows,
{
}

/// Law: a non-positive amount is rejected as `InvalidAmount` whatever the
/// ledger holds — the guard precedes any lookup — and the ledger stays
/// unchanged.
pub proof fn lemma_withdraw_nonpositive_amount(
    escrows: Map<Seq<u8>, EscrowModel>,
    claimant: Seq<u8>,
    amount: i128,
    salt: Seq<u8>,
)
    requires
        amount <= 0,
    ensures
        withdraw_outcome(escrows, claimant, amount, salt) == Err::<bool, QuickexError>(
            QuickexError::InvalidAmount,
        ),
        withdraw_effect(escrows, claimant, amount, salt) == escrows,
{
}

/// Law: a non-positive deposit is rejected as `InvalidAmount` and creates no
/// record, whatever the ledger holds.
pub proof fn lemma_deposit_nonpositive_amount(
    escrows: Map<Seq<u8>, EscrowModel>,
    from: Seq<u8>,
    token: Seq<u8>,
    amount: i128,
    commitment: Seq<u8>,
    created_at: u64,
)
    requires
        amount <= 0,
    ensures
        deposit_outcome(escrows, amount, commitment) == Err::<(), QuickexError>(
            QuickexError::InvalidAmount,
        ),
        deposit_effect(escrows, from, token, amount, commitment, created_at) == escrows,
{
}

/// Law: the ledger is append-only and records are immutable but for the
/// status flip. A deposit never touches existing records; a withdrawal
/// neither adds nor removes records and changes at most the status of the
/// settled one — amount, asset, depositor, commitment and creation time are
/// kept.
pub proof fn lemma_ledger_append_only(
    escrows: Map<Seq<u8>, EscrowModel>,
    from: Seq<u8>,
    token: Seq<u8>,
    amount: i128,
    commitment: Seq<u8>,
    created_at: u64,
    claimant: Seq<u8>,
    w_amount: i128,
    salt: Seq<u8>,
)
    ensures
        forall|k: Seq<u8>| escrows.contains_key(k) ==> deposit_effect(
            escrows,
            from,
            token,
            amount,
            commitment,
            created_at,
        ).contains_key(k) && deposit_effect(
            escrows,
            from,
            token,
            amount,
            commitment,
            created_at,
        )[k] == escrows[k],
        forall|k: Seq<u8>|
            withdraw_effect(escrows, claimant, w_amount, salt).contains_key(k)
                == escrows.contains_key(k),
        forall|k: Seq<u8>| #[trigger] escrows.contains_key(k) ==> {
            let e = escrows[k];
            let w = withdraw_effect(escrows, claimant, w_amount, salt)[k];
            w.amount == e.amount && w.token == e.token && w.depositor == e.depositor
                && w.commitment == e.commitment && w.created_at == e.created_at
        },
{
}

/// Settles one record against a revealed amount: returns the `Spent` copy
/// when the record is `Pending` and stores exactly `amount`, and the exact
/// error otherwise. The input record is not modified.
pub fn settle_entry(entry: &EscrowEntry, amount: i128) -> (r: Result<EscrowEntry, QuickexError>)
    ensures
        settle_view(r) == settle_outcome(entry@, amount),
{
    if entry.status != EscrowStatus::Pending {
        Err(QuickexError::AlreadySpent)
    } else if entry.amount != amount {
        Err(QuickexError::InvalidCommitment)
    } else {
        let mut updated = entry.clone();
        updated.status = EscrowStatus::Spent;
        Ok(updated)
    }
}

} // verus!
