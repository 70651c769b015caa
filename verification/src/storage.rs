//! The contract's durable state, modelled explicitly: the escrow ledger keyed
//! by commitment digest, the administrative flags, and the independent
//! privacy and escrow-counter bookkeeping. The host's persistent store has
//! exactly-once-per-key semantics, which the map view captures.
use crate::bytemap::copy_vec;
use crate::bytemap::ByteMap;
use crate::types::EscrowEntry;
use crate::types::EscrowModel;
use vstd::prelude::*;

verus! {

/// One entry of the escrow-id directory kept by the placeholder
/// `create_escrow` feature: the parties recorded under a numeric id.
pub struct DirectoryEntry {
    pub id: u64,
    pub from: Vec<u8>,
    pub to: Vec<u8>,
}

/// Mathematical view of a [`DirectoryEntry`].
#[verifier::ext_equal]
pub ghost struct DirectoryModel {
    pub id: u64,
    pub from: Seq<u8>,
    pub to: Seq<u8>,
}

impl View for DirectoryEntry {
    type V = DirectoryModel;

    open spec fn view(&self) -> DirectoryModel {
        DirectoryModel { id: self.id, from: self.from@, to: self.to@ }
    }
}

/// The durable state of the contract.
pub struct Store {
    escrows: ByteMap<EscrowEntry>,
    escrow_counter: u64,
    admin: Option<Vec<u8>>,
    paused: bool,
    privacy_flags: ByteMap<bool>,
    privacy_levels: ByteMap<u32>,
    privacy_history: ByteMap<Vec<u32>>,
    escrow_directory: Vec<DirectoryEntry>,
}

/// Mathematical view of the durable state.
#[verifier::ext_equal]
pub ghost struct StoreModel {
    /// The escrow ledger: commitment digest to escrow record.
    pub escrows: Map<Seq<u8>, EscrowModel>,
    /// Counter behind the placeholder `create_escrow` feature.
    pub escrow_counter: u64,
    /// The administrator identity, once initialized.
    pub admin: Option<Seq<u8>>,
    /// Whether the contract is paused.
    pub paused: bool,
    /// Per-account privacy switch.
    pub privacy_flags: Map<Seq<u8>, bool>,
    /// Per-account privacy level.
    pub privacy_levels: Map<Seq<u8>, u32>,
    /// Per-account history of privacy levels, newest first.
    pub privacy_history: Map<Seq<u8>, Seq<u32>>,
    /// Parties recorded by the placeholder `create_escrow` feature.
    pub escrow_directory: Seq<DirectoryModel>,
}

impl View for Store {
    type V = StoreModel;

    closed spec fn view(&self) -> StoreModel {
        StoreModel {
            escrows: self.escrows@,
            escrow_counter: self.escrow_counter,
            admin: match self.admin {
                Some(a) => Some(a@),
                None => None,
            },
            paused: self.paused,
            privacy_flags: self.privacy_flags@,
            privacy_levels: self.privacy_levels@,
            privacy_history: self.privacy_history@,
            escrow_directory: self.escrow_directory@.map_values(|e: DirectoryEntry| e@),
        }
    }
}

/// The empty durable state.
pub open spec fn empty_store() -> StoreModel {
    StoreModel {
        escrows: Map::empty(),
        escrow_counter: 0,
        admin: None,
        paused: false,
        privacy_flags: Map::empty(),
        privacy_levels: Map::empty(),
        privacy_history: Map::empty(),
        escrow_directory: Seq::empty(),
    }
}

impl Store {
    /// A fresh store with nothing recorded.
    pub fn new() -> (r: Self)
        ensures
            r@ == empty_store(),
    {
        let r = Store {
            escrows: ByteMap::new(),
            escrow_counter: 0,
            admin: None,
            paused: false,
            privacy_flags: ByteMap::new(),
            privacy_levels: ByteMap::new(),
            privacy_history: ByteMap::new(),
            escrow_directory: Vec::new(),
        };
        proof {
            assert(r@.escrow_directory =~= empty_store().escrow_directory);
        }
        r
    }
}

/// Puts an escrow entry into storage under its commitment digest.
pub fn put_escrow(store: &mut Store, commitment: &Vec<u8>, entry: &EscrowEntry)
    ensures
        final(store)@ == (StoreModel {
            escrows: old(store)@.escrows.insert(commitment@, entry@),
            ..old(store)@
        }),
{
    let e = entry.clone();
    store.escrows.set(commitment, e);
}

/// Gets the escrow entry stored under a commitment digest.
pub fn get_escrow(store: &Store, commitment: &Vec<u8>) -> (r: Option<EscrowEntry>)
    ensures
        match r {
            Some(e) => store@.escrows.contains_key(commitment@) && e@ == store@.escrows[commitment@],
            None => !store@.escrows.contains_key(commitment@),
        },
{
    match store.escrows.get(commitment) {
        Some(e) => Some(e.clone()),
        None => None,
    }
}

/// Whether an escrow entry exists under a commitment digest.
pub fn has_escrow(store: &Store, commitment: &Vec<u8>) -> (r: bool)
    ensures
        r == store@.escrows.contains_key(commitment@),
{
    store.escrows.contains_key(commitment)
}

/// Reads the escrow counter.
pub fn get_escrow_counter(store: &Store) -> (r: u64)
    ensures
        r == store@.escrow_counter,
{
    store.escrow_counter
}

/// Increments the escrow counter and returns the new value.
pub fn increment_escrow_counter(store: &mut Store) -> (r: u64)
    requires
        old(store)@.escrow_counter < u64::MAX,
    ensures
        r == old(store)@.escrow_counter + 1,
        final(store)@ == (StoreModel { escrow_counter: r, ..old(store)@ }),
{
    store.escrow_counter = store.escrow_counter + 1;
    store.escrow_counter
}

/// Records the parties of a placeholder escrow under a numeric id.
pub fn put_escrow_parties(store: &mut Store, id: u64, from: &Vec<u8>, to: &Vec<u8>)
    ensures
        final(store)@ == (StoreModel {
            escrow_directory: old(store)@.escrow_directory.push(
                DirectoryModel { id, from: from@, to: to@ },
            ),
            ..old(store)@
        }),
{
    let entry = DirectoryEntry { id, from: copy_vec(from), to: copy_vec(to) };
    store.escrow_directory.push(entry);
    proof {
        assert(store@.escrow_directory =~= old(store)@.escrow_directory.push(
            DirectoryModel { id, from: from@, to: to@ },
        ));
    }
}

/// Sets the admin identity.
pub fn set_admin(store: &mut Store, admin: &Vec<u8>)
    ensures
        final(store)@ == (StoreModel { admin: Some(admin@), ..old(store)@ }),
{
    store.admin = Some(copy_vec(admin));
}

/// Gets the admin identity, if one was set.
pub fn get_admin(store: &Store) -> (r: Option<Vec<u8>>)
    ensures
        match r {
            Some(a) => store@.admin == Some(a@),
            None => store@.admin is None,
        },
{
    match &store.admin {
        Some(a) => Some(copy_vec(a)),
        None => None,
    }
}

/// Whether an admin identity was set.
pub fn has_admin(store: &Store) -> (r: bool)
    ensures
        r == (store@.admin is Some),
{
    store.admin.is_some()
}

/// Sets the paused flag.
pub fn set_paused(store: &mut Store, paused: bool)
    ensures
        final(store)@ == (StoreModel { paused, ..old(store)@ }),
{
    store.paused = paused;
}

/// Reads the paused flag.
pub fn is_paused(store: &Store) -> (r: bool)
    ensures
        r == store@.paused,
{
    store.paused
}

/// Sets the privacy level of an account.
pub fn set_privacy_level(store: &mut Store, account: &Vec<u8>, level: u32)
    ensures
        final(store)@ == (StoreModel {
            privacy_levels: old(store)@.privacy_levels.insert(account@, level),
            ..old(store)@
        }),
{
    store.privacy_levels.set(account, level);
}

/// Gets the privacy level of an account, if one was set.
pub fn get_privacy_level(store: &Store, account: &Vec<u8>) -> (r: Option<u32>)
    ensures
        match r {
            Some(level) => store@.privacy_levels.contains_key(account@)
                && level == store@.privacy_levels[account@],
            None => !store@.privacy_levels.contains_key(account@),
        },
{
    match store.privacy_levels.get(account) {
        Some(level) => Some(*level),
        None => None,
    }
}

/// The privacy history of an account after `level` is prepended.
pub open spec fn pushed_history(m: Map<Seq<u8>, Seq<u32>>, account: Seq<u8>, level: u32) -> Seq<
    u32,
> {
    seq![level] + if m.contains_key(account) {
        m[account]
    } else {
        Seq::empty()
    }
}

/// Prepends `level` to the privacy history of an account.
pub fn add_privacy_history(store: &mut Store, account: &Vec<u8>, level: u32)
    ensures
        final(store)@ == (StoreModel {
            privacy_history: old(store)@.privacy_history.insert(
                account@,
                pushed_history(old(store)@.privacy_history, account@, level),
            ),
            ..old(store)@
        }),
{
    let mut h: Vec<u32> = Vec::new();
    h.push(level);
    let prev = get_privacy_history(store, account);
    let mut i: usize = 0;
    while i < prev.len()
        invariant
            i <= prev.len(),
            h@ == seq![level] + prev@.subrange(0, i as int),
        decreases prev.len() - i,
    {
        h.push(prev[i]);
        i += 1;
    }
    assert(h@ == seq![level] + prev@);
    store.privacy_history.set(account, h);
}

/// Gets the privacy history of an account, newest first; empty if none.
pub fn get_privacy_history(store: &Store, account: &Vec<u8>) -> (r: Vec<u32>)
    ensures
        r@ == if store@.privacy_history.contains_key(account@) {
            store@.privacy_history[account@]
        } else {
            Seq::<u32>::empty()
        },
{
    match store.privacy_history.get(account) {
        Some(h) => copy_vec(h),
        None => Vec::new(),
    }
}

/// Sets the privacy switch of an account.
pub fn set_privacy_flag(store: &mut Store, account: &Vec<u8>, enabled: bool)
    ensures
        final(store)@ == (StoreModel {
            privacy_flags: old(store)@.privacy_flags.insert(account@, enabled),
            ..old(store)@
        }),
{
    store.privacy_flags.set(account, enabled);
}

/// Reads the privacy switch of an account; disabled if never set.
pub fn get_privacy_flag(store: &Store, account: &Vec<u8>) -> (r: bool)
    ensures
        r == (store@.privacy_flags.contains_key(account@) && store@.privacy_flags[account@]),
{
    match store.privacy_flags.get(account) {
        Some(enabled) => *enabled,
        None => false,
    }
}

} // verus!
