//! The legacy privacy contract: per-account privacy switches, levels and
//! history, and a placeholder escrow directory keyed by a timestamp-derived
//! id. Independent of the escrow ledger, with no cross-invariants.
use crate::bytemap::copy_vec;
use crate::bytemap::ByteMap;
use crate::storage::pushed_history;
use crate::storage::DirectoryEntry;
use crate::storage::DirectoryModel;
use vstd::prelude::*;

verus! {

/// Errors of the legacy privacy contract.
#[derive(Clone, Copy, Debug, PartialEq, Eq, Structural)]
pub enum Error {
    /// Unauthorized access attempt.
    Unauthorized,
    /// Invalid input parameter.
    InvalidInput,
    /// Storage operation failed.
    StorageError,
}

impl Error {
    /// A user-facing message for the error.
    pub fn to_string(&self) -> (r: String)
        ensures
            match self {
                Error::Unauthorized => r@ == "Unauthorized access"@,
                Error::InvalidInput => r@ == "Invalid input parameter"@,
                Error::StorageError => r@ == "Storage operation failed"@,
            },
    {
        match self {
            Error::Unauthorized => String::from_str("Unauthorized access"),
            Error::InvalidInput => String::from_str("Invalid input parameter"),
            Error::StorageError => String::from_str("Storage operation failed"),
        }
    }
}

/// Mathematical view of the legacy privacy contract's state.
#[verifier::ext_equal]
pub ghost struct QuickSilverModel {
    /// Per-account privacy switch.
    pub privacy_flags: Map<Seq<u8>, bool>,
    /// Per-account privacy level.
    pub privacy_levels: Map<Seq<u8>, u32>,
    /// Per-account history of privacy levels, newest first.
    pub privacy_history: Map<Seq<u8>, Seq<u32>>,
    /// Parties recorded by the placeholder escrow feature.
    pub escrow_directory: Seq<DirectoryModel>,
}

/// The legacy privacy contract over its explicit state.
pub struct QuickSilverContractV0 {
    privacy_flags: ByteMap<bool>,
    privacy_levels: ByteMap<u32>,
    privacy_history: ByteMap<Vec<u32>>,
    escrow_directory: Vec<DirectoryEntry>,
}

impl View for QuickSilverContractV0 {
    type V = QuickSilverModel;

    closed spec fn view(&self) -> QuickSilverModel {
        QuickSilverModel {
            privacy_flags: self.privacy_flags@,
            privacy_levels: self.privacy_levels@,
            privacy_history: self.privacy_history@,
            escrow_directory: self.escrow_directory@.map_values(|e: DirectoryEntry| e@),
        }
    }
}

/// The empty state of the legacy privacy contract.
pub open spec fn empty_quicksilver() -> QuickSilverModel {
    QuickSilverModel {
        privacy_flags: Map::empty(),
        privacy_levels: Map::empty(),
        privacy_history: Map::empty(),
        escrow_directory: Seq::empty(),
    }
}

impl QuickSilverContractV0 {
    /// A contract over a fresh, empty state.
    pub fn new() -> (r: Self)
        ensures
            r@ == empty_quicksilver(),
    {
        let r = QuickSilverContractV0 {
            privacy_flags: ByteMap::new(),
            privacy_levels: ByteMap::new(),
            privacy_history: ByteMap::new(),
            escrow_directory: Vec::new(),
        };
        proof {
            assert(r@.escrow_directory =~= empty_quicksilver().escrow_directory);
        }
        r
    }

    /// Turns the privacy switch of `owner` on or off. The host authenticates
    /// `owner` before the call; the switch itself always succeeds.
    pub fn set_privacy(&mut self, owner: &Vec<u8>, enabled: bool) -> (r: Result<(), Error>)
        ensures
            r is Ok,
            final(self)@ == (QuickSilverModel {
                privacy_flags: old(self)@.privacy_flags.insert(owner@, enabled),
                ..old(self)@
            }),
    {
        self.privacy_flags.set(owner, enabled);
        Ok(())
    }

    /// The privacy switch of `owner`; off when never set.
    pub fn get_privacy(&self, owner: &Vec<u8>) -> (r: bool)
        ensures
            r == (self@.privacy_flags.contains_key(owner@) && self@.privacy_flags[owner@]),
    {
        match self.privacy_flags.get(owner) {
            Some(enabled) => *enabled,
            None => false,
        }
    }

    /// Sets the privacy level of `account` and prepends it to the account's
    /// history. Always succeeds and returns `true`.
    pub fn enable_privacy(&mut self, account: &Vec<u8>, privacy_level: u32) -> (r: bool)
        ensures
            r,
            final(self)@ == (QuickSilverModel {
                privacy_levels: old(self)@.privacy_levels.insert(account@, privacy_level),
                privacy_history: old(self)@.privacy_history.insert(
                    account@,
                    pushed_history(old(self)@.privacy_history, account@, privacy_level),
                ),
                ..old(self)@
            }),
    {
        self.privacy_levels.set(account, privacy_level);
        let mut h: Vec<u32> = Vec::new();
        h.push(privacy_level);
        let prev = match self.privacy_history.get(account) {
            Some(old_h) => copy_vec(old_h),
            None => Vec::new(),
        };
        let mut i: usize = 0;
        while i < prev.len()
            invariant
                i <= prev.len(),
                h@ == seq![privacy_level] + prev@.subrange(0, i as int),
            decreases prev.len() - i,
        {
            h.push(prev[i]);
            i += 1;
        }
        assert(h@ == seq![privacy_level] + prev@);
        self.privacy_history.set(account, h);
        true
    }

    /// The privacy level of `account`, if one was ever set.
    pub fn privacy_status(&self, account: &Vec<u8>) -> (r: Option<u32>)
        ensures
            match r {
                Some(level) => self@.privacy_levels.contains_key(account@) && level
                    == self@.privacy_levels[account@],
                None => !self@.privacy_levels.contains_key(account@),
            },
    {
        match self.privacy_levels.get(account) {
            Some(level) => Some(*level),
            None => None,
        }
    }

    /// The history of privacy levels of `account`, newest first.
    pub fn privacy_history(&self, account: &Vec<u8>) -> (r: Vec<u32>)
        ensures
            r@ == if self@.privacy_history.contains_key(account@) {
                self@.privacy_history[account@]
            } else {
                Seq::<u32>::empty()
            },
    {
        match self.privacy_history.get(account) {
            Some(h) => copy_vec(h),
            None => Vec::new(),
        }
    }

    /// Placeholder escrow feature: records the parties under an id derived
    /// from the ledger timestamp `now` (1 when `now` is 0, so the id is
    /// never 0).
    pub fn create_escrow(&mut self, from: &Vec<u8>, to: &Vec<u8>, _amount: u64, now: u64) -> (r:
        u64)
        ensures
            r == if now == 0 {
                1u64
            } else {
                now
            },
            r > 0,
            final(self)@ == (QuickSilverModel {
                escrow_directory: old(self)@.escrow_directory.push(
                    DirectoryModel { id: r, from: from@, to: to@ },
                ),
                ..old(self)@
            }),
    {
        let escrow_id: u64 = if now == 0 {
            1
        } else {
            now
        };
        let entry = DirectoryEntry { id: escrow_id, from: copy_vec(from), to: copy_vec(to) };
        self.escrow_directory.push(entry);
        proof {
            assert(self@.escrow_directory =~= old(self)@.escrow_directory.push(
                DirectoryModel { id: escrow_id, from: from@, to: to@ },
            ));
        }
        escrow_id
    }

    /// Health check: the contract is operational.
    pub fn health_check() -> (r: bool)
        ensures
            r,
    {
        true
    }
}

} // verus!
