//! A byte-string-keyed store modelled as a `Map` in specifications. Writes are
//! appended to a log and reads take the newest entry for a key, so the store
//! keeps the full write history while its view is the usual map.
use vstd::prelude::*;

verus! {

/// Copies a vector of `Copy` elements element by element.
pub fn copy_vec<T: Copy>(v: &Vec<T>) -> (r: Vec<T>)
    ensures
        r@ == v@,
{
    let mut out: Vec<T> = Vec::new();
    let mut i: usize = 0;
    while i < v.len()
        invariant
            i <= v.len(),
            out@ == v@.subrange(0, i as int),
        decreases v.len() - i,
    {
        out.push(v[i]);
        i += 1;
    }
    assert(out@ == v@);
    out
}

/// Compares two byte vectors for content equality.
pub fn bytes_eq(a: &Vec<u8>, b: &Vec<u8>) -> (r: bool)
    ensures
        r == (a@ == b@),
{
    if a.len() != b.len() {
        return false;
    }
    let mut i: usize = 0;
    while i < a.len()
        invariant
            i <= a.len(),
            a@.len() == b@.len(),
            forall|j: int| 0 <= j < i as int ==> a@[j] == b@[j],
        decreases a.len() - i,
    {
        if a[i] != b[i] {
            return false;
        }
        i += 1;
    }
    assert(a@ == b@);
    true
}

/// A key-value store keyed by byte strings, viewed as a `Map<Seq<u8>, V::V>`.
/// Entries are never removed; a later write to a key shadows an earlier one.
pub struct ByteMap<V> {
    entries: Vec<(Vec<u8>, V)>,
}

impl<V: View> ByteMap<V> {
    /// The map described by a write log: later entries win.
    closed spec fn map_of(s: Seq<(Vec<u8>, V)>) -> Map<Seq<u8>, V::V>
        decreases s.len(),
    {
        if s.len() == 0 {
            Map::empty()
        } else {
            Self::map_of(s.drop_last()).insert(s.last().0@, s.last().1@)
        }
    }

    proof fn lemma_map_of_found(s: Seq<(Vec<u8>, V)>, k: Seq<u8>, i: int)
        requires
            0 <= i < s.len(),
            s[i].0@ == k,
            forall|j: int| i < j < s.len() ==> s[j].0@ != k,
        ensures
            Self::map_of(s).contains_key(k),
            Self::map_of(s)[k] == s[i].1@,
        decreases s.len(),
    {
        if i < s.len() - 1 {
            Self::lemma_map_of_found(s.drop_last(), k, i);
        }
    }

    proof fn lemma_map_of_absent(s: Seq<(Vec<u8>, V)>, k: Seq<u8>)
        requires
            forall|j: int| 0 <= j < s.len() ==> s[j].0@ != k,
        ensures
            !Self::map_of(s).contains_key(k),
        decreases s.len(),
    {
        if s.len() > 0 {
            Self::lemma_map_of_absent(s.drop_last(), k);
        }
    }

    pub fn new() -> (r: Self)
        ensures
            r@ == Map::<Seq<u8>, V::V>::empty(),
    {
        ByteMap { entries: Vec::new() }
    }

    /// Binds `k` to `v`, shadowing any earlier binding.
    pub fn set(&mut self, k: &Vec<u8>, v: V)
        ensures
            final(self)@ == old(self)@.insert(k@, v@),
    {
        let key = copy_vec(k);
        self.entries.push((key, v));
        proof {
            assert(self.entries@.drop_last() == old(self).entries@);
        }
    }

    /// Returns the newest value bound to `k`, if any.
    pub fn get(&self, k: &Vec<u8>) -> (r: Option<&V>)
        ensures
            match r {
                Some(v) => self@.contains_key(k@) && v@ == self@[k@],
                None => !self@.contains_key(k@),
            },
    {
        let mut i: usize = self.entries.len();
        while i > 0
            invariant
                i <= self.entries.len(),
                forall|j: int| i as int <= j < self.entries@.len() ==> self.entries@[j].0@ != k@,
            decreases i,
        {
            i = i - 1;
            if bytes_eq(&self.entries[i].0, k) {
                proof {
                    Self::lemma_map_of_found(self.entries@, k@, i as int);
                }
                return Some(&self.entries[i].1);
            }
        }
        proof {
            Self::lemma_map_of_absent(self.entries@, k@);
        }
        None
    }

    /// Whether some value is bound to `k`.
    pub fn contains_key(&self, k: &Vec<u8>) -> (r: bool)
        ensures
            r == self@.contains_key(k@),
    {
        self.get(k).is_some()
    }
}

impl<V: View> View for ByteMap<V> {
    type V = Map<Seq<u8>, V::V>;

    closed spec fn view(&self) -> Map<Seq<u8>, V::V> {
        Self::map_of(self.entries@)
    }
}

} // verus!
