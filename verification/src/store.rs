//! The durable byte store the resolver reads sources from and writes
//! file-backed variants to, modelled as an injected map from relative paths
//! to encoded bytes.
//!
//! The surrounding application owns the actual filesystem: it loads the
//! files a request will need into this value and flushes fresh entries back
//! out after the resolver returns.

use vstd::prelude::*;

verus! {

/// An in-memory byte store keyed by path, later writes shadowing earlier
/// ones.
pub struct Store {
    /// `(path, bytes)` entries in write order.
    pub files: Vec<(String, Vec<u8>)>,
}

/// The bytes stored under `key`: the last entry written with that path, or
/// `None` when no entry carries it.
pub open spec fn store_get(files: Seq<(String, Vec<u8>)>, key: Seq<char>) -> Option<Seq<u8>>
    decreases files.len(),
{
    if files.len() == 0 {
        None
    } else if files.last().0@ == key {
        Some(files.last().1@)
    } else {
        store_get(files.drop_last(), key)
    }
}

impl Store {
    /// An empty store.
    pub fn new() -> (r: Store)
        ensures
            r.files@ =~= Seq::<(String, Vec<u8>)>::empty(),
    {
        Store { files: Vec::new() }
    }

    /// Writes `bytes` under `key`, shadowing any earlier entry with that
    /// path.
    pub fn put(&mut self, key: String, bytes: Vec<u8>)
        ensures
            final(self).files@ =~= old(self).files@.push((key, bytes)),
            store_get(final(self).files@, key@) == Some::<Seq<u8>>(bytes@),
    {
        let ghost k = key@;
        let ghost b = bytes@;
        self.files.push((key, bytes));
        proof {
            assert(self.files@.last().0@ == k);
            assert(store_get(self.files@, k) == Some(b));
        }
    }

    /// Reads the bytes stored under `key`.
    pub fn get(&self, key: &str) -> (r: Option<Vec<u8>>)
        ensures
            (match r {
                Some(bytes) => store_get(self.files@, key@) == Some(bytes@),
                None => store_get(self.files@, key@) is None,
            }),
    {
        let n = self.files.len();
        let mut i: usize = n;
        proof {
            assert(self.files@.take(n as int) =~= self.files@);
        }
        while i > 0
            invariant
                n == self.files@.len(),
                0 <= i <= n,
                store_get(self.files@, key@) == store_get(self.files@.take(i as int), key@),
            decreases i,
        {
            i -= 1;
            proof {
                assert(self.files@.take(i + 1).drop_last() =~= self.files@.take(i as int));
                assert(self.files@.take(i + 1).last() == self.files@[i as int]);
            }
            if string_views_equal(&self.files[i].0, key) {
                let bytes = clone_bytes(&self.files[i].1);
                return Some(bytes);
            }
        }
        proof {
            assert(self.files@.take(0) =~= Seq::<(String, Vec<u8>)>::empty());
        }
        None
    }
}

/// Whether two strings hold the same characters.
fn string_views_equal(a: &String, b: &str) -> (r: bool)
    ensures
        r == (a@ == b@),
{
    *a == b.to_owned()
}

/// An exact copy of a byte vector.
fn clone_bytes(v: &Vec<u8>) -> (r: Vec<u8>)
    ensures
        r@ == v@,
{
    let mut out: Vec<u8> = Vec::new();
    let mut i: usize = 0;
    while i < v.len()
        invariant
            0 <= i <= v@.len(),
            out@ =~= v@.take(i as int),
        decreases v@.len() - i,
    {
        out.push(v[i]);
        proof {
            assert(out@ =~= v@.take(i + 1));
        }
        i += 1;
    }
    proof {
        assert(v@.take(v@.len() as int) =~= v@);
    }
    out
}

} // verus!
