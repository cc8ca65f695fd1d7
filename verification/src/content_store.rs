//! Blob storage for drop assets, keyed by a storage key scoped to one
//! drop. Writing a fresh key and deleting a whole drop's directory are the
//! only mutations the drop lifecycle performs; deletion is idempotent.

use vstd::prelude::*;

verus! {

/// One stored blob: the bytes of a drop asset under its storage key.
pub struct BlobEntry {
    /// The drop the blob belongs to.
    pub drop_id: String,
    /// Storage key, scoped by the drop identifier.
    pub key: String,
    /// The stored bytes.
    pub bytes: Vec<u8>,
}

/// Whether some entry carries the key.
pub open spec fn store_has_key(s: Seq<BlobEntry>, key: Seq<char>) -> bool {
    exists|i: int| 0 <= i < s.len() && s[i].key@ == key
}

/// The index of the entry carrying the key.
pub open spec fn store_key_index(s: Seq<BlobEntry>, key: Seq<char>) -> int {
    choose|i: int| 0 <= i < s.len() && s[i].key@ == key
}

/// The bytes stored under the key.
pub open spec fn store_bytes_at(s: Seq<BlobEntry>, key: Seq<char>) -> Seq<u8> {
    s[store_key_index(s, key)].bytes@
}

/// Every element of a filtered sequence is an element of the original.
pub proof fn lemma_filter_subset<A>(s: Seq<A>, pred: spec_fn(A) -> bool, x: A)
    requires
        s.filter(pred).contains(x),
    ensures
        s.contains(x),
    decreases s.len(),
{
    reveal(Seq::filter);
    if s.len() > 0 {
        let butlast = s.drop_last();
        if !(pred(s.last()) && x == s.last()) {
            lemma_filter_subset(butlast, pred, x);
            let i = choose|i: int| 0 <= i < butlast.len() && butlast[i] == x;
            assert(s[i] == x);
        } else {
            assert(s[s.len() - 1] == x);
        }
    }
}

/// The blobs not owned by one drop: what a per-drop deletion keeps.
pub open spec fn not_owned_by(drop_id: Seq<char>) -> spec_fn(BlobEntry) -> bool {
    |e: BlobEntry| e.drop_id@ != drop_id
}

/// Filtering keeps storage keys pairwise distinct.
pub proof fn lemma_filter_keeps_distinct_keys(s: Seq<BlobEntry>, pred: spec_fn(BlobEntry) -> bool)
    requires
        forall|i: int, j: int|
            0 <= i < j < s.len() ==> s[i].key@ != s[j].key@,
    ensures
        forall|i: int, j: int|
            0 <= i < j < s.filter(pred).len() ==> s.filter(pred)[i].key@ != s.filter(pred)[j].key@,
    decreases s.len(),
{
    reveal(Seq::<BlobEntry>::filter);
    if s.len() > 0 {
        let butlast = s.drop_last();
        assert(forall|i: int, j: int|
            0 <= i < j < butlast.len() ==> butlast[i].key@ != butlast[j].key@);
        lemma_filter_keeps_distinct_keys(butlast, pred);
        let f = butlast.filter(pred);
        if pred(s.last()) {
            assert forall|i: int| 0 <= i < f.len() implies f[i].key@ != s.last().key@ by {
                lemma_filter_subset(butlast, pred, f[i]);
                let k = choose|k: int| 0 <= k < butlast.len() && butlast[k] == f[i];
                assert(s[k] == f[i]);
                assert(s[k].key@ != s[s.len() - 1].key@);
            }
            assert(s.filter(pred) == f.push(s.last()));
        } else {
            assert(s.filter(pred) == f);
        }
    }
}

/// Filesystem-like blob storage: one entry per stored object, with keys
/// pairwise distinct.
pub struct ContentStore {
    /// The stored blobs.
    pub entries: Vec<BlobEntry>,
}

impl ContentStore {
    /// Well-formedness: no two entries share a key.
    pub open spec fn wf(self) -> bool {
        forall|i: int, j: int|
            0 <= i < j < self.entries@.len() ==> self.entries@[i].key@ != self.entries@[j].key@
    }

    /// An empty store.
    pub fn new() -> (r: ContentStore)
        ensures
            r.wf(),
            r.entries@.len() == 0,
    {
        ContentStore { entries: Vec::new() }
    }

    /// Whether a blob is stored under the key.
    pub fn has_key(&self, key: &str) -> (r: bool)
        ensures
            r == store_has_key(self.entries@, key@),
    {
        let n = self.entries.len();
        let mut i: usize = 0;
        while i < n
            invariant
                i <= n,
                n == self.entries@.len(),
                forall|j: int| 0 <= j < i ==> self.entries@[j].key@ != key@,
            decreases n - i,
        {
            if crate::text::str_eq(self.entries[i].key.as_str(), key) {
                return true;
            }
            i = i + 1;
        }
        false
    }

    /// Stores bytes under a fresh key scoped to one drop.
    pub fn put(&mut self, drop_id: String, key: String, bytes: Vec<u8>)
        requires
            old(self).wf(),
            !store_has_key(old(self).entries@, key@),
        ensures
            final(self).wf(),
            final(self).entries@ == old(self).entries@.push(
                BlobEntry { drop_id, key, bytes },
            ),
    {
        let ghost pre = self.entries@;
        self.entries.push(BlobEntry { drop_id, key, bytes });
        proof {
            assert forall|i: int, j: int|
                0 <= i < j < self.entries@.len() implies self.entries@[i].key@
                != self.entries@[j].key@ by {
                if j == pre.len() {
                    assert(self.entries@[i] == pre[i]);
                }
            }
        }
    }

    /// Reads the bytes stored under a key; fails when the key is absent.
    pub fn read(&self, key: &str) -> (r: Option<&Vec<u8>>)
        requires
            self.wf(),
        ensures
            match r {
                Some(b) => store_has_key(self.entries@, key@) && b@ == store_bytes_at(
                    self.entries@,
                    key@,
                ),
                None => !store_has_key(self.entries@, key@),
            },
    {
        let n = self.entries.len();
        let mut i: usize = 0;
        while i < n
            invariant
                i <= n,
                n == self.entries@.len(),
                self.wf(),
                forall|j: int| 0 <= j < i ==> self.entries@[j].key@ != key@,
            decreases n - i,
        {
            if crate::text::str_eq(self.entries[i].key.as_str(), key) {
                proof {
                    let k = store_key_index(self.entries@, key@);
                    assert(0 <= k < self.entries@.len() && self.entries@[k].key@ == key@);
                    assert(k == i as int);
                }
                return Some(&self.entries[i].bytes);
            }
            i = i + 1;
        }
        None
    }

    /// Removes every blob belonging to one drop; removing an absent drop's
    /// blobs is a no-op, so the operation is idempotent.
    #[verifier::loop_isolation(false)]
    pub fn delete_all(&mut self, drop_id: &str)
        requires
            old(self).wf(),
        ensures
            final(self).wf(),
            final(self).entries@ == old(self).entries@.filter(not_owned_by(drop_id@)),
    {
        let ghost pred = not_owned_by(drop_id@);
        let ghost pre = self.entries@;
        let n = self.entries.len();
        let mut kept: Vec<BlobEntry> = Vec::new();
        let mut i: usize = 0;
        while i < n
            invariant
                i <= n,
                n == pre.len(),
                self.entries@ == pre.skip(i as int),
                kept@ == pre.take(i as int).filter(pred),
            decreases n - i,
        {
            let e = self.entries.remove(0);
            proof {
                assert(e == pre[i as int]);
                assert(pre.skip(i as int).remove(0) =~= pre.skip(i as int + 1));
                assert(pre.take(i as int + 1) =~= pre.take(i as int).push(pre[i as int]));
                pre.take(i as int).lemma_filter_push(pre[i as int], pred);
            }
            if !crate::text::str_eq(e.drop_id.as_str(), drop_id) {
                kept.push(e);
            }
            i = i + 1;
        }
        assert(pre.take(n as int) =~= pre);
        proof {
            lemma_filter_keeps_distinct_keys(pre, pred);
        }
        self.entries = kept;
    }
}

} // verus!
