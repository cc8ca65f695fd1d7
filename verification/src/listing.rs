//! Queries over the registry: single-drop lookup and the per-vendor
//! listing, which first runs the lazy expiry sweep and returns its matches
//! newest first.

use vstd::multiset::Multiset;
use vstd::prelude::*;

use crate::ledger::{drop_index, has_drop};
use crate::records::DropRecord;
use crate::status::{status_le, status_rank, DropStatus};
use crate::sweeps::spec_expire;
use crate::system::DropSystem;

verus! {

/// Whether a drop belongs in a vendor's listing under an optional
/// status-code filter: the default excludes purged drops, an explicit code
/// selects exactly that status.
pub open spec fn spec_listed(d: DropRecord, vendor: Seq<char>, status: Option<i32>) -> bool {
    d.vendor_stable_id@ == vendor && match status {
        Some(c) => status_rank(d.status) == c,
        None => d.status != DropStatus::Purged,
    }
}

/// Newest first: creation times never increase along the sequence.
pub open spec fn sorted_by_created_desc(s: Seq<DropRecord>) -> bool {
    forall|i: int, j: int| 0 <= i < j < s.len() ==> s[i].created_at >= s[j].created_at
}

/// The index of a drop with the greatest creation time.
fn max_created_index(v: &Vec<DropRecord>) -> (r: usize)
    requires
        v@.len() > 0,
    ensures
        r < v@.len(),
        forall|j: int| 0 <= j < v@.len() ==> (#[trigger] v@[j]).created_at <= v@[r as int].created_at,
{
    let n = v.len();
    let mut best: usize = 0;
    let mut i: usize = 1;
    while i < n
        invariant
            best < i <= n,
            n == v@.len(),
            forall|j: int| 0 <= j < i ==> (#[trigger] v@[j]).created_at <= v@[best as int].created_at,
        decreases n - i,
    {
        if v[i].created_at > v[best].created_at {
            best = i;
        }
        i = i + 1;
    }
    best
}

impl DropSystem {
    /// Looks a drop up by its identifier and returns a copy of its row.
    pub fn get_drop(&self, drop_id: &str) -> (r: Option<DropRecord>)
        requires
            self.wf(),
        ensures
            match r {
                Some(d) => has_drop(self.ledger.drops@, drop_id@) && d == self.ledger.drops@[
                    drop_index(self.ledger.drops@, drop_id@)],
                None => !has_drop(self.ledger.drops@, drop_id@),
            },
    {
        match self.ledger.find_drop(drop_id) {
            Some(i) => Some(self.ledger.drops[i].duplicate()),
            None => None,
        }
    }

    /// Lists one vendor's drops: first runs the lazy expiry sweep, then
    /// returns copies of every matching row, newest first. Without a
    /// status filter purged drops are excluded; with one, exactly the
    /// drops of that status code are returned.
    #[verifier::loop_isolation(false)]
    pub fn list_drops(&mut self, vendor: &str, status: Option<i32>, now: i64) -> (r: Vec<
        DropRecord,
    >)
        requires
            old(self).wf(),
        ensures
            final(self).wf(),
            final(self).ledger.drops@ == spec_expire(old(self).ledger.drops@, now),
            final(self).ledger.claims@ == old(self).ledger.claims@,
            final(self).ledger.vendors@ == old(self).ledger.vendors@,
            final(self).store == old(self).store,
            r@.to_multiset() == final(self).ledger.drops@.filter(
                |d: DropRecord| spec_listed(d, vendor@, status),
            ).to_multiset(),
            sorted_by_created_desc(r@),
            forall|i: int|
                0 <= i < old(self).ledger.drops@.len() ==> status_le(
                    (#[trigger] old(self).ledger.drops@[i]).status,
                    final(self).ledger.drops@[i].status,
                ),
    {
        broadcast use vstd::seq_lib::group_to_multiset_ensures;

        let _ = self.expire_sweep(now);
        let ghost pred = |d: DropRecord| spec_listed(d, vendor@, status);
        let ghost all = self.ledger.drops@;

        // Collect the matching rows.
        let n = self.ledger.drops.len();
        let mut matching: Vec<DropRecord> = Vec::new();
        let mut i: usize = 0;
        while i < n
            invariant
                i <= n,
                n == all.len(),
                matching@ == all.take(i as int).filter(pred),
            decreases n - i,
        {
            proof {
                assert(all.take(i as int + 1) =~= all.take(i as int).push(all[i as int]));
                all.take(i as int).lemma_filter_push(all[i as int], pred);
            }
            let d = &self.ledger.drops[i];
            let wanted = match status {
                Some(c) => d.status.code() == c,
                None => !matches!(d.status, DropStatus::Purged),
            };
            if wanted && crate::text::str_eq(d.vendor_stable_id.as_str(), vendor) {
                matching.push(d.duplicate());
            }
            i = i + 1;
        }
        proof {
            assert(all.take(n as int) =~= all);
        }

        // Hand them out newest first.
        let ghost wanted_ms = matching@.to_multiset();
        let mut out: Vec<DropRecord> = Vec::new();
        while matching.len() > 0
            invariant
                out@.to_multiset().add(matching@.to_multiset()) =~= wanted_ms,
                sorted_by_created_desc(out@),
                forall|a: int, b: int|
                    0 <= a < out@.len() && 0 <= b < matching@.len() ==> (#[trigger] out@[a]).created_at
                        >= (#[trigger] matching@[b]).created_at,
            decreases matching@.len(),
        {
            let ghost m_pre = matching@;
            let best = max_created_index(&matching);
            let x = matching.remove(best);
            proof {
                m_pre.to_multiset_ensures();
                assert(matching@.to_multiset() =~= m_pre.to_multiset().remove(x));
                assert(m_pre.to_multiset().contains(x));
                out@.to_multiset_ensures();
            }
            out.push(x);
            proof {
                assert(out@.to_multiset().add(matching@.to_multiset()) =~= wanted_ms);
                assert forall|b: int|
                    0 <= b < matching@.len() implies x.created_at >= (#[trigger] matching@[b]).created_at by {
                    if b < best as int {
                        assert(matching@[b] == m_pre[b]);
                    } else {
                        assert(matching@[b] == m_pre[b + 1]);
                    }
                }
            }
        }
        proof {
            assert(matching@.to_multiset() =~= Multiset::<DropRecord>::empty());
            assert(out@.to_multiset() =~= wanted_ms);
        }
        out
    }
}

} // verus!
