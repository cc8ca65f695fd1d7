//! Time-driven status transitions: the shared expiry sweep (invoked both
//! lazily at query time and by the background scheduler) and the
//! administrative batch end.

use vstd::prelude::*;

use crate::ledger::DropLedger;
use crate::records::DropRecord;
use crate::status::{spec_is_live, status_le, DropStatus};

verus! {

/// A drop whose window has closed but whose status has not caught up yet.
pub open spec fn spec_due(d: DropRecord, now: i64) -> bool {
    d.end_at <= now && spec_is_live(d.status)
}

/// The drop after its transition to `Ended` at `now`.
pub open spec fn spec_end_drop(d: DropRecord, now: i64) -> DropRecord {
    DropRecord { status: DropStatus::Ended, ended_at: Some(now), updated_at: now, ..d }
}

/// One drop after the expiry sweep at `now`.
pub open spec fn spec_expire_one(d: DropRecord, now: i64) -> DropRecord {
    if spec_due(d, now) {
        spec_end_drop(d, now)
    } else {
        d
    }
}

/// The whole registry after the expiry sweep at `now`.
pub open spec fn spec_expire(drops: Seq<DropRecord>, now: i64) -> Seq<DropRecord> {
    Seq::new(drops.len(), |i: int| spec_expire_one(drops[i], now))
}

/// Whether a drop matches an administrative batch-end entry: the right
/// identifier, the right vendor, and still live.
pub open spec fn spec_end_match(d: DropRecord, id: Seq<char>, vendor: Seq<char>) -> bool {
    d.drop_id@ == id && d.vendor_stable_id@ == vendor && spec_is_live(d.status)
}

/// The registry after force-ending every drop matching one batch entry.
pub open spec fn spec_end_matching(
    drops: Seq<DropRecord>,
    id: Seq<char>,
    vendor: Seq<char>,
    now: i64,
) -> Seq<DropRecord> {
    Seq::new(
        drops.len(),
        |i: int|
            if spec_end_match(drops[i], id, vendor) {
                spec_end_drop(drops[i], now)
            } else {
                drops[i]
            },
    )
}

/// Whether some drop matches one batch entry.
pub open spec fn spec_any_end_match(drops: Seq<DropRecord>, id: Seq<char>, vendor: Seq<char>) -> bool {
    exists|i: int| 0 <= i < drops.len() && spec_end_match(drops[i], id, vendor)
}

/// The registry and the per-entry outcomes after an administrative batch
/// end: entries apply in order, and an entry succeeds exactly when some
/// drop matched it at its turn.
pub open spec fn spec_batch_end(
    drops: Seq<DropRecord>,
    ids: Seq<Seq<char>>,
    vendor: Seq<char>,
    now: i64,
) -> (Seq<DropRecord>, Seq<bool>)
    decreases ids.len(),
{
    if ids.len() == 0 {
        (drops, Seq::empty())
    } else {
        let (d1, r1) = spec_batch_end(drops, ids.drop_last(), vendor, now);
        (
            spec_end_matching(d1, ids.last(), vendor, now),
            r1.push(spec_any_end_match(d1, ids.last(), vendor)),
        )
    }
}

impl DropLedger {
    /// Force-ends every live drop matching one batch entry; reports whether
    /// any did.
    #[verifier::loop_isolation(false)]
    pub(crate) fn end_matching(&mut self, id: &str, vendor: &str, now: i64) -> (r: bool)
        requires
            old(self).wf(),
        ensures
            final(self).wf(),
            final(self).drops@ == spec_end_matching(old(self).drops@, id@, vendor@, now),
            final(self).claims@ == old(self).claims@,
            final(self).vendors@ == old(self).vendors@,
            r == spec_any_end_match(old(self).drops@, id@, vendor@),
    {
        let ghost pre = self.drops@;
        let ghost image = spec_end_matching(pre, id@, vendor@, now);
        let n = self.drops.len();
        let mut any = false;
        let mut i: usize = 0;
        while i < n
            invariant
                i <= n,
                n == pre.len(),
                self.drops@.len() == pre.len(),
                self.claims@ == old(self).claims@,
                self.vendors@ == old(self).vendors@,
                forall|j: int| 0 <= j < i ==> self.drops@[j] == image[j],
                forall|j: int| i <= j < n ==> self.drops@[j] == pre[j],
                any == exists|j: int| 0 <= j < i && spec_end_match(pre[j], id@, vendor@),
            decreases n - i,
        {
            let live = self.drops[i].status.is_live();
            if live && crate::text::str_eq(self.drops[i].drop_id.as_str(), id)
                && crate::text::str_eq(self.drops[i].vendor_stable_id.as_str(), vendor) {
                let mut d = self.drops[i].duplicate();
                d.status = DropStatus::Ended;
                d.ended_at = Some(now);
                d.updated_at = now;
                self.drops[i] = d;
                any = true;
                assert(self.drops@[i as int] == image[i as int]);
            } else {
                assert(self.drops@[i as int] == image[i as int]);
            }
            i = i + 1;
        }
        proof {
            assert(self.drops@ =~= image);
            lemma_wf_after_status_update(*old(self), *self);
        }
        any
    }

    /// Ends every drop whose window has closed: the shared expiry sweep,
    /// run both lazily at query time and by the scheduler. Returns how many
    /// drops it transitioned. Running it twice at the same instant changes
    /// nothing the second time.
    #[verifier::loop_isolation(false)]
    pub fn expire_sweep(&mut self, now: i64) -> (count: usize)
        requires
            old(self).wf(),
        ensures
            final(self).wf(),
            final(self).drops@ == spec_expire(old(self).drops@, now),
            final(self).claims@ == old(self).claims@,
            final(self).vendors@ == old(self).vendors@,
            count == old(self).drops@.filter(|d: DropRecord| spec_due(d, now)).len(),
            forall|i: int|
                0 <= i < old(self).drops@.len() ==> status_le(
                    (#[trigger] old(self).drops@[i]).status,
                    final(self).drops@[i].status,
                ) && final(self).drops@[i].drop_id@ == old(self).drops@[i].drop_id@,
    {
        let ghost pre = self.drops@;
        let ghost image = spec_expire(pre, now);
        let ghost pred = |d: DropRecord| spec_due(d, now);
        let n = self.drops.len();
        let mut count: usize = 0;
        let mut i: usize = 0;
        while i < n
            invariant
                i <= n,
                n == pre.len(),
                self.drops@.len() == pre.len(),
                self.claims@ == old(self).claims@,
                self.vendors@ == old(self).vendors@,
                forall|j: int| 0 <= j < i ==> self.drops@[j] == image[j],
                forall|j: int| i <= j < n ==> self.drops@[j] == pre[j],
                count == pre.take(i as int).filter(pred).len(),
                count <= i,
            decreases n - i,
        {
            proof {
                assert(pre.take(i as int + 1) =~= pre.take(i as int).push(pre[i as int]));
                pre.take(i as int).lemma_filter_push(pre[i as int], pred);
            }
            let live = self.drops[i].status.is_live();
            if live && self.drops[i].end_at <= now {
                let mut d = self.drops[i].duplicate();
                d.status = DropStatus::Ended;
                d.ended_at = Some(now);
                d.updated_at = now;
                self.drops[i] = d;
                count = count + 1;
                assert(self.drops@[i as int] == image[i as int]);
            } else {
                assert(self.drops@[i as int] == image[i as int]);
            }
            i = i + 1;
        }
        proof {
            assert(pre.take(n as int) =~= pre);
            assert(self.drops@ =~= image);
            lemma_wf_after_status_update(*old(self), *self);
        }
        count
    }

    /// Administrative batch end: force-ends each listed drop of one vendor
    /// in order, reporting per entry whether anything changed. Entries are
    /// independent; a failed entry does not disturb the others.
    #[verifier::loop_isolation(false)]
    pub fn batch_end(&mut self, vendor: &str, drop_ids: &Vec<String>, now: i64) -> (results: Vec<
        (String, bool),
    >)
        requires
            old(self).wf(),
        ensures
            final(self).wf(),
            final(self).claims@ == old(self).claims@,
            final(self).vendors@ == old(self).vendors@,
            final(self).drops@ == spec_batch_end(
                old(self).drops@,
                drop_ids@.map_values(|s: String| s@),
                vendor@,
                now,
            ).0,
            results@.len() == drop_ids@.len(),
            forall|k: int|
                0 <= k < results@.len() ==> (#[trigger] results@[k]).0@ == drop_ids@[k]@
                    && results@[k].1 == spec_batch_end(
                    old(self).drops@,
                    drop_ids@.map_values(|s: String| s@),
                    vendor@,
                    now,
                ).1[k],
            forall|i: int|
                0 <= i < old(self).drops@.len() ==> status_le(
                    (#[trigger] old(self).drops@[i]).status,
                    final(self).drops@[i].status,
                ) && final(self).drops@[i].drop_id@ == old(self).drops@[i].drop_id@,
    {
        let ghost ids = drop_ids@.map_values(|s: String| s@);
        let ghost pre = *old(self);
        let m = drop_ids.len();
        let mut results: Vec<(String, bool)> = Vec::new();
        let mut k: usize = 0;
        while k < m
            invariant
                k <= m,
                m == drop_ids@.len(),
                self.wf(),
                self.claims@ == old(self).claims@,
                self.vendors@ == old(self).vendors@,
                self.drops@.len() == pre.drops@.len(),
                self.drops@ == spec_batch_end(pre.drops@, ids.take(k as int), vendor@, now).0,
                results@.len() == k,
                forall|j: int|
                    0 <= j < k ==> (#[trigger] results@[j]).0@ == ids[j] && results@[j].1
                        == spec_batch_end(pre.drops@, ids.take(k as int), vendor@, now).1[j],
                forall|i: int|
                    0 <= i < pre.drops@.len() ==> status_le(
                        (#[trigger] pre.drops@[i]).status,
                        self.drops@[i].status,
                    ) && self.drops@[i].drop_id@ == pre.drops@[i].drop_id@,
            decreases m - k,
        {
            let ghost before = *self;
            let id = &drop_ids[k];
            let hit = self.end_matching(id.as_str(), vendor, now);
            results.push((id.clone(), hit));
            proof {
                assert(ids.take(k as int + 1).drop_last() =~= ids.take(k as int));
                assert(ids.take(k as int + 1).last() == ids[k as int]);
                lemma_spec_batch_end_len(pre.drops@, ids.take(k as int), vendor@, now);
                let step = spec_batch_end(pre.drops@, ids.take(k as int + 1), vendor@, now);
                let prev = spec_batch_end(pre.drops@, ids.take(k as int), vendor@, now);
                assert(step.0 == spec_end_matching(prev.0, ids[k as int], vendor@, now));
                assert(step.1 == prev.1.push(spec_any_end_match(prev.0, ids[k as int], vendor@)));
                assert(before.drops@ == prev.0);
                assert(hit == spec_any_end_match(prev.0, ids[k as int], vendor@));
                assert(results@[k as int].1 == step.1[k as int]);
                assert forall|j: int| 0 <= j < k + 1 implies (#[trigger] results@[j]).0@ == ids[j]
                    && results@[j].1 == step.1[j] by {
                    if j < k as int {
                        assert(results@[j].1 == prev.1[j]);
                        assert(prev.1[j] == step.1[j]);
                    }
                }
            }
            k = k + 1;
        }
        proof {
            assert(ids.take(m as int) =~= ids);
        }
        results
    }
}

/// The outcome vector of a batch end is as long as its entry list.
pub proof fn lemma_spec_batch_end_len(
    drops: Seq<DropRecord>,
    ids: Seq<Seq<char>>,
    vendor: Seq<char>,
    now: i64,
)
    ensures
        spec_batch_end(drops, ids, vendor, now).1.len() == ids.len(),
        spec_batch_end(drops, ids, vendor, now).0.len() == drops.len(),
    decreases ids.len(),
{
    if ids.len() > 0 {
        lemma_spec_batch_end_len(drops, ids.drop_last(), vendor, now);
    }
}

/// A batch end only advances statuses and stamps: every identity field of
/// every drop survives, and no drop becomes or ceases to be purged.
pub proof fn lemma_spec_batch_end_fields(
    drops: Seq<DropRecord>,
    ids: Seq<Seq<char>>,
    vendor: Seq<char>,
    now: i64,
)
    ensures
        ({
            let f = spec_batch_end(drops, ids, vendor, now).0;
            &&& f.len() == drops.len()
            &&& forall|i: int|
                0 <= i < drops.len() ==> {
                    let a = #[trigger] f[i];
                    &&& a.drop_id == drops[i].drop_id
                    &&& a.audio_object_key == drops[i].audio_object_key
                    &&& a.audio_sha256 == drops[i].audio_sha256
                    &&& a.audio_size_bytes == drops[i].audio_size_bytes
                    &&& a.cover_object_key == drops[i].cover_object_key
                    &&& (a.status == DropStatus::Purged <==> drops[i].status
                        == DropStatus::Purged)
                }
        }),
    decreases ids.len(),
{
    if ids.len() > 0 {
        lemma_spec_batch_end_fields(drops, ids.drop_last(), vendor, now);
    }
}

/// A transformation that only advances statuses and lifecycle stamps —
/// identifiers, counters and capacities untouched, per-drop invariants kept
/// — preserves well-formedness of the whole ledger.
pub proof fn lemma_wf_after_status_update(pre: DropLedger, post: DropLedger)
    requires
        pre.wf(),
        post.drops@.len() == pre.drops@.len(),
        post.claims@ == pre.claims@,
        post.vendors@ == pre.vendors@,
        forall|i: int|
            0 <= i < pre.drops@.len() ==> (#[trigger] post.drops@[i]).drop_id@
                == pre.drops@[i].drop_id@ && post.drops@[i].claimed_count
                == pre.drops@[i].claimed_count && post.drops@[i].inv(),
    ensures
        post.wf(),
{
    assert forall|i: int|
        0 <= i < post.claims@.len() implies crate::ledger::has_drop(
        post.drops@,
        (#[trigger] post.claims@[i]).drop_id@,
    ) by {
        let w = choose|w: int|
            0 <= w < pre.drops@.len() && pre.drops@[w].drop_id@ == pre.claims@[i].drop_id@;
        assert(post.drops@[w].drop_id@ == post.claims@[i].drop_id@);
    }
}

} // verus!
