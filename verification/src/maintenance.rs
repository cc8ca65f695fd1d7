//! Storage reclamation: the purge sweep the scheduler runs after the
//! grace period, and the administrative batch purge. Purging deletes a
//! drop's blobs and marks the row `Purged`; the row itself, and all claim
//! rows, stay as an audit trail.

use vstd::prelude::*;

use crate::content_store::{lemma_filter_keeps_distinct_keys, BlobEntry};
use crate::ledger::has_drop;
use crate::records::DropRecord;
use crate::status::{status_le, DropStatus};
use crate::sweeps::{spec_end_matching, spec_expire};
use crate::system::{spec_backed, DropSystem};

verus! {

/// A drop the purge sweep is due to reclaim: ended, with its `ended_at`
/// stamp at or before the cutoff (the sweep instant minus the grace
/// period).
pub open spec fn spec_purge_due(d: DropRecord, cutoff: i64) -> bool {
    d.status == DropStatus::Ended && d.ended_at is Some && d.ended_at->0 <= cutoff
}

/// The drop after its transition to `Purged` at `now`.
pub open spec fn spec_purge_drop(d: DropRecord, now: i64) -> DropRecord {
    DropRecord { status: DropStatus::Purged, purged_at: Some(now), updated_at: now, ..d }
}

/// The whole registry after the purge sweep.
pub open spec fn spec_purge_sweep(drops: Seq<DropRecord>, cutoff: i64, now: i64) -> Seq<
    DropRecord,
> {
    Seq::new(
        drops.len(),
        |i: int|
            if spec_purge_due(drops[i], cutoff) {
                spec_purge_drop(drops[i], now)
            } else {
                drops[i]
            },
    )
}

/// Whether a blob owner is one of the drops the purge sweep reclaims.
pub open spec fn spec_purge_owner(drops: Seq<DropRecord>, owner: Seq<char>, cutoff: i64) -> bool {
    exists|i: int|
        0 <= i < drops.len() && spec_purge_due(#[trigger] drops[i], cutoff) && drops[i].drop_id@
            == owner
}

/// A drop matching an administrative batch-purge entry: the right
/// identifier and the right vendor, in any state.
pub open spec fn spec_purge_match(d: DropRecord, id: Seq<char>, vendor: Seq<char>) -> bool {
    d.drop_id@ == id && d.vendor_stable_id@ == vendor
}

/// Whether some drop matches one batch-purge entry.
pub open spec fn spec_any_purge_match(
    drops: Seq<DropRecord>,
    id: Seq<char>,
    vendor: Seq<char>,
) -> bool {
    exists|i: int| 0 <= i < drops.len() && spec_purge_match(#[trigger] drops[i], id, vendor)
}

/// The registry after purging every drop matching one batch entry.
pub open spec fn spec_purge_matching(
    drops: Seq<DropRecord>,
    id: Seq<char>,
    vendor: Seq<char>,
    now: i64,
) -> Seq<DropRecord> {
    Seq::new(
        drops.len(),
        |i: int|
            if spec_purge_match(drops[i], id, vendor) {
                spec_purge_drop(drops[i], now)
            } else {
                drops[i]
            },
    )
}

/// Registry, store and per-entry outcomes after an administrative batch
/// purge: each entry first force-ends its drop if still live, then — when
/// a drop of that identifier and vendor exists — deletes the drop's blobs
/// and marks it purged, regardless of the grace period.
pub open spec fn spec_batch_purge(
    drops: Seq<DropRecord>,
    entries: Seq<BlobEntry>,
    ids: Seq<Seq<char>>,
    vendor: Seq<char>,
    now: i64,
) -> (Seq<DropRecord>, Seq<BlobEntry>, Seq<bool>)
    decreases ids.len(),
{
    if ids.len() == 0 {
        (drops, entries, Seq::empty())
    } else {
        let (d1, e1, r1) = spec_batch_purge(drops, entries, ids.drop_last(), vendor, now);
        let id = ids.last();
        let ended = spec_end_matching(d1, id, vendor, now);
        if spec_any_purge_match(ended, id, vendor) {
            (
                spec_purge_matching(ended, id, vendor, now),
                e1.filter(crate::content_store::not_owned_by(id)),
                r1.push(true),
            )
        } else {
            (ended, e1, r1.push(false))
        }
    }
}

/// The outcome vector of a batch purge is as long as its entry list, and
/// the registry keeps its length.
pub proof fn lemma_spec_batch_purge_len(
    drops: Seq<DropRecord>,
    entries: Seq<BlobEntry>,
    ids: Seq<Seq<char>>,
    vendor: Seq<char>,
    now: i64,
)
    ensures
        spec_batch_purge(drops, entries, ids, vendor, now).2.len() == ids.len(),
        spec_batch_purge(drops, entries, ids, vendor, now).0.len() == drops.len(),
    decreases ids.len(),
{
    if ids.len() > 0 {
        lemma_spec_batch_purge_len(drops, entries, ids.drop_last(), vendor, now);
    }
}

/// A backed drop stays backed by a filtered store as long as the filter
/// keeps every entry the drop owns.
pub proof fn lemma_backed_after_filter(
    entries: Seq<BlobEntry>,
    pred: spec_fn(BlobEntry) -> bool,
    d: DropRecord,
)
    requires
        spec_backed(entries, d),
        forall|e: int|
            0 <= e < entries.len() && (#[trigger] entries[e]).drop_id@ == d.drop_id@ ==> pred(
                entries[e],
            ),
    ensures
        spec_backed(entries.filter(pred), d),
{
    let f = entries.filter(pred);
    let w = choose|e: int|
        0 <= e < entries.len() && (#[trigger] entries[e]).drop_id@ == d.drop_id@ && entries[e].key@
            == d.audio_object_key@ && crate::hashing::sha256_hex_of(entries[e].bytes@)
            == d.audio_sha256@ && entries[e].bytes@.len() == d.audio_size_bytes;
    entries.lemma_filter_contains(pred, w);
    let fw = choose|i: int| 0 <= i < f.len() && f[i] == entries[w];
    assert(f[fw].drop_id@ == d.drop_id@);
    match d.cover_object_key {
        Some(k) => {
            let c = choose|e: int|
                0 <= e < entries.len() && (#[trigger] entries[e]).drop_id@ == d.drop_id@
                    && entries[e].key@ == k@;
            entries.lemma_filter_contains(pred, c);
            let fc = choose|i: int| 0 <= i < f.len() && f[i] == entries[c];
            assert(f[fc].drop_id@ == d.drop_id@);
        },
        None => {},
    }
}

/// Whether some drop is due for the purge sweep under the cutoff and owns
/// the given identifier.
fn due_owner_exists(drops: &Vec<DropRecord>, owner: &str, cutoff: i64) -> (r: bool)
    ensures
        r == spec_purge_owner(drops@, owner@, cutoff),
{
    let n = drops.len();
    let mut i: usize = 0;
    while i < n
        invariant
            i <= n,
            n == drops@.len(),
            forall|j: int|
                0 <= j < i ==> !(spec_purge_due(#[trigger] drops@[j], cutoff) && drops@[j].drop_id@
                    == owner@),
        decreases n - i,
    {
        let due = match (&drops[i].status, &drops[i].ended_at) {
            (DropStatus::Ended, Some(t)) => *t <= cutoff,
            _ => false,
        };
        if due && crate::text::str_eq(drops[i].drop_id.as_str(), owner) {
            return true;
        }
        i = i + 1;
    }
    false
}

impl DropSystem {
    /// Runs the expiry sweep over the whole registry: every drop whose
    /// window has closed becomes `Ended`. Shared by query-time lazy expiry
    /// and the scheduler; idempotent at a fixed instant.
    pub fn expire_sweep(&mut self, now: i64) -> (count: usize)
        requires
            old(self).wf(),
        ensures
            final(self).wf(),
            final(self).ledger.drops@ == spec_expire(old(self).ledger.drops@, now),
            final(self).ledger.claims@ == old(self).ledger.claims@,
            final(self).ledger.vendors@ == old(self).ledger.vendors@,
            final(self).store == old(self).store,
            count == old(self).ledger.drops@.filter(
                |d: DropRecord| crate::sweeps::spec_due(d, now),
            ).len(),
            forall|i: int|
                0 <= i < old(self).ledger.drops@.len() ==> status_le(
                    (#[trigger] old(self).ledger.drops@[i]).status,
                    final(self).ledger.drops@[i].status,
                ) && final(self).ledger.drops@[i].drop_id@ == old(self).ledger.drops@[i].drop_id@,
    {
        let ghost pre = *self;
        let count = self.ledger.expire_sweep(now);
        proof {
            assert forall|i: int|
                0 <= i < self.ledger.drops@.len() && (#[trigger] self.ledger.drops@[i]).status
                    != DropStatus::Purged implies spec_backed(
                self.store.entries@,
                self.ledger.drops@[i],
            ) by {
                if self.ledger.drops@[i] != pre.ledger.drops@[i] {
                    crate::service::lemma_backed_same_identity(
                        self.store.entries@,
                        pre.ledger.drops@[i],
                        self.ledger.drops@[i],
                    );
                }
            }
        }
        count
    }

    /// Administrative batch end, scoped to one vendor: force-ends each
    /// listed drop that is still live, reporting per entry whether anything
    /// changed. Blobs stay in place — only a purge removes them.
    pub fn batch_end(&mut self, vendor: &str, drop_ids: &Vec<String>, now: i64) -> (results: Vec<
        (String, bool),
    >)
        requires
            old(self).wf(),
        ensures
            final(self).wf(),
            final(self).ledger.claims@ == old(self).ledger.claims@,
            final(self).ledger.vendors@ == old(self).ledger.vendors@,
            final(self).store == old(self).store,
            final(self).ledger.drops@ == crate::sweeps::spec_batch_end(
                old(self).ledger.drops@,
                drop_ids@.map_values(|s: String| s@),
                vendor@,
                now,
            ).0,
            results@.len() == drop_ids@.len(),
            forall|k: int|
                0 <= k < results@.len() ==> (#[trigger] results@[k]).0@ == drop_ids@[k]@
                    && results@[k].1 == crate::sweeps::spec_batch_end(
                    old(self).ledger.drops@,
                    drop_ids@.map_values(|s: String| s@),
                    vendor@,
                    now,
                ).1[k],
            forall|i: int|
                0 <= i < old(self).ledger.drops@.len() ==> status_le(
                    (#[trigger] old(self).ledger.drops@[i]).status,
                    final(self).ledger.drops@[i].status,
                ) && final(self).ledger.drops@[i].drop_id@ == old(self).ledger.drops@[i].drop_id@,
    {
        let ghost pre = *self;
        let results = self.ledger.batch_end(vendor, drop_ids, now);
        proof {
            crate::sweeps::lemma_spec_batch_end_len(
                pre.ledger.drops@,
                drop_ids@.map_values(|s: String| s@),
                vendor@,
                now,
            );
            crate::sweeps::lemma_spec_batch_end_fields(
                pre.ledger.drops@,
                drop_ids@.map_values(|s: String| s@),
                vendor@,
                now,
            );
            assert(self.ledger.drops@.len() == pre.ledger.drops@.len());
            assert forall|i: int|
                0 <= i < self.ledger.drops@.len() && (#[trigger] self.ledger.drops@[i]).status
                    != DropStatus::Purged implies spec_backed(
                self.store.entries@,
                self.ledger.drops@[i],
            ) by {
                if self.ledger.drops@[i] != pre.ledger.drops@[i] {
                    crate::service::lemma_backed_same_identity(
                        self.store.entries@,
                        pre.ledger.drops@[i],
                        self.ledger.drops@[i],
                    );
                }
            }
        }
        results
    }

    /// Runs the purge sweep: every drop that has been `Ended` for at least
    /// the grace period loses its blobs and becomes `Purged`. Claims stay.
    /// Returns how many drops it reclaimed.
    #[verifier::loop_isolation(false)]
    pub fn purge_sweep(&mut self, now: i64, grace_seconds: i64) -> (count: usize)
        requires
            old(self).wf(),
            i64::MIN <= now - grace_seconds <= i64::MAX,
        ensures
            final(self).wf(),
            final(self).ledger.drops@ == spec_purge_sweep(
                old(self).ledger.drops@,
                (now - grace_seconds) as i64,
                now,
            ),
            final(self).ledger.claims@ == old(self).ledger.claims@,
            final(self).ledger.vendors@ == old(self).ledger.vendors@,
            final(self).store.entries@ == old(self).store.entries@.filter(
                |e: BlobEntry|
                    !spec_purge_owner(
                        old(self).ledger.drops@,
                        e.drop_id@,
                        (now - grace_seconds) as i64,
                    ),
            ),
            count == old(self).ledger.drops@.filter(
                |d: DropRecord| spec_purge_due(d, (now - grace_seconds) as i64),
            ).len(),
            forall|i: int|
                0 <= i < old(self).ledger.drops@.len() ==> status_le(
                    (#[trigger] old(self).ledger.drops@[i]).status,
                    final(self).ledger.drops@[i].status,
                ) && final(self).ledger.drops@[i].drop_id@ == old(self).ledger.drops@[i].drop_id@,
    {
        let cutoff = now - grace_seconds;
        let ghost pre = *self;
        let ghost keep_pred = |e: BlobEntry| !spec_purge_owner(pre.ledger.drops@, e.drop_id@, cutoff);

        // First reclaim the blobs of every due drop.
        let ghost pre_entries = self.store.entries@;
        let en = self.store.entries.len();
        let mut kept: Vec<BlobEntry> = Vec::new();
        let mut i: usize = 0;
        while i < en
            invariant
                i <= en,
                en == pre_entries.len(),
                self.store.entries@ == pre_entries.skip(i as int),
                kept@ == pre_entries.take(i as int).filter(keep_pred),
                self.ledger == pre.ledger,
            decreases en - i,
        {
            let e = self.store.entries.remove(0);
            proof {
                assert(e == pre_entries[i as int]);
                assert(pre_entries.skip(i as int).remove(0) =~= pre_entries.skip(i as int + 1));
                assert(pre_entries.take(i as int + 1) =~= pre_entries.take(i as int).push(
                    pre_entries[i as int],
                ));
                pre_entries.take(i as int).lemma_filter_push(pre_entries[i as int], keep_pred);
            }
            if !due_owner_exists(&self.ledger.drops, e.drop_id.as_str(), cutoff) {
                kept.push(e);
            }
            i = i + 1;
        }
        proof {
            assert(pre_entries.take(en as int) =~= pre_entries);
            lemma_filter_keeps_distinct_keys(pre_entries, keep_pred);
        }
        self.store.entries = kept;

        // Then advance the rows.
        let ghost pre_drops = self.ledger.drops@;
        let ghost image = spec_purge_sweep(pre_drops, cutoff, now);
        let ghost due_pred = |d: DropRecord| spec_purge_due(d, cutoff);
        let dn = self.ledger.drops.len();
        let mut count: usize = 0;
        let mut k: usize = 0;
        while k < dn
            invariant
                k <= dn,
                dn == pre_drops.len(),
                self.ledger.drops@.len() == pre_drops.len(),
                self.ledger.claims@ == pre.ledger.claims@,
                self.ledger.vendors@ == pre.ledger.vendors@,
                self.store.entries@ == pre_entries.filter(keep_pred),
                forall|j: int| 0 <= j < k ==> self.ledger.drops@[j] == image[j],
                forall|j: int| k <= j < dn ==> self.ledger.drops@[j] == pre_drops[j],
                count == pre_drops.take(k as int).filter(due_pred).len(),
                count <= k,
            decreases dn - k,
        {
            proof {
                assert(pre_drops.take(k as int + 1) =~= pre_drops.take(k as int).push(
                    pre_drops[k as int],
                ));
                pre_drops.take(k as int).lemma_filter_push(pre_drops[k as int], due_pred);
            }
            let due = match (&self.ledger.drops[k].status, &self.ledger.drops[k].ended_at) {
                (DropStatus::Ended, Some(t)) => *t <= cutoff,
                _ => false,
            };
            if due {
                let mut d = self.ledger.drops[k].duplicate();
                d.status = DropStatus::Purged;
                d.purged_at = Some(now);
                d.updated_at = now;
                self.ledger.drops[k] = d;
                count = count + 1;
                assert(self.ledger.drops@[k as int] == image[k as int]);
            } else {
                assert(self.ledger.drops@[k as int] == image[k as int]);
            }
            k = k + 1;
        }
        proof {
            assert(pre_drops.take(dn as int) =~= pre_drops);
            assert(self.ledger.drops@ =~= image);
            crate::sweeps::lemma_wf_after_status_update(pre.ledger, self.ledger);
            assert forall|j: int|
                0 <= j < self.ledger.drops@.len() && (#[trigger] self.ledger.drops@[j]).status
                    != DropStatus::Purged implies spec_backed(
                self.store.entries@,
                self.ledger.drops@[j],
            ) by {
                assert(!spec_purge_due(pre_drops[j], cutoff));
                assert(self.ledger.drops@[j] == pre_drops[j]);
                assert forall|e: int|
                    0 <= e < pre_entries.len() && (#[trigger] pre_entries[e]).drop_id@
                        == pre_drops[j].drop_id@ implies keep_pred(pre_entries[e]) by {
                    if spec_purge_owner(pre.ledger.drops@, pre_entries[e].drop_id@, cutoff) {
                        let w = choose|w: int|
                            0 <= w < pre_drops.len() && spec_purge_due(
                                #[trigger] pre_drops[w],
                                cutoff,
                            ) && pre_drops[w].drop_id@ == pre_entries[e].drop_id@;
                        assert(pre_drops[w].drop_id@ == pre_drops[j].drop_id@);
                        assert(w == j);
                    }
                }
                lemma_backed_after_filter(pre_entries, keep_pred, pre_drops[j]);
            }
        }
        count
    }

    /// Administrative batch purge, scoped to one vendor: each listed drop
    /// is force-ended if still live, then — when a drop of that identifier
    /// and vendor exists — its blobs are deleted and the row marked
    /// `Purged`, regardless of the grace period. Entries are reported
    /// independently, in order.
    #[verifier::loop_isolation(false)]
    pub fn batch_purge(&mut self, vendor: &str, drop_ids: &Vec<String>, now: i64) -> (results: Vec<
        (String, bool),
    >)
        requires
            old(self).wf(),
        ensures
            final(self).wf(),
            final(self).ledger.claims@ == old(self).ledger.claims@,
            final(self).ledger.vendors@ == old(self).ledger.vendors@,
            ({
                let outcome = spec_batch_purge(
                    old(self).ledger.drops@,
                    old(self).store.entries@,
                    drop_ids@.map_values(|s: String| s@),
                    vendor@,
                    now,
                );
                &&& final(self).ledger.drops@ == outcome.0
                &&& final(self).store.entries@ == outcome.1
                &&& results@.len() == drop_ids@.len()
                &&& forall|k: int|
                    0 <= k < results@.len() ==> (#[trigger] results@[k]).0@ == drop_ids@[k]@
                        && results@[k].1 == outcome.2[k]
            }),
            forall|i: int|
                0 <= i < old(self).ledger.drops@.len() ==> status_le(
                    (#[trigger] old(self).ledger.drops@[i]).status,
                    final(self).ledger.drops@[i].status,
                ) && final(self).ledger.drops@[i].drop_id@ == old(self).ledger.drops@[i].drop_id@,
    {
        let ghost ids = drop_ids@.map_values(|s: String| s@);
        let ghost pre = *self;
        let m = drop_ids.len();
        let mut results: Vec<(String, bool)> = Vec::new();
        let mut k: usize = 0;
        while k < m
            invariant
                k <= m,
                m == drop_ids@.len(),
                self.wf(),
                self.ledger.claims@ == pre.ledger.claims@,
                self.ledger.vendors@ == pre.ledger.vendors@,
                self.ledger.drops@.len() == pre.ledger.drops@.len(),
                self.ledger.drops@ == spec_batch_purge(
                    pre.ledger.drops@,
                    pre.store.entries@,
                    ids.take(k as int),
                    vendor@,
                    now,
                ).0,
                self.store.entries@ == spec_batch_purge(
                    pre.ledger.drops@,
                    pre.store.entries@,
                    ids.take(k as int),
                    vendor@,
                    now,
                ).1,
                results@.len() == k,
                forall|j: int|
                    0 <= j < k ==> (#[trigger] results@[j]).0@ == ids[j] && results@[j].1
                        == spec_batch_purge(
                        pre.ledger.drops@,
                        pre.store.entries@,
                        ids.take(k as int),
                        vendor@,
                        now,
                    ).2[j],
                forall|i: int|
                    0 <= i < pre.ledger.drops@.len() ==> status_le(
                        (#[trigger] pre.ledger.drops@[i]).status,
                        self.ledger.drops@[i].status,
                    ) && self.ledger.drops@[i].drop_id@ == pre.ledger.drops@[i].drop_id@,
            decreases m - k,
        {
            let ghost before = *self;
            let id = &drop_ids[k];
            let _ended = self.ledger.end_matching(id.as_str(), vendor, now);
            let ghost ended_drops = self.ledger.drops@;
            proof {
                // Force-ending touches no identity field, so blobs stay
                // backed; records stay invariant-respecting.
                assert forall|i: int|
                    0 <= i < self.ledger.drops@.len() && (#[trigger] self.ledger.drops@[i]).status
                        != DropStatus::Purged implies spec_backed(
                    self.store.entries@,
                    self.ledger.drops@[i],
                ) by {
                    if self.ledger.drops@[i] != before.ledger.drops@[i] {
                        crate::service::lemma_backed_same_identity(
                            self.store.entries@,
                            before.ledger.drops@[i],
                            self.ledger.drops@[i],
                        );
                    }
                }
            }
            let ghost mid = *self;
            let hit = match self.ledger.find_drop(id.as_str()) {
                Some(di) => {
                    if crate::text::str_eq(
                        self.ledger.drops[di].vendor_stable_id.as_str(),
                        vendor,
                    ) {
                        self.store.delete_all(id.as_str());
                        let mut d = self.ledger.drops[di].duplicate();
                        d.status = DropStatus::Purged;
                        d.purged_at = Some(now);
                        d.updated_at = now;
                        self.ledger.drops[di] = d;
                        proof {
                            lemma_batch_purge_step(mid, *self, id@, vendor@, now, di as int);
                        }
                        true
                    } else {
                        proof {
                            assert forall|i: int|
                                0 <= i < ended_drops.len() implies !spec_purge_match(
                                #[trigger] ended_drops[i],
                                id@,
                                vendor@,
                            ) by {
                                if ended_drops[i].drop_id@ == id@ {
                                    assert(i == di as int);
                                }
                            }
                        }
                        false
                    }
                },
                None => {
                    proof {
                        assert forall|i: int|
                            0 <= i < ended_drops.len() implies !spec_purge_match(
                            #[trigger] ended_drops[i],
                            id@,
                            vendor@,
                        ) by {
                            assert(!has_drop(ended_drops, id@));
                        }
                    }
                    false
                },
            };
            results.push((id.clone(), hit));
            proof {
                assert(ids.take(k as int + 1).drop_last() =~= ids.take(k as int));
                assert(ids.take(k as int + 1).last() == ids[k as int]);
                lemma_spec_batch_purge_len(
                    pre.ledger.drops@,
                    pre.store.entries@,
                    ids.take(k as int),
                    vendor@,
                    now,
                );
                let step = spec_batch_purge(
                    pre.ledger.drops@,
                    pre.store.entries@,
                    ids.take(k as int + 1),
                    vendor@,
                    now,
                );
                let prev = spec_batch_purge(
                    pre.ledger.drops@,
                    pre.store.entries@,
                    ids.take(k as int),
                    vendor@,
                    now,
                );
                assert(before.ledger.drops@ == prev.0);
                assert(before.store.entries@ == prev.1);
                assert(ended_drops == spec_end_matching(prev.0, ids[k as int], vendor@, now));
                assert(hit == spec_any_purge_match(ended_drops, ids[k as int], vendor@));
                assert(self.ledger.drops@ == step.0);
                assert(self.store.entries@ == step.1);
                assert(results@[k as int].1 == step.2[k as int]);
                assert forall|j: int| 0 <= j < k + 1 implies (#[trigger] results@[j]).0@ == ids[j]
                    && results@[j].1 == step.2[j] by {
                    if j < k as int {
                        assert(results@[j].1 == prev.2[j]);
                        assert(prev.2[j] == step.2[j]);
                    }
                }
            }
            k = k + 1;
        }
        proof {
            assert(ids.take(m as int) =~= ids);
        }
        results
    }
}

/// One found batch-purge entry takes the system from the force-ended state
/// to the purged state: the matching row purged, the drop's blobs gone,
/// everything else untouched and still well-formed.
pub proof fn lemma_batch_purge_step(
    mid: DropSystem,
    post: DropSystem,
    id: Seq<char>,
    vendor: Seq<char>,
    now: i64,
    di: int,
)
    requires
        mid.wf(),
        0 <= di < mid.ledger.drops@.len(),
        mid.ledger.drops@[di].drop_id@ == id,
        mid.ledger.drops@[di].vendor_stable_id@ == vendor,
        mid.ledger.drops@[di].status == DropStatus::Ended || mid.ledger.drops@[di].status
            == DropStatus::Purged,
        post.ledger.drops@ == mid.ledger.drops@.update(di, spec_purge_drop(mid.ledger.drops@[di], now)),
        post.ledger.claims@ == mid.ledger.claims@,
        post.ledger.vendors@ == mid.ledger.vendors@,
        post.store.entries@ == mid.store.entries@.filter(crate::content_store::not_owned_by(id)),
        post.store.wf(),
    ensures
        post.wf(),
        post.ledger.drops@ == spec_purge_matching(mid.ledger.drops@, id, vendor, now),
        spec_any_purge_match(mid.ledger.drops@, id, vendor),
{
    let drops = mid.ledger.drops@;
    assert forall|j: int| 0 <= j < drops.len() && j != di implies !spec_purge_match(
        #[trigger] drops[j],
        id,
        vendor,
    ) by {
        assert(drops[j].drop_id@ != drops[di].drop_id@);
    }
    assert(post.ledger.drops@ =~= spec_purge_matching(drops, id, vendor, now));
    assert forall|j: int|
        0 <= j < post.ledger.drops@.len() implies (#[trigger] post.ledger.drops@[j]).drop_id@
        == drops[j].drop_id@ && post.ledger.drops@[j].claimed_count == drops[j].claimed_count
        && post.ledger.drops@[j].inv() by {
        if j == di {
            assert(drops[di].ended_at is Some);
        }
    }
    crate::sweeps::lemma_wf_after_status_update(mid.ledger, post.ledger);
    assert forall|j: int|
        0 <= j < post.ledger.drops@.len() && (#[trigger] post.ledger.drops@[j]).status
            != DropStatus::Purged implies spec_backed(
        post.store.entries@,
        post.ledger.drops@[j],
    ) by {
        assert(j != di);
        assert(post.ledger.drops@[j] == drops[j]);
        let keep = crate::content_store::not_owned_by(id);
        assert forall|e: int|
            0 <= e < mid.store.entries@.len() && (#[trigger] mid.store.entries@[e]).drop_id@
                == drops[j].drop_id@ implies keep(mid.store.entries@[e]) by {
            assert(drops[j].drop_id@ != drops[di].drop_id@);
        }
        lemma_backed_after_filter(mid.store.entries@, keep, drops[j]);
    }
}

} // verus!
