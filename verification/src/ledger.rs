//! The drop registry and claim ledger: the rows, their invariants, and the
//! claim operation.
//!
//! Two invariants rule the ledger. Every drop's `claimed_count` sits within
//! `[0, max_claims]` and equals the number of claims recorded against it,
//! and at most one claim exists per `(drop_id, user_id)` pair. A claim
//! inserts its row and increments the counter as one step, so the two can
//! never drift apart.

use vstd::prelude::*;

use crate::errors::DropError;
use crate::models::Vendor;
use crate::records::{ClaimRecord, DropRecord};
use crate::status::{status_le, DropStatus};

verus! {

/// Whether some drop carries the identifier.
pub open spec fn has_drop(drops: Seq<DropRecord>, id: Seq<char>) -> bool {
    exists|i: int| 0 <= i < drops.len() && drops[i].drop_id@ == id
}

/// The index of the drop carrying the identifier.
pub open spec fn drop_index(drops: Seq<DropRecord>, id: Seq<char>) -> int {
    choose|i: int| 0 <= i < drops.len() && drops[i].drop_id@ == id
}

/// Whether a user already holds a claim on a drop.
pub open spec fn has_claim(claims: Seq<ClaimRecord>, drop_id: Seq<char>, user_id: Seq<char>) -> bool {
    exists|i: int|
        0 <= i < claims.len() && claims[i].drop_id@ == drop_id && claims[i].user_id@ == user_id
}

/// Whether a claim with the given identifier exists against a drop — the
/// download-token check.
pub open spec fn has_claim_token(
    claims: Seq<ClaimRecord>,
    claim_id: Seq<char>,
    drop_id: Seq<char>,
) -> bool {
    exists|i: int|
        0 <= i < claims.len() && claims[i].claim_id@ == claim_id && claims[i].drop_id@ == drop_id
}

/// The claims recorded against one drop.
pub open spec fn claims_for(claims: Seq<ClaimRecord>, drop_id: Seq<char>) -> Seq<ClaimRecord> {
    claims.filter(|c: ClaimRecord| c.drop_id@ == drop_id)
}

/// Whether some vendor carries the identifier and is alive.
pub open spec fn has_live_vendor(vendors: Seq<Vendor>, id: Seq<char>) -> bool {
    exists|i: int| 0 <= i < vendors.len() && vendors[i].stable_id@ == id && vendors[i].is_alive == 1
}

/// Whether some vendor carries the identifier, alive or not.
pub open spec fn has_vendor(vendors: Seq<Vendor>, id: Seq<char>) -> bool {
    exists|i: int| 0 <= i < vendors.len() && vendors[i].stable_id@ == id
}

/// The index of the vendor carrying the identifier.
pub open spec fn vendor_index(vendors: Seq<Vendor>, id: Seq<char>) -> int {
    choose|i: int| 0 <= i < vendors.len() && vendors[i].stable_id@ == id
}

/// The drop registry and claim ledger, with the vendor table the creation
/// check consults.
pub struct DropLedger {
    /// All drop rows, never removed, in creation order.
    pub drops: Vec<DropRecord>,
    /// All claim rows, never removed, in issue order.
    pub claims: Vec<ClaimRecord>,
    /// The vendor table.
    pub vendors: Vec<Vendor>,
}

impl DropLedger {
    /// Well-formedness of the whole ledger:
    /// - drop identifiers are pairwise distinct;
    /// - every drop satisfies its own invariant (counter within bounds,
    ///   lifecycle stamps present);
    /// - at most one claim exists per `(drop_id, user_id)` pair;
    /// - every claim references an existing drop;
    /// - every drop's `claimed_count` equals the number of its claims;
    /// - vendor identifiers are pairwise distinct.
    pub open spec fn wf(self) -> bool {
        &&& forall|i: int, j: int|
            0 <= i < j < self.drops@.len() ==> self.drops@[i].drop_id@ != self.drops@[j].drop_id@
        &&& forall|i: int| 0 <= i < self.drops@.len() ==> (#[trigger] self.drops@[i]).inv()
        &&& forall|i: int, j: int|
            0 <= i < j < self.claims@.len() ==> !(self.claims@[i].drop_id@
                == self.claims@[j].drop_id@ && self.claims@[i].user_id@
                == self.claims@[j].user_id@)
        &&& forall|i: int|
            0 <= i < self.claims@.len() ==> has_drop(
                self.drops@,
                (#[trigger] self.claims@[i]).drop_id@,
            )
        &&& forall|i: int|
            0 <= i < self.drops@.len() ==> (#[trigger] self.drops@[i]).claimed_count == claims_for(
                self.claims@,
                self.drops@[i].drop_id@,
            ).len()
        &&& forall|i: int, j: int|
            0 <= i < j < self.vendors@.len() ==> self.vendors@[i].stable_id@
                != self.vendors@[j].stable_id@
    }

    /// An empty ledger.
    pub fn new() -> (r: DropLedger)
        ensures
            r.wf(),
            r.drops@.len() == 0,
            r.claims@.len() == 0,
            r.vendors@.len() == 0,
    {
        DropLedger { drops: Vec::new(), claims: Vec::new(), vendors: Vec::new() }
    }

    /// Finds the index of the drop carrying an identifier.
    pub fn find_drop(&self, drop_id: &str) -> (r: Option<usize>)
        requires
            self.wf(),
        ensures
            match r {
                Some(i) => has_drop(self.drops@, drop_id@) && i == drop_index(self.drops@, drop_id@)
                    && i < self.drops@.len(),
                None => !has_drop(self.drops@, drop_id@),
            },
    {
        let n = self.drops.len();
        let mut i: usize = 0;
        while i < n
            invariant
                i <= n,
                n == self.drops@.len(),
                self.wf(),
                forall|j: int| 0 <= j < i ==> self.drops@[j].drop_id@ != drop_id@,
            decreases n - i,
        {
            if crate::text::str_eq(self.drops[i].drop_id.as_str(), drop_id) {
                proof {
                    let k = drop_index(self.drops@, drop_id@);
                    assert(0 <= k < self.drops@.len() && self.drops@[k].drop_id@ == drop_id@);
                    assert(k == i as int);
                }
                return Some(i);
            }
            i = i + 1;
        }
        None
    }

    /// Whether a user already holds a claim on a drop.
    pub fn claim_exists(&self, drop_id: &str, user_id: &str) -> (r: bool)
        ensures
            r == has_claim(self.claims@, drop_id@, user_id@),
    {
        let n = self.claims.len();
        let mut i: usize = 0;
        while i < n
            invariant
                i <= n,
                n == self.claims@.len(),
                forall|j: int|
                    0 <= j < i ==> !(self.claims@[j].drop_id@ == drop_id@
                        && self.claims@[j].user_id@ == user_id@),
            decreases n - i,
        {
            if crate::text::str_eq(self.claims[i].drop_id.as_str(), drop_id) && crate::text::str_eq(
                self.claims[i].user_id.as_str(),
                user_id,
            ) {
                return true;
            }
            i = i + 1;
        }
        false
    }

    /// Whether a claim with the given identifier exists against a drop.
    pub fn claim_token_exists(&self, claim_id: &str, drop_id: &str) -> (r: bool)
        ensures
            r == has_claim_token(self.claims@, claim_id@, drop_id@),
    {
        let n = self.claims.len();
        let mut i: usize = 0;
        while i < n
            invariant
                i <= n,
                n == self.claims@.len(),
                forall|j: int|
                    0 <= j < i ==> !(self.claims@[j].claim_id@ == claim_id@
                        && self.claims@[j].drop_id@ == drop_id@),
            decreases n - i,
        {
            if crate::text::str_eq(self.claims[i].claim_id.as_str(), claim_id)
                && crate::text::str_eq(self.claims[i].drop_id.as_str(), drop_id) {
                return true;
            }
            i = i + 1;
        }
        false
    }

    /// Whether a vendor with the identifier exists and is alive.
    pub fn live_vendor_exists(&self, stable_id: &str) -> (r: bool)
        ensures
            r == has_live_vendor(self.vendors@, stable_id@),
    {
        let n = self.vendors.len();
        let mut i: usize = 0;
        while i < n
            invariant
                i <= n,
                n == self.vendors@.len(),
                forall|j: int|
                    0 <= j < i ==> !(self.vendors@[j].stable_id@ == stable_id@
                        && self.vendors@[j].is_alive == 1),
            decreases n - i,
        {
            if self.vendors[i].is_alive == 1 && crate::text::str_eq(
                self.vendors[i].stable_id.as_str(),
                stable_id,
            ) {
                return true;
            }
            i = i + 1;
        }
        false
    }

    /// Registers a vendor: replaces the existing row with the same
    /// identifier, or appends a new one.
    pub fn put_vendor(&mut self, v: Vendor)
        requires
            old(self).wf(),
        ensures
            final(self).wf(),
            final(self).drops@ == old(self).drops@,
            final(self).claims@ == old(self).claims@,
            final(self).vendors@ == if has_vendor(old(self).vendors@, v.stable_id@) {
                old(self).vendors@.update(vendor_index(old(self).vendors@, v.stable_id@), v)
            } else {
                old(self).vendors@.push(v)
            },
            has_live_vendor(final(self).vendors@, v.stable_id@) == (v.is_alive == 1),
    {
        let n = self.vendors.len();
        let mut i: usize = 0;
        while i < n
            invariant
                i <= n,
                n == self.vendors@.len(),
                self.wf(),
                self.drops@ == old(self).drops@,
                self.claims@ == old(self).claims@,
                self.vendors@ == old(self).vendors@,
                forall|j: int| 0 <= j < i ==> self.vendors@[j].stable_id@ != v.stable_id@,
            decreases n - i,
        {
            if crate::text::str_eq(self.vendors[i].stable_id.as_str(), v.stable_id.as_str()) {
                let ghost pre = self.vendors@;
                let ghost vv = v;
                self.vendors[i] = v;
                proof {
                    assert(pre[i as int].stable_id@ == vv.stable_id@);
                    assert(has_vendor(pre, vv.stable_id@));
                    let k = vendor_index(pre, vv.stable_id@);
                    assert(0 <= k < pre.len() && pre[k].stable_id@ == vv.stable_id@);
                    assert(k == i as int);
                    assert forall|p: int, q: int|
                        0 <= p < q < self.vendors@.len() implies self.vendors@[p].stable_id@
                        != self.vendors@[q].stable_id@ by {
                        if p != i as int && q != i as int {
                            assert(self.vendors@[p] == pre[p]);
                            assert(self.vendors@[q] == pre[q]);
                        } else if p == i as int {
                            assert(self.vendors@[q] == pre[q]);
                            assert(pre[q].stable_id@ != pre[i as int].stable_id@);
                        } else {
                            assert(self.vendors@[p] == pre[p]);
                            assert(pre[p].stable_id@ != pre[i as int].stable_id@);
                        }
                    }
                    assert(self.vendors@[i as int].stable_id@ == vv.stable_id@);
                }
                return ;
            }
            i = i + 1;
        }
        let ghost pre = self.vendors@;
        let ghost vv = v;
        self.vendors.push(v);
        proof {
            assert(!has_vendor(pre, vv.stable_id@));
            assert forall|p: int, q: int|
                0 <= p < q < self.vendors@.len() implies self.vendors@[p].stable_id@
                != self.vendors@[q].stable_id@ by {
                if q == pre.len() {
                    assert(self.vendors@[p] == pre[p]);
                } else {
                    assert(self.vendors@[p] == pre[p]);
                    assert(self.vendors@[q] == pre[q]);
                }
            }
            assert(self.vendors@[pre.len() as int].stable_id@ == vv.stable_id@);
        }
    }
    /// The reason a claim attempt must fail, or `None` when it must
    /// succeed. The checks apply in order and the first failure wins: drop
    /// exists, not ended, window open, window not closed, capacity left, no
    /// duplicate claim.
    pub open spec fn spec_claim_error(
        self,
        drop_id: Seq<char>,
        user_id: Seq<char>,
        now: i64,
    ) -> Option<DropError> {
        if !has_drop(self.drops@, drop_id) {
            Some(DropError::NotFound)
        } else {
            let d = self.drops@[drop_index(self.drops@, drop_id)];
            if d.status == DropStatus::Ended || d.status == DropStatus::Purged {
                Some(DropError::AlreadyEnded)
            } else if now < d.start_at {
                Some(DropError::NotStarted)
            } else if now >= d.end_at {
                Some(DropError::Expired)
            } else if d.claimed_count >= d.max_claims {
                Some(DropError::SoldOut)
            } else if has_claim(self.claims@, drop_id, user_id) {
                Some(DropError::AlreadyClaimed)
            } else {
                None
            }
        }
    }

    /// Issues a claim: inserts the claim row and increments the drop's
    /// counter as one step, after re-checking capacity against the current
    /// counter, so concurrent callers serialised on the ledger can never
    /// push `claimed_count` past `max_claims`.
    #[verifier::loop_isolation(false)]
    pub fn claim(
        &mut self,
        drop_id: &str,
        user_id: String,
        device_id_hash: Option<String>,
        claim_id: String,
        now: i64,
    ) -> (r: Result<ClaimGrant, DropError>)
        requires
            old(self).wf(),
        ensures
            final(self).wf(),
            final(self).vendors@ == old(self).vendors@,
            match r {
                Ok(grant) => {
                    let k = drop_index(old(self).drops@, drop_id@);
                    let d = old(self).drops@[k];
                    let c = final(self).claims@.last();
                    &&& old(self).spec_claim_error(drop_id@, user_id@, now) is None
                    &&& final(self).claims@ == old(self).claims@.push(c)
                    &&& c.claim_id == claim_id
                    &&& c.drop_id@ == drop_id@
                    &&& c.user_id == user_id
                    &&& c.device_id_hash == device_id_hash
                    &&& c.claimed_at == now
                    &&& final(self).drops@ == old(self).drops@.update(
                        k,
                        DropRecord {
                            claimed_count: (d.claimed_count + 1) as i64,
                            updated_at: now,
                            ..d
                        },
                    )
                    &&& grant.claim_id == claim_id
                    &&& grant.drop_id@ == drop_id@
                    &&& grant.expires_at == d.end_at
                    &&& grant.audio_sha256 == d.audio_sha256
                    &&& grant.audio_size_bytes == d.audio_size_bytes
                },
                Err(e) => {
                    &&& old(self).spec_claim_error(drop_id@, user_id@, now) == Some(e)
                    &&& final(self).drops@ == old(self).drops@
                    &&& final(self).claims@ == old(self).claims@
                },
            },
            forall|i: int|
                0 <= i < old(self).drops@.len() ==> status_le(
                    (#[trigger] old(self).drops@[i]).status,
                    final(self).drops@[i].status,
                ) && final(self).drops@[i].drop_id@ == old(self).drops@[i].drop_id@,
    {
        let k = match self.find_drop(drop_id) {
            Some(k) => k,
            None => {
                return Err(DropError::NotFound);
            },
        };
        let status = self.drops[k].status;
        if !status.is_live() {
            return Err(DropError::AlreadyEnded);
        }
        if now < self.drops[k].start_at {
            return Err(DropError::NotStarted);
        }
        if now >= self.drops[k].end_at {
            return Err(DropError::Expired);
        }
        if self.drops[k].claimed_count >= self.drops[k].max_claims {
            return Err(DropError::SoldOut);
        }
        if self.claim_exists(drop_id, user_id.as_str()) {
            return Err(DropError::AlreadyClaimed);
        }
        let grant = ClaimGrant {
            claim_id: claim_id.clone(),
            drop_id: self.drops[k].drop_id.clone(),
            expires_at: self.drops[k].end_at,
            audio_sha256: self.drops[k].audio_sha256.clone(),
            audio_size_bytes: self.drops[k].audio_size_bytes,
        };
        let record = ClaimRecord {
            claim_id,
            drop_id: self.drops[k].drop_id.clone(),
            user_id,
            device_id_hash,
            claimed_at: now,
        };
        let ghost pre_claims = self.claims@;
        let ghost pre_drops = self.drops@;
        let ghost c = record;
        self.claims.push(record);
        let mut d = self.drops[k].duplicate();
        d.claimed_count = d.claimed_count + 1;
        d.updated_at = now;
        self.drops[k] = d;
        proof {
            let ghost target = pre_drops[k as int].drop_id@;
            assert forall|i: int|
                0 <= i < self.drops@.len() implies (#[trigger] self.drops@[i]).claimed_count
                == claims_for(self.claims@, self.drops@[i].drop_id@).len() by {
                let pred = |cl: ClaimRecord| cl.drop_id@ == self.drops@[i].drop_id@;
                pre_claims.lemma_filter_push(c, pred);
                if i == k as int {
                    assert(pred(c));
                } else {
                    assert(self.drops@[i] == pre_drops[i]);
                    assert(pre_drops[i].drop_id@ != target);
                    assert(!pred(c));
                }
            }
            assert forall|i: int|
                0 <= i < self.claims@.len() implies has_drop(
                self.drops@,
                (#[trigger] self.claims@[i]).drop_id@,
            ) by {
                if i < pre_claims.len() {
                    assert(self.claims@[i] == pre_claims[i]);
                    let w = choose|w: int|
                        0 <= w < pre_drops.len() && pre_drops[w].drop_id@
                            == pre_claims[i].drop_id@;
                    assert(self.drops@[w].drop_id@ == self.claims@[i].drop_id@);
                } else {
                    assert(self.drops@[k as int].drop_id@ == c.drop_id@);
                }
            }
        }
        Ok(grant)
    }
}

/// What a successful claim hands back: the bearer token and the fields the
/// response carries.
#[derive(Debug)]
pub struct ClaimGrant {
    /// The new claim's identifier; doubles as the download token.
    pub claim_id: String,
    /// The drop claimed.
    pub drop_id: String,
    /// The drop's `end_at`: when the token stops working.
    pub expires_at: i64,
    /// Integrity hash of the audio the token downloads.
    pub audio_sha256: String,
    /// Size of the audio the token downloads.
    pub audio_size_bytes: i64,
}

} // verus!
