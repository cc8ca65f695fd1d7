//! The laws of the drop subsystem, stated on their own and proved from the
//! invariants and contracts: counter bounds, claim uniqueness, the
//! one-winner property at the last slot, expiry idempotence, and audio
//! hash integrity.

use vstd::prelude::*;

use crate::content_store::{store_bytes_at, store_has_key, store_key_index};
use crate::errors::DropError;
use crate::hashing::sha256_hex_of;
use crate::ledger::{drop_index, has_drop, DropLedger};
use crate::records::{ClaimRecord, DropRecord};
use crate::status::DropStatus;
use crate::sweeps::{spec_expire, spec_expire_one};
use crate::system::{spec_backed, DropSystem};

verus! {

/// For every drop, at all times, `0 <= claimed_count <= max_claims`: the
/// capacity limit can never be overshot, however the ledger was driven.
pub proof fn lemma_claim_counter_bounded(l: DropLedger, i: int)
    requires
        l.wf(),
        0 <= i < l.drops@.len(),
    ensures
        0 <= l.drops@[i].claimed_count <= l.drops@[i].max_claims,
{
}

/// A drop's counter counts its claims exactly: `claimed_count` equals the
/// number of claim rows recorded against the drop, so the claim row and
/// the counter increment can never drift apart.
pub proof fn lemma_counter_counts_claims(l: DropLedger, i: int)
    requires
        l.wf(),
        0 <= i < l.drops@.len(),
    ensures
        l.drops@[i].claimed_count == crate::ledger::claims_for(
            l.claims@,
            l.drops@[i].drop_id@,
        ).len(),
{
}

/// For every `(drop_id, user_id)` pair, at most one claim exists: two
/// claims on the same drop by the same user are the same row.
pub proof fn lemma_claim_unique(l: DropLedger, i: int, j: int)
    requires
        l.wf(),
        0 <= i < l.claims@.len(),
        0 <= j < l.claims@.len(),
        l.claims@[i].drop_id@ == l.claims@[j].drop_id@,
        l.claims@[i].user_id@ == l.claims@[j].user_id@,
    ensures
        i == j,
{
}

/// Concurrent claims racing for the last slot have exactly one winner.
/// Claims are serialised on the ledger, so of N attempts one runs first;
/// when it succeeds with exactly one slot remaining, every later attempt —
/// by any user — is told the drop is sold out.
pub proof fn lemma_one_winner_at_last_slot(
    pre: DropLedger,
    post: DropLedger,
    drop_id: Seq<char>,
    winner: Seq<char>,
    other: Seq<char>,
    c: ClaimRecord,
    now: i64,
)
    requires
        pre.wf(),
        pre.spec_claim_error(drop_id, winner, now) is None,
        ({
            let d = pre.drops@[drop_index(pre.drops@, drop_id)];
            d.claimed_count == d.max_claims - 1
        }),
        ({
            let k = drop_index(pre.drops@, drop_id);
            let d = pre.drops@[k];
            post.drops@ == pre.drops@.update(
                k,
                DropRecord { claimed_count: (d.claimed_count + 1) as i64, updated_at: now, ..d },
            )
        }),
        post.claims@ == pre.claims@.push(c),
    ensures
        post.spec_claim_error(drop_id, other, now) == Some(DropError::SoldOut),
{
    let k = drop_index(pre.drops@, drop_id);
    assert(0 <= k < pre.drops@.len() && pre.drops@[k].drop_id@ == drop_id);
    assert(post.drops@[k].drop_id@ == drop_id);
    assert(has_drop(post.drops@, drop_id));
    let k2 = drop_index(post.drops@, drop_id);
    assert(0 <= k2 < post.drops@.len() && post.drops@[k2].drop_id@ == drop_id);
    if k2 != k {
        assert(pre.drops@[k2].drop_id@ == post.drops@[k2].drop_id@);
        assert(pre.drops@[k2].drop_id@ != pre.drops@[k].drop_id@);
        assert(false);
    }
    let d2 = post.drops@[k];
    assert(d2.claimed_count >= d2.max_claims);
}

/// Status transitions are monotonic and never re-activate: every mutating
/// operation promises `status_le` between a drop's old and new status, and
/// under that order a drop that has reached `Ended` can only stay `Ended`
/// or move to `Purged`, while `Purged` is terminal.
pub proof fn lemma_no_reactivation(a: DropStatus, b: DropStatus)
    requires
        crate::status::status_le(a, b),
    ensures
        a == DropStatus::Ended ==> b == DropStatus::Ended || b == DropStatus::Purged,
        a == DropStatus::Purged ==> b == DropStatus::Purged,
{
}

/// Running the expiry sweep twice in succession leaves exactly what one
/// run leaves: a drop ended by the first pass is no longer due, and its
/// `ended_at` stamp is never overwritten.
pub proof fn lemma_expire_idempotent(drops: Seq<DropRecord>, now: i64)
    ensures
        spec_expire(spec_expire(drops, now), now) == spec_expire(drops, now),
{
    let once = spec_expire(drops, now);
    assert forall|i: int| 0 <= i < once.len() implies spec_expire_one(#[trigger] once[i], now)
        == once[i] by {
        assert(once[i] == spec_expire_one(drops[i], now));
    }
    assert(spec_expire(once, now) =~= once);
}

/// For every non-purged drop, the stored audio bytes hash to the drop's
/// recorded `audio_sha256` (and their length to its size): the blob under
/// the drop's audio key is exactly what was hashed at creation.
pub proof fn lemma_audio_hash_integrity(sys: DropSystem, i: int)
    requires
        sys.wf(),
        0 <= i < sys.ledger.drops@.len(),
        sys.ledger.drops@[i].status != DropStatus::Purged,
    ensures
        store_has_key(sys.store.entries@, sys.ledger.drops@[i].audio_object_key@),
        sha256_hex_of(
            store_bytes_at(sys.store.entries@, sys.ledger.drops@[i].audio_object_key@),
        ) == sys.ledger.drops@[i].audio_sha256@,
        store_bytes_at(sys.store.entries@, sys.ledger.drops@[i].audio_object_key@).len()
            == sys.ledger.drops@[i].audio_size_bytes,
{
    let d = sys.ledger.drops@[i];
    let entries = sys.store.entries@;
    assert(spec_backed(entries, d));
    let w = choose|e: int|
        0 <= e < entries.len() && (#[trigger] entries[e]).drop_id@ == d.drop_id@ && entries[e].key@
            == d.audio_object_key@ && sha256_hex_of(entries[e].bytes@) == d.audio_sha256@
            && entries[e].bytes@.len() == d.audio_size_bytes;
    assert(store_has_key(entries, d.audio_object_key@));
    let x = store_key_index(entries, d.audio_object_key@);
    assert(0 <= x < entries.len() && entries[x].key@ == d.audio_object_key@);
    if x != w {
        assert(entries[x].key@ != entries[w].key@);
        assert(false);
    }
}

} // verus!
