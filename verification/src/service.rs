//! Claim issuance and download validation at the subsystem level.

use vstd::prelude::*;

use crate::content_store::{store_bytes_at, store_has_key, BlobEntry};
use crate::errors::DropError;
use crate::ledger::{drop_index, has_claim_token, has_drop, ClaimGrant};
use crate::records::DropRecord;
use crate::status::{status_le, DropStatus};
use crate::system::{spec_backed, DropSystem};
use crate::text::spec_attachment_disposition;

verus! {

/// Being backed only reads a drop's identity fields — identifier, keys,
/// hash, size — so any row change that keeps them keeps it.
pub proof fn lemma_backed_same_identity(entries: Seq<BlobEntry>, d1: DropRecord, d2: DropRecord)
    requires
        spec_backed(entries, d1),
        d2.drop_id@ == d1.drop_id@,
        d2.audio_object_key@ == d1.audio_object_key@,
        d2.audio_sha256@ == d1.audio_sha256@,
        d2.audio_size_bytes == d1.audio_size_bytes,
        d2.cover_object_key == d1.cover_object_key,
    ensures
        spec_backed(entries, d2),
{
}

/// What a validated download streams back.
#[derive(Debug)]
pub struct DownloadContent {
    /// The stored audio bytes.
    pub bytes: Vec<u8>,
    /// The MIME type recorded for them.
    pub mime: String,
    /// The content-disposition value naming the file after the drop title.
    pub disposition: String,
}

/// Copies a byte vector.
pub fn copy_bytes(v: &Vec<u8>) -> (r: Vec<u8>)
    ensures
        r@ == v@,
{
    let n = v.len();
    let mut r: Vec<u8> = Vec::new();
    let mut i: usize = 0;
    while i < n
        invariant
            i <= n,
            n == v@.len(),
            r@ == v@.take(i as int),
        decreases n - i,
    {
        r.push(v[i]);
        proof {
            assert(v@.take(i as int + 1) =~= v@.take(i as int).push(v@[i as int]));
        }
        i = i + 1;
    }
    proof {
        assert(v@.take(n as int) =~= v@);
    }
    r
}

impl DropSystem {
    /// Issues a claim under the given claim identifier. Everything the
    /// ledger guarantees carries over; the store is untouched.
    pub fn claim(
        &mut self,
        drop_id: &str,
        user_id: String,
        device_id_hash: Option<String>,
        claim_id: String,
        now: i64,
    ) -> (r: Result<ClaimGrant, DropError>)
        requires
            old(self).wf(),
        ensures
            final(self).wf(),
            final(self).ledger.vendors@ == old(self).ledger.vendors@,
            final(self).store == old(self).store,
            match r {
                Ok(grant) => {
                    let k = drop_index(old(self).ledger.drops@, drop_id@);
                    let d = old(self).ledger.drops@[k];
                    let c = final(self).ledger.claims@.last();
                    &&& old(self).ledger.spec_claim_error(drop_id@, user_id@, now) is None
                    &&& final(self).ledger.claims@ == old(self).ledger.claims@.push(c)
                    &&& c.claim_id == claim_id
                    &&& c.drop_id@ == drop_id@
                    &&& c.user_id == user_id
                    &&& c.device_id_hash == device_id_hash
                    &&& c.claimed_at == now
                    &&& final(self).ledger.drops@ == old(self).ledger.drops@.update(
                        k,
                        DropRecord {
                            claimed_count: (d.claimed_count + 1) as i64,
                            updated_at: now,
                            ..d
                        },
                    )
                    &&& grant.claim_id == claim_id
                    &&& grant.drop_id@ == drop_id@
                    &&& grant.expires_at == d.end_at
                    &&& grant.audio_sha256 == d.audio_sha256
                    &&& grant.audio_size_bytes == d.audio_size_bytes
                },
                Err(e) => {
                    &&& old(self).ledger.spec_claim_error(drop_id@, user_id@, now) == Some(e)
                    &&& final(self).ledger.drops@ == old(self).ledger.drops@
                    &&& final(self).ledger.claims@ == old(self).ledger.claims@
                },
            },
            forall|i: int|
                0 <= i < old(self).ledger.drops@.len() ==> status_le(
                    (#[trigger] old(self).ledger.drops@[i]).status,
                    final(self).ledger.drops@[i].status,
                ) && final(self).ledger.drops@[i].drop_id@ == old(self).ledger.drops@[i].drop_id@,
    {
        let ghost pre = *self;
        let r = self.ledger.claim(drop_id, user_id, device_id_hash, claim_id, now);
        proof {
            assert forall|i: int|
                0 <= i < self.ledger.drops@.len() && (#[trigger] self.ledger.drops@[i]).status
                    != DropStatus::Purged implies spec_backed(
                self.store.entries@,
                self.ledger.drops@[i],
            ) by {
                if self.ledger.drops@[i] != pre.ledger.drops@[i] {
                    lemma_backed_same_identity(
                        self.store.entries@,
                        pre.ledger.drops@[i],
                        self.ledger.drops@[i],
                    );
                }
            }
        }
        r
    }

    /// Issues a claim under a freshly generated claim identifier, as the
    /// public claim endpoint does. The identifier is random, so the
    /// contract holds whatever value came back.
    pub fn claim_new(
        &mut self,
        drop_id: &str,
        user_id: String,
        device_id_hash: Option<String>,
        now: i64,
    ) -> (r: Result<ClaimGrant, DropError>)
        requires
            old(self).wf(),
        ensures
            final(self).wf(),
            final(self).ledger.vendors@ == old(self).ledger.vendors@,
            final(self).store == old(self).store,
            match r {
                Ok(grant) => {
                    let k = drop_index(old(self).ledger.drops@, drop_id@);
                    let d = old(self).ledger.drops@[k];
                    let c = final(self).ledger.claims@.last();
                    &&& old(self).ledger.spec_claim_error(drop_id@, user_id@, now) is None
                    &&& final(self).ledger.claims@ == old(self).ledger.claims@.push(c)
                    &&& c.claim_id == grant.claim_id
                    &&& c.claim_id@.len() == 36
                    &&& c.drop_id@ == drop_id@
                    &&& c.user_id == user_id
                    &&& c.device_id_hash == device_id_hash
                    &&& c.claimed_at == now
                    &&& final(self).ledger.drops@ == old(self).ledger.drops@.update(
                        k,
                        DropRecord {
                            claimed_count: (d.claimed_count + 1) as i64,
                            updated_at: now,
                            ..d
                        },
                    )
                    &&& grant.drop_id@ == drop_id@
                    &&& grant.expires_at == d.end_at
                    &&& grant.audio_sha256 == d.audio_sha256
                    &&& grant.audio_size_bytes == d.audio_size_bytes
                },
                Err(e) => {
                    &&& old(self).ledger.spec_claim_error(drop_id@, user_id@, now) == Some(e)
                    &&& final(self).ledger.drops@ == old(self).ledger.drops@
                    &&& final(self).ledger.claims@ == old(self).ledger.claims@
                },
            },
            forall|i: int|
                0 <= i < old(self).ledger.drops@.len() ==> status_le(
                    (#[trigger] old(self).ledger.drops@[i]).status,
                    final(self).ledger.drops@[i].status,
                ) && final(self).ledger.drops@[i].drop_id@ == old(self).ledger.drops@[i].drop_id@,
    {
        let claim_id = crate::ids::new_claim_id();
        self.claim(drop_id, user_id, device_id_hash, claim_id, now)
    }

    /// The reason a download must be rejected, or `None` when it must
    /// succeed: a token must be presented, it must belong to a claim on
    /// this very drop, the window must not have closed, and the blob must
    /// still be stored.
    pub open spec fn spec_download_error(
        self,
        drop_id: Seq<char>,
        token: Option<Seq<char>>,
        now: i64,
    ) -> Option<DropError> {
        match token {
            None => Some(DropError::TokenRequired),
            Some(t) => {
                if !has_claim_token(self.ledger.claims@, t, drop_id) {
                    Some(DropError::InvalidToken)
                } else if !has_drop(self.ledger.drops@, drop_id) {
                    Some(DropError::NotFound)
                } else {
                    let d = self.ledger.drops@[drop_index(self.ledger.drops@, drop_id)];
                    if now >= d.end_at {
                        Some(DropError::Expired)
                    } else if !store_has_key(self.store.entries@, d.audio_object_key@) {
                        Some(DropError::BlobMissing)
                    } else {
                        None
                    }
                }
            },
        }
    }

    /// Validates a download token and hands back the stored bytes with
    /// their MIME type and an attachment disposition named after the drop
    /// title. Possession of a matching claim identifier is the only
    /// entitlement check; the drop's status is not consulted, only its
    /// window — claims already granted stay honourable until `end_at`.
    pub fn download(&self, drop_id: &str, token: Option<&String>, now: i64) -> (r: Result<
        DownloadContent,
        DropError,
    >)
        requires
            self.wf(),
        ensures
            ({
                let tv = match token {
                    Some(t) => Some(t@),
                    None => None::<Seq<char>>,
                };
                match r {
                    Ok(content) => {
                        let d = self.ledger.drops@[drop_index(self.ledger.drops@, drop_id@)];
                        &&& self.spec_download_error(drop_id@, tv, now) is None
                        &&& content.bytes@ == store_bytes_at(
                            self.store.entries@,
                            d.audio_object_key@,
                        )
                        &&& content.mime == d.audio_mime
                        &&& content.disposition@ == spec_attachment_disposition(d.title@)
                    },
                    Err(e) => self.spec_download_error(drop_id@, tv, now) == Some(e),
                }
            }),
    {
        let token = match token {
            Some(t) => t,
            None => {
                return Err(DropError::TokenRequired);
            },
        };
        if !self.ledger.claim_token_exists(token.as_str(), drop_id) {
            return Err(DropError::InvalidToken);
        }
        let k = match self.ledger.find_drop(drop_id) {
            Some(k) => k,
            None => {
                return Err(DropError::NotFound);
            },
        };
        if now >= self.ledger.drops[k].end_at {
            return Err(DropError::Expired);
        }
        let bytes = match self.store.read(self.ledger.drops[k].audio_object_key.as_str()) {
            Some(b) => copy_bytes(b),
            None => {
                return Err(DropError::BlobMissing);
            },
        };
        Ok(
            DownloadContent {
                bytes,
                mime: self.ledger.drops[k].audio_mime.clone(),
                disposition: crate::text::attachment_disposition(
                    self.ledger.drops[k].title.as_str(),
                ),
            },
        )
    }
}

} // verus!
