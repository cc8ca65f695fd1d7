//! The drop subsystem as a whole: the ledger plus the content store, tied
//! together by an integrity invariant — every non-purged drop's audio
//! blob is present and its stored SHA-256 matches `audio_sha256`.

use vstd::prelude::*;

use crate::content_store::{store_bytes_at, store_has_key, BlobEntry, ContentStore};
use crate::errors::DropError;
use crate::hashing::sha256_hex_of;
use crate::ledger::{has_drop, has_live_vendor, DropLedger};
use crate::models::Vendor;
use crate::records::DropRecord;
use crate::status::{spec_initial_status, DropStatus};
use crate::text::{spec_audio_key, spec_cover_key, spec_extension, spec_mime_for};

verus! {

/// A drop's blobs are backed by the store: an entry owned by the drop
/// holds its audio bytes under its audio key with the recorded hash and
/// size, and its cover key is present when one was stored.
pub open spec fn spec_backed(entries: Seq<BlobEntry>, d: DropRecord) -> bool {
    &&& exists|e: int|
        0 <= e < entries.len() && (#[trigger] entries[e]).drop_id@ == d.drop_id@ && entries[e].key@
            == d.audio_object_key@ && sha256_hex_of(entries[e].bytes@) == d.audio_sha256@
            && entries[e].bytes@.len() == d.audio_size_bytes
    &&& match d.cover_object_key {
        Some(k) => exists|e: int|
            0 <= e < entries.len() && (#[trigger] entries[e]).drop_id@ == d.drop_id@
                && entries[e].key@ == k@,
        None => true,
    }
}

/// Being backed depends only on the entries and the drop's identity
/// fields, so it survives appending further entries.
pub proof fn lemma_backed_push(entries: Seq<BlobEntry>, x: BlobEntry, d: DropRecord)
    requires
        spec_backed(entries, d),
    ensures
        spec_backed(entries.push(x), d),
{
    let e = choose|e: int|
        0 <= e < entries.len() && (#[trigger] entries[e]).drop_id@ == d.drop_id@ && entries[e].key@
            == d.audio_object_key@ && sha256_hex_of(entries[e].bytes@) == d.audio_sha256@
            && entries[e].bytes@.len() == d.audio_size_bytes;
    assert(entries.push(x)[e] == entries[e]);
    match d.cover_object_key {
        Some(k) => {
            let c = choose|c: int|
                0 <= c < entries.len() && (#[trigger] entries[c]).drop_id@ == d.drop_id@
                    && entries[c].key@ == k@;
            assert(entries.push(x)[c] == entries[c]);
        },
        None => {},
    }
}

/// What a drop-creation submission carries once the transport has read it:
/// the form fields, each still optional, and the uploaded files.
pub struct DropSubmission {
    /// The owning vendor; required.
    pub vendor_stable_id: Option<String>,
    /// The associated artist account, when given.
    pub artist_stable_id: Option<String>,
    /// Display name of the artist; required.
    pub artist_name: Option<String>,
    /// Title of the drop; required.
    pub title: Option<String>,
    /// Optional free-form description.
    pub description: Option<String>,
    /// When the claim window opens; defaults to the creation instant.
    pub start_at: Option<i64>,
    /// When the claim window closes; required.
    pub end_at: Option<i64>,
    /// Capacity; required, at least 1.
    pub max_claims: Option<i64>,
    /// Deployment environment tag.
    pub env: String,
    /// The audio bytes; required.
    pub audio: Option<Vec<u8>>,
    /// Original filename of the audio upload, when the transport had one.
    pub audio_filename: Option<String>,
    /// Declared MIME type of the audio upload, when the transport had one.
    pub audio_mime: Option<String>,
    /// The cover bytes, when a cover was uploaded.
    pub cover: Option<Vec<u8>>,
    /// Original filename of the cover upload.
    pub cover_filename: Option<String>,
}

/// The audio extension a submission implies: taken from the uploaded
/// filename, `mp3` when none was given.
pub open spec fn spec_sub_audio_ext(sub: DropSubmission) -> Seq<char> {
    match sub.audio_filename {
        Some(f) => spec_extension(f@),
        None => "mp3"@,
    }
}

/// The cover extension a submission implies: taken from the uploaded
/// filename, `jpg` when none was given.
pub open spec fn spec_sub_cover_ext(sub: DropSubmission) -> Seq<char> {
    match sub.cover_filename {
        Some(f) => spec_extension(f@),
        None => "jpg"@,
    }
}

/// The whole drop subsystem: rows and blobs.
pub struct DropSystem {
    /// Drop rows, claim rows and the vendor table.
    pub ledger: DropLedger,
    /// The blob store.
    pub store: ContentStore,
}

impl DropSystem {
    /// Well-formedness: both halves are well-formed, and every non-purged
    /// drop is backed by its blobs — in particular the stored audio bytes
    /// hash to the drop's `audio_sha256`.
    pub open spec fn wf(self) -> bool {
        &&& self.ledger.wf()
        &&& self.store.wf()
        &&& forall|i: int|
            0 <= i < self.ledger.drops@.len() && (#[trigger] self.ledger.drops@[i]).status
                != DropStatus::Purged ==> spec_backed(self.store.entries@, self.ledger.drops@[i])
    }

    /// An empty subsystem.
    pub fn new() -> (r: DropSystem)
        ensures
            r.wf(),
            r.ledger.drops@.len() == 0,
            r.ledger.claims@.len() == 0,
            r.ledger.vendors@.len() == 0,
            r.store.entries@.len() == 0,
    {
        DropSystem { ledger: DropLedger::new(), store: ContentStore::new() }
    }

    /// Registers a vendor: replaces the existing row with the same
    /// identifier, or appends a new one.
    pub fn put_vendor(&mut self, v: Vendor)
        requires
            old(self).wf(),
        ensures
            final(self).wf(),
            final(self).ledger.drops@ == old(self).ledger.drops@,
            final(self).ledger.claims@ == old(self).ledger.claims@,
            final(self).store == old(self).store,
            final(self).ledger.vendors@ == if crate::ledger::has_vendor(
                old(self).ledger.vendors@,
                v.stable_id@,
            ) {
                old(self).ledger.vendors@.update(
                    crate::ledger::vendor_index(old(self).ledger.vendors@, v.stable_id@),
                    v,
                )
            } else {
                old(self).ledger.vendors@.push(v)
            },
            has_live_vendor(final(self).ledger.vendors@, v.stable_id@) == (v.is_alive == 1),
    {
        self.ledger.put_vendor(v);
    }

    /// The reason a creation submission must be rejected, or `None` when it
    /// must succeed. Field checks come first, in submission order; then the
    /// vendor must exist and be alive; last, the chosen identifier and the
    /// derived storage keys must be free (a clash is a persistence fault,
    /// as a primary-key violation would be).
    pub open spec fn spec_create_error(
        self,
        sub: DropSubmission,
        drop_id: Seq<char>,
    ) -> Option<DropError> {
        if sub.vendor_stable_id is None {
            Some(DropError::MissingVendor)
        } else if sub.artist_name is None {
            Some(DropError::MissingArtistName)
        } else if sub.title is None {
            Some(DropError::MissingTitle)
        } else if sub.end_at is None {
            Some(DropError::MissingEndAt)
        } else if sub.max_claims is None {
            Some(DropError::MissingMaxClaims)
        } else if sub.max_claims->0 < 1 {
            Some(DropError::InvalidMaxClaims)
        } else if sub.audio is None {
            Some(DropError::MissingAudio)
        } else if !has_live_vendor(self.ledger.vendors@, sub.vendor_stable_id->0@) {
            Some(DropError::VendorNotFound)
        } else if has_drop(self.ledger.drops@, drop_id) || store_has_key(
            self.store.entries@,
            spec_audio_key(drop_id, spec_sub_audio_ext(sub)),
        ) || (sub.cover is Some && store_has_key(
            self.store.entries@,
            spec_cover_key(drop_id, spec_sub_cover_ext(sub)),
        )) {
            Some(DropError::DropIdTaken)
        } else {
            None
        }
    }

    /// What a successful creation did: the new row `d` was appended, its
    /// fields computed from the submission and the clock, and its blobs —
    /// audio, then the cover when one was uploaded — appended to the
    /// store.
    pub open spec fn spec_created_ok(
        pre: DropSystem,
        post: DropSystem,
        sub: DropSubmission,
        d: DropRecord,
        now: i64,
    ) -> bool {
        &&& pre.spec_create_error(sub, d.drop_id@) is None
        &&& post.ledger.drops@ == pre.ledger.drops@.push(d)
        &&& d.vendor_stable_id == sub.vendor_stable_id->0
        &&& d.artist_stable_id == sub.artist_stable_id
        &&& d.artist_name == sub.artist_name->0
        &&& d.title == sub.title->0
        &&& d.description == sub.description
        &&& d.audio_object_key@ == spec_audio_key(d.drop_id@, spec_sub_audio_ext(sub))
        &&& (match sub.cover {
            Some(_) => d.cover_object_key is Some && d.cover_object_key->0@ == spec_cover_key(
                d.drop_id@,
                spec_sub_cover_ext(sub),
            ),
            None => d.cover_object_key is None,
        })
        &&& (match sub.audio_mime {
            Some(m) => d.audio_mime == m,
            None => d.audio_mime@ == spec_mime_for(spec_sub_audio_ext(sub)),
        })
        &&& d.audio_size_bytes == sub.audio->0@.len()
        &&& d.audio_sha256@ == sha256_hex_of(sub.audio->0@)
        &&& d.start_at == (if sub.start_at is Some {
            sub.start_at->0
        } else {
            now
        })
        &&& d.end_at == sub.end_at->0
        &&& d.max_claims == sub.max_claims->0
        &&& d.claimed_count == 0
        &&& d.status == spec_initial_status(now, d.start_at)
        &&& d.env == sub.env
        &&& d.created_at == now
        &&& d.updated_at == now
        &&& d.ended_at is None
        &&& d.purged_at is None
        &&& (match sub.cover {
            Some(_) => {
                let a = post.store.entries@[pre.store.entries@.len() as int];
                let c = post.store.entries@[pre.store.entries@.len() as int + 1];
                &&& post.store.entries@ == pre.store.entries@.push(a).push(c)
                &&& a.drop_id@ == d.drop_id@
                &&& a.key == d.audio_object_key
                &&& a.bytes == sub.audio->0
                &&& c.drop_id@ == d.drop_id@
                &&& c.key == d.cover_object_key->0
                &&& c.bytes == sub.cover->0
            },
            None => {
                let a = post.store.entries@[pre.store.entries@.len() as int];
                &&& post.store.entries@ == pre.store.entries@.push(a)
                &&& a.drop_id@ == d.drop_id@
                &&& a.key == d.audio_object_key
                &&& a.bytes == sub.audio->0
            },
        })
    }

    /// Creates a drop under the given identifier: validates the
    /// submission, stores the blobs, and appends the row — with
    /// `claimed_count` 0, the SHA-256 of the audio bytes recorded, and
    /// status `Active` or `Scheduled` by the clock. Returns a copy of the
    /// new row. On any error nothing changes.
    #[verifier::loop_isolation(false)]
    pub fn create_drop(&mut self, sub: DropSubmission, drop_id: String, now: i64) -> (r: Result<
        DropRecord,
        DropError,
    >)
        requires
            old(self).wf(),
            sub.audio is Some ==> sub.audio->0@.len() <= 0x7fff_ffff_ffff_ffff,
        ensures
            final(self).wf(),
            final(self).ledger.claims@ == old(self).ledger.claims@,
            final(self).ledger.vendors@ == old(self).ledger.vendors@,
            match r {
                Ok(d) => {
                    &&& d.drop_id == drop_id
                    &&& DropSystem::spec_created_ok(*old(self), *final(self), sub, d, now)
                },
                Err(e) => {
                    &&& old(self).spec_create_error(sub, drop_id@) == Some(e)
                    &&& final(self).ledger.drops@ == old(self).ledger.drops@
                    &&& final(self).store.entries@ == old(self).store.entries@
                },
            },
    {
        let DropSubmission {
            vendor_stable_id,
            artist_stable_id,
            artist_name,
            title,
            description,
            start_at,
            end_at,
            max_claims,
            env,
            audio,
            audio_filename,
            audio_mime,
            cover,
            cover_filename,
        } = sub;
        let vendor_stable_id = match vendor_stable_id {
            Some(v) => v,
            None => {
                return Err(DropError::MissingVendor);
            },
        };
        let artist_name = match artist_name {
            Some(v) => v,
            None => {
                return Err(DropError::MissingArtistName);
            },
        };
        let title = match title {
            Some(v) => v,
            None => {
                return Err(DropError::MissingTitle);
            },
        };
        let end_at = match end_at {
            Some(v) => v,
            None => {
                return Err(DropError::MissingEndAt);
            },
        };
        let max_claims = match max_claims {
            Some(v) => v,
            None => {
                return Err(DropError::MissingMaxClaims);
            },
        };
        if max_claims < 1 {
            return Err(DropError::InvalidMaxClaims);
        }
        let audio = match audio {
            Some(v) => v,
            None => {
                return Err(DropError::MissingAudio);
            },
        };
        if !self.ledger.live_vendor_exists(vendor_stable_id.as_str()) {
            return Err(DropError::VendorNotFound);
        }
        let audio_ext: String = match &audio_filename {
            Some(f) => crate::text::extension_of(f.as_str()).to_owned(),
            None => "mp3".to_owned(),
        };
        let audio_object_key = crate::text::audio_key(drop_id.as_str(), audio_ext.as_str());
        let cover_object_key: Option<String> = match &cover {
            Some(_) => {
                let cover_ext: String = match &cover_filename {
                    Some(f) => crate::text::extension_of(f.as_str()).to_owned(),
                    None => "jpg".to_owned(),
                };
                Some(crate::text::cover_key(drop_id.as_str(), cover_ext.as_str()))
            },
            None => None,
        };
        let id_taken = match self.ledger.find_drop(drop_id.as_str()) {
            Some(_) => true,
            None => false,
        };
        let key_taken = self.store.has_key(audio_object_key.as_str());
        let cover_taken = match &cover_object_key {
            Some(k) => self.store.has_key(k.as_str()),
            None => false,
        };
        if id_taken || key_taken || cover_taken {
            return Err(DropError::DropIdTaken);
        }
        let audio_mime: String = match audio_mime {
            Some(m) => m,
            None => crate::text::mime_for_extension(audio_ext.as_str()),
        };
        let audio_sha256 = crate::hashing::compute_sha256(audio.as_slice());
        let audio_size_bytes = audio.len() as i64;
        let start_at = match start_at {
            Some(v) => v,
            None => now,
        };
        let status = crate::status::initial_status(now, start_at);
        let record = DropRecord {
            drop_id: drop_id.clone(),
            vendor_stable_id,
            artist_stable_id,
            artist_name,
            title,
            description,
            cover_object_key: crate::records::clone_opt_string(&cover_object_key),
            audio_object_key: audio_object_key.clone(),
            audio_mime,
            audio_size_bytes,
            audio_sha256,
            start_at,
            end_at,
            max_claims,
            claimed_count: 0,
            status,
            env,
            created_at: now,
            updated_at: now,
            ended_at: None,
            purged_at: None,
        };
        let out = record.duplicate();
        let ghost pre = *self;
        let ghost rec = record;
        // Store the blobs first, then append the row: one atomic step to
        // every caller, since nothing is observable in between.
        let ghost audio_bytes = audio@;
        self.store.put(drop_id.clone(), audio_object_key, audio);
        match cover {
            Some(cover_bytes) => {
                let k = match cover_object_key {
                    Some(k) => k,
                    // A cover key was derived above exactly when cover
                    // bytes exist, so this arm is proved unreachable.
                    None => {
                        proof {
                            assert(false);
                        }
                        String::new()
                    },
                };
                proof {
                    reveal_strlit("/audio.");
                    reveal_strlit("/cover.");
                    let idv = rec.drop_id@;
                    assert(rec.audio_object_key@ == (idv + "/audio."@) + spec_sub_audio_ext(sub));
                    assert(k@ == (idv + "/cover."@) + spec_sub_cover_ext(sub));
                    assert(rec.audio_object_key@[idv.len() as int + 1] == 'a');
                    assert(k@[idv.len() as int + 1] == 'c');
                    assert(k@ != rec.audio_object_key@);
                    assert(self.store.entries@.last().key@ == rec.audio_object_key@);
                    assert forall|e: int|
                        0 <= e < self.store.entries@.len() implies self.store.entries@[e].key@
                        != k@ by {
                        if e < pre.store.entries@.len() {
                            assert(self.store.entries@[e] == pre.store.entries@[e]);
                        }
                    }
                }
                self.store.put(drop_id, k, cover_bytes);
            },
            None => {},
        }
        let ghost mid_store = self.store;
        self.ledger.drops.push(record);
        proof {
            let preds = pre.ledger.drops@;
            let news = self.ledger.drops@;
            assert forall|p: int, q: int|
                0 <= p < q < news.len() implies news[p].drop_id@ != news[q].drop_id@ by {
                if q == preds.len() {
                    assert(news[p] == preds[p]);
                } else {
                    assert(news[p] == preds[p]);
                    assert(news[q] == preds[q]);
                }
            }
            assert forall|i: int| 0 <= i < news.len() implies (#[trigger] news[i]).inv() by {
                if i < preds.len() {
                    assert(news[i] == preds[i]);
                }
            }
            assert forall|i: int|
                0 <= i < self.ledger.claims@.len() implies has_drop(
                news,
                (#[trigger] self.ledger.claims@[i]).drop_id@,
            ) by {
                let w = choose|w: int|
                    0 <= w < preds.len() && preds[w].drop_id@ == pre.ledger.claims@[i].drop_id@;
                assert(news[w].drop_id@ == self.ledger.claims@[i].drop_id@);
            }
            assert forall|i: int|
                0 <= i < self.ledger.claims@.len() implies (#[trigger] self.ledger.claims@[i]).drop_id@
                != rec.drop_id@ by {
                if self.ledger.claims@[i].drop_id@ == rec.drop_id@ {
                    assert(has_drop(preds, self.ledger.claims@[i].drop_id@));
                    let w = choose|w: int|
                        0 <= w < preds.len() && preds[w].drop_id@ == pre.ledger.claims@[i].drop_id@;
                    assert(preds[w].drop_id@ == rec.drop_id@);
                }
            }
            let count_pred = |cl: crate::records::ClaimRecord| cl.drop_id@ == rec.drop_id@;
            self.ledger.claims@.lemma_all_neg_filter_empty(count_pred);
            assert forall|i: int|
                0 <= i < news.len() implies (#[trigger] news[i]).claimed_count
                == crate::ledger::claims_for(self.ledger.claims@, news[i].drop_id@).len() by {
                if i < preds.len() {
                    assert(news[i] == preds[i]);
                }
            }
            assert forall|i: int|
                0 <= i < news.len() && (#[trigger] news[i]).status != DropStatus::Purged
                implies spec_backed(self.store.entries@, news[i]) by {
                if i < preds.len() {
                    assert(news[i] == preds[i]);
                    assert(spec_backed(pre.store.entries@, preds[i]));
                    match rec.cover_object_key {
                        Some(_) => {
                            lemma_backed_push(
                                pre.store.entries@,
                                mid_store.entries@[pre.store.entries@.len() as int],
                                preds[i],
                            );
                            lemma_backed_push(
                                pre.store.entries@.push(
                                    mid_store.entries@[pre.store.entries@.len() as int],
                                ),
                                mid_store.entries@[pre.store.entries@.len() as int + 1],
                                preds[i],
                            );
                        },
                        None => {
                            lemma_backed_push(
                                pre.store.entries@,
                                mid_store.entries@[pre.store.entries@.len() as int],
                                preds[i],
                            );
                        },
                    }
                } else {
                    assert(news[i] == rec);
                    let a = pre.store.entries@.len() as int;
                    let ae = self.store.entries@[a];
                    assert(ae.drop_id@ == rec.drop_id@);
                    assert(ae.key@ == rec.audio_object_key@);
                    assert(ae.bytes@ == audio_bytes);
                    assert(sha256_hex_of(ae.bytes@) == rec.audio_sha256@);
                    assert(ae.bytes@.len() == rec.audio_size_bytes);
                    match rec.cover_object_key {
                        Some(ck) => {
                            let ce = self.store.entries@[a + 1];
                            assert(ce.drop_id@ == rec.drop_id@);
                            assert(ce.key@ == ck@);
                        },
                        None => {},
                    }
                }
            }
        }
        Ok(out)
    }

    /// Creates a drop under a freshly generated identifier, as the public
    /// creation endpoint does. The identifier is random, so the contract
    /// holds whatever value came back: on success the new row carries it,
    /// and a clash with an existing identifier surfaces as the same
    /// persistence fault a primary-key violation would.
    pub fn create_drop_new(&mut self, sub: DropSubmission, now: i64) -> (r: Result<
        DropRecord,
        DropError,
    >)
        requires
            old(self).wf(),
            sub.audio is Some ==> sub.audio->0@.len() <= 0x7fff_ffff_ffff_ffff,
        ensures
            final(self).wf(),
            final(self).ledger.claims@ == old(self).ledger.claims@,
            final(self).ledger.vendors@ == old(self).ledger.vendors@,
            match r {
                Ok(d) => {
                    &&& d.drop_id@.len() == 13
                    &&& DropSystem::spec_created_ok(*old(self), *final(self), sub, d, now)
                },
                Err(e) => {
                    &&& exists|id: Seq<char>|
                        id.len() == 13 && old(self).spec_create_error(sub, id) == Some(e)
                    &&& final(self).ledger.drops@ == old(self).ledger.drops@
                    &&& final(self).store.entries@ == old(self).store.entries@
                },
            },
    {
        let drop_id = crate::ids::generate_drop_id();
        let ghost idv = drop_id@;
        let r = self.create_drop(sub, drop_id, now);
        proof {
            if r is Err {
                assert(idv.len() == 13 && old(self).spec_create_error(sub, idv) == Some(
                    r->Err_0,
                ));
            }
        }
        r
    }
}

} // verus!
