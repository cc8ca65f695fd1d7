//! The persistent rows of the drop subsystem: drops and claims.

use vstd::prelude::*;

use crate::status::DropStatus;

verus! {

/// One drop: a time-boxed, capacity-limited offer of one audio file (plus
/// an optional cover) from a vendor.
#[derive(Debug)]
pub struct DropRecord {
    /// Unique, generated identifier.
    pub drop_id: String,
    /// The owning vendor.
    pub vendor_stable_id: String,
    /// The associated artist account, when known.
    pub artist_stable_id: Option<String>,
    /// Display name of the artist.
    pub artist_name: String,
    /// Title of the drop.
    pub title: String,
    /// Optional free-form description.
    pub description: Option<String>,
    /// Storage key of the cover blob, when one was uploaded.
    pub cover_object_key: Option<String>,
    /// Storage key of the audio blob.
    pub audio_object_key: String,
    /// MIME type of the audio bytes.
    pub audio_mime: String,
    /// Size of the audio bytes.
    pub audio_size_bytes: i64,
    /// Lowercase-hex SHA-256 of the audio bytes.
    pub audio_sha256: String,
    /// Claim window opens at this epoch second (inclusive).
    pub start_at: i64,
    /// Claim window closes at this epoch second (exclusive).
    pub end_at: i64,
    /// Capacity: how many claims may ever be issued.
    pub max_claims: i64,
    /// How many claims have been issued; never exceeds `max_claims`.
    pub claimed_count: i64,
    /// Lifecycle state; moves forward only.
    pub status: DropStatus,
    /// Deployment environment tag.
    pub env: String,
    /// Creation time, epoch seconds.
    pub created_at: i64,
    /// Last mutation time, epoch seconds.
    pub updated_at: i64,
    /// When the drop reached `Ended`, if it has.
    pub ended_at: Option<i64>,
    /// When the drop reached `Purged`, if it has.
    pub purged_at: Option<i64>,
}

/// One user's successful reservation against a drop. Never updated, never
/// deleted: claims remain as an audit trail even after the drop is purged.
#[derive(Debug)]
pub struct ClaimRecord {
    /// Globally unique, generated; doubles as the download token.
    pub claim_id: String,
    /// The drop claimed.
    pub drop_id: String,
    /// The claiming user; at most one claim per `(drop_id, user_id)`.
    pub user_id: String,
    /// Optional fraud-signal hash of the claiming device.
    pub device_id_hash: Option<String>,
    /// When the claim was issued, epoch seconds.
    pub claimed_at: i64,
}

impl DropRecord {
    /// A well-formed drop: the claim counter sits within `[0, max_claims]`
    /// and a capacity of at least one was validated at creation; a live
    /// drop carries no lifecycle stamps yet, an ended drop carries its
    /// `ended_at` stamp, a purged one both stamps.
    pub open spec fn inv(self) -> bool {
        &&& 1 <= self.max_claims
        &&& 0 <= self.claimed_count <= self.max_claims
        &&& crate::status::spec_is_live(self.status) ==> self.ended_at is None
            && self.purged_at is None
        &&& (self.status == DropStatus::Ended || self.status == DropStatus::Purged)
            ==> self.ended_at is Some
        &&& self.status == DropStatus::Purged ==> self.purged_at is Some
    }

    /// Copies the record field by field.
    pub fn duplicate(&self) -> (r: DropRecord)
        ensures
            r == *self,
    {
        DropRecord {
            drop_id: self.drop_id.clone(),
            vendor_stable_id: self.vendor_stable_id.clone(),
            artist_stable_id: clone_opt_string(&self.artist_stable_id),
            artist_name: self.artist_name.clone(),
            title: self.title.clone(),
            description: clone_opt_string(&self.description),
            cover_object_key: clone_opt_string(&self.cover_object_key),
            audio_object_key: self.audio_object_key.clone(),
            audio_mime: self.audio_mime.clone(),
            audio_size_bytes: self.audio_size_bytes,
            audio_sha256: self.audio_sha256.clone(),
            start_at: self.start_at,
            end_at: self.end_at,
            max_claims: self.max_claims,
            claimed_count: self.claimed_count,
            status: self.status,
            env: self.env.clone(),
            created_at: self.created_at,
            updated_at: self.updated_at,
            ended_at: self.ended_at,
            purged_at: self.purged_at,
        }
    }
}

/// Copies an optional string.
pub fn clone_opt_string(s: &Option<String>) -> (r: Option<String>)
    ensures
        r == *s,
{
    match s {
        Some(v) => Some(v.clone()),
        None => None,
    }
}

} // verus!
