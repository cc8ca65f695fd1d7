//! Response shaping for the drop API: the drop view with derived asset
//! URLs and the remaining-claims figure, the claim response with its
//! download URL, and the envelope types the endpoints return.

use vstd::prelude::*;

use crate::ledger::ClaimGrant;
use crate::records::{clone_opt_string, DropRecord};
use crate::status::status_rank;
use crate::text::{spec_download_url, spec_object_url, spec_thumb_key};

verus! {

/// A drop as the API returns it.
pub struct DropResponse {
    /// Unique identifier.
    pub drop_id: String,
    /// The owning vendor.
    pub vendor_stable_id: String,
    /// The associated artist account, when known.
    pub artist_stable_id: Option<String>,
    /// Display name of the artist.
    pub artist_name: String,
    /// Title of the drop.
    pub title: String,
    /// Optional free-form description.
    pub description: Option<String>,
    /// Public URL of the cover, when one was uploaded.
    pub cover_url: Option<String>,
    /// Thumbnail URL derived from the cover key — a naming convention
    /// only; no thumbnail is generated.
    pub cover_thumb_url: Option<String>,
    /// MIME type of the audio bytes.
    pub audio_mime: String,
    /// Size of the audio bytes.
    pub audio_size_bytes: i64,
    /// Lowercase-hex SHA-256 of the audio bytes.
    pub audio_sha256: String,
    /// When the claim window opens (inclusive), epoch seconds.
    pub start_at: i64,
    /// When the claim window closes (exclusive), epoch seconds.
    pub end_at: i64,
    /// Capacity.
    pub max_claims: i64,
    /// Claims issued so far.
    pub claimed_count: i64,
    /// Capacity still available: `max_claims - claimed_count`.
    pub remaining_claims: i64,
    /// Status code: the rank along the lifecycle.
    pub status: i32,
    /// Creation time, epoch seconds.
    pub created_at: i64,
    /// Last mutation time, epoch seconds.
    pub updated_at: i64,
    /// When the drop reached `Ended`, if it has.
    pub ended_at: Option<i64>,
}

impl DropResponse {
    /// Shapes a drop row for the API: a field-for-field copy with the
    /// remaining capacity computed, the status rendered as its code, and
    /// the cover URLs derived by joining the public base URL with the
    /// stored key (and its thumbnail naming variant).
    pub fn from_drop(d: &DropRecord, base_url: &str) -> (r: DropResponse)
        requires
            0 <= d.claimed_count <= d.max_claims,
        ensures
            r.drop_id == d.drop_id,
            r.vendor_stable_id == d.vendor_stable_id,
            r.artist_stable_id == d.artist_stable_id,
            r.artist_name == d.artist_name,
            r.title == d.title,
            r.description == d.description,
            (match d.cover_object_key {
                Some(k) => r.cover_url is Some && r.cover_url->0@ == spec_object_url(base_url@, k@)
                    && r.cover_thumb_url is Some && r.cover_thumb_url->0@ == spec_object_url(
                    base_url@,
                    spec_thumb_key(k@),
                ),
                None => r.cover_url is None && r.cover_thumb_url is None,
            }),
            r.audio_mime == d.audio_mime,
            r.audio_size_bytes == d.audio_size_bytes,
            r.audio_sha256 == d.audio_sha256,
            r.start_at == d.start_at,
            r.end_at == d.end_at,
            r.max_claims == d.max_claims,
            r.claimed_count == d.claimed_count,
            r.remaining_claims == d.max_claims - d.claimed_count,
            r.status == status_rank(d.status),
            r.created_at == d.created_at,
            r.updated_at == d.updated_at,
            r.ended_at == d.ended_at,
    {
        let (cover_url, cover_thumb_url) = match &d.cover_object_key {
            Some(k) => {
                let thumb = crate::text::thumb_key(k.as_str());
                (
                    Some(crate::text::object_url(base_url, k.as_str())),
                    Some(crate::text::object_url(base_url, thumb.as_str())),
                )
            },
            None => (None, None),
        };
        DropResponse {
            drop_id: d.drop_id.clone(),
            vendor_stable_id: d.vendor_stable_id.clone(),
            artist_stable_id: clone_opt_string(&d.artist_stable_id),
            artist_name: d.artist_name.clone(),
            title: d.title.clone(),
            description: clone_opt_string(&d.description),
            cover_url,
            cover_thumb_url,
            audio_mime: d.audio_mime.clone(),
            audio_size_bytes: d.audio_size_bytes,
            audio_sha256: d.audio_sha256.clone(),
            start_at: d.start_at,
            end_at: d.end_at,
            max_claims: d.max_claims,
            claimed_count: d.claimed_count,
            remaining_claims: d.max_claims - d.claimed_count,
            status: d.status.code(),
            created_at: d.created_at,
            updated_at: d.updated_at,
            ended_at: d.ended_at,
        }
    }
}

/// Body of a claim request.
pub struct ClaimDropRequest {
    /// The claiming user.
    pub user_id: String,
    /// Optional fraud-signal hash of the claiming device.
    pub device_id_hash: Option<String>,
}

/// Response to a successful claim.
pub struct ClaimDropResponse {
    /// Always true on the success path.
    pub success: bool,
    /// The new claim's identifier — the bearer download token.
    pub claim_id: String,
    /// The drop claimed.
    pub drop_id: String,
    /// Where to redeem the token.
    pub download_url: String,
    /// When the token stops working: the drop's `end_at`.
    pub expires_at: i64,
    /// Integrity hash of the audio the token downloads.
    pub audio_sha256: String,
    /// Size of the audio the token downloads.
    pub audio_size_bytes: i64,
}

impl ClaimDropResponse {
    /// Shapes a claim grant for the API, deriving the download URL from
    /// the public base URL, the drop and the token.
    pub fn from_grant(grant: ClaimGrant, base_url: &str) -> (r: ClaimDropResponse)
        ensures
            r.success == true,
            r.claim_id == grant.claim_id,
            r.drop_id == grant.drop_id,
            r.download_url@ == spec_download_url(base_url@, grant.drop_id@, grant.claim_id@),
            r.expires_at == grant.expires_at,
            r.audio_sha256 == grant.audio_sha256,
            r.audio_size_bytes == grant.audio_size_bytes,
    {
        let download_url = crate::text::download_url(
            base_url,
            grant.drop_id.as_str(),
            grant.claim_id.as_str(),
        );
        ClaimDropResponse {
            success: true,
            claim_id: grant.claim_id,
            drop_id: grant.drop_id,
            download_url,
            expires_at: grant.expires_at,
            audio_sha256: grant.audio_sha256,
            audio_size_bytes: grant.audio_size_bytes,
        }
    }
}

/// Body of a batch end or batch purge request.
pub struct BatchDropRequest {
    /// The drops to act on, in order.
    pub drop_ids: Vec<String>,
}

/// Response to a batch end or batch purge: one outcome per requested drop,
/// in request order.
pub struct BatchDropResponse {
    /// Always true on the success path.
    pub success: bool,
    /// Whether each drop was acted on.
    pub results: Vec<(String, bool)>,
}

/// Response to a listing query.
pub struct DropListResponse {
    /// Always true on the success path.
    pub success: bool,
    /// The matching drops, newest first.
    pub drops: Vec<DropResponse>,
    /// How many matched.
    pub total: usize,
}

/// Response to a single-drop lookup.
pub struct DropDetailResponse {
    /// Always true on the success path.
    pub success: bool,
    /// The drop, when found.
    pub drop: Option<DropResponse>,
}

/// Response to drop creation.
pub struct DropCreateResponse {
    /// Always true on the success path.
    pub success: bool,
    /// The new drop.
    pub drop: DropResponse,
}

/// The error envelope every endpoint uses.
pub struct ErrorResponse {
    /// Always false on the error path.
    pub success: bool,
    /// The user-visible message.
    pub error: String,
}

impl ErrorResponse {
    /// Shapes an error for the API, with its user-visible message.
    pub fn from_error(e: &crate::errors::DropError) -> (r: ErrorResponse)
        ensures
            r.success == false,
            r.error@ == e.spec_message(),
    {
        ErrorResponse { success: false, error: e.message() }
    }
}

/// Query parameters accepted when listing drops.
pub struct ListDropsQuery {
    /// Restrict to one status code.
    pub status: Option<i32>,
}

/// Query parameters accepted on a download.
pub struct DownloadQuery {
    /// The bearer token a claim handed back.
    pub token: Option<String>,
}

} // verus!
