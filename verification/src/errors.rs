//! Error taxonomy for the drop subsystem.
//!
//! Validation and conflict errors map to HTTP 400, lookup failures to 404,
//! bad download tokens to 401, and storage faults to 500. Every claim
//! failure carries a distinct variant so a caller can render the precise
//! reason ("sold out" vs. "already claimed" vs. "not started" vs.
//! "expired").

use vstd::prelude::*;

verus! {

/// Everything a drop operation can fail with.
#[derive(Clone, Copy, Debug, PartialEq, Eq, Structural)]
pub enum DropError {
    /// `vendor_stable_id` was not supplied at creation.
    MissingVendor,
    /// `artist_name` was not supplied at creation.
    MissingArtistName,
    /// `title` was not supplied at creation.
    MissingTitle,
    /// `end_at` was not supplied at creation.
    MissingEndAt,
    /// `max_claims` was not supplied at creation.
    MissingMaxClaims,
    /// `max_claims` was supplied but is not at least 1.
    InvalidMaxClaims,
    /// No audio bytes were supplied at creation.
    MissingAudio,
    /// The referenced vendor does not exist or is not alive.
    VendorNotFound,
    /// The chosen drop identifier is already taken (a primary-key clash).
    DropIdTaken,
    /// No drop carries the requested identifier.
    NotFound,
    /// The drop has already been ended or purged.
    AlreadyEnded,
    /// The claim window has not opened yet.
    NotStarted,
    /// The claim window has closed.
    Expired,
    /// Capacity is exhausted: `claimed_count` has reached `max_claims`.
    SoldOut,
    /// This user already holds a claim on this drop.
    AlreadyClaimed,
    /// A download was attempted without a token.
    TokenRequired,
    /// The download token matches no claim on this drop.
    InvalidToken,
    /// The stored bytes for the drop are gone.
    BlobMissing,
}

impl DropError {
    /// The HTTP status code this error surfaces as.
    pub fn http_status(&self) -> (c: u16)
        ensures
            c == 400 || c == 401 || c == 404 || c == 500,
            (*self == DropError::NotFound) ==> c == 404,
            (*self == DropError::TokenRequired || *self == DropError::InvalidToken) ==> c == 401,
            (*self == DropError::BlobMissing || *self == DropError::DropIdTaken) ==> c == 500,
            (*self == DropError::AlreadyEnded || *self == DropError::NotStarted || *self
                == DropError::Expired || *self == DropError::SoldOut || *self
                == DropError::AlreadyClaimed) ==> c == 400,
    {
        match self {
            DropError::NotFound => 404,
            DropError::TokenRequired => 401,
            DropError::InvalidToken => 401,
            DropError::BlobMissing => 500,
            DropError::DropIdTaken => 500,
            _ => 400,
        }
    }

    /// The user-visible message for this error, as a character sequence.
    pub open spec fn spec_message(self) -> Seq<char> {
        match self {
            DropError::MissingVendor => "vendor_stable_id is required"@,
            DropError::MissingArtistName => "artist_name is required"@,
            DropError::MissingTitle => "title is required"@,
            DropError::MissingEndAt => "end_at is required"@,
            DropError::MissingMaxClaims => "max_claims is required"@,
            DropError::InvalidMaxClaims => "max_claims must be at least 1"@,
            DropError::MissingAudio => "audio file is required"@,
            DropError::VendorNotFound => "Vendor not found"@,
            DropError::DropIdTaken => "Drop id is already taken"@,
            DropError::NotFound => "Drop not found"@,
            DropError::AlreadyEnded => "Drop has ended"@,
            DropError::NotStarted => "Drop has not started yet"@,
            DropError::Expired => "Drop has expired"@,
            DropError::SoldOut => "No more claims available"@,
            DropError::AlreadyClaimed => "Already claimed"@,
            DropError::TokenRequired => "Token required"@,
            DropError::InvalidToken => "Invalid token"@,
            DropError::BlobMissing => "File read error"@,
        }
    }

    /// The user-visible message for this error.
    pub fn message(&self) -> (m: String)
        ensures
            m@ == self.spec_message(),
    {
        let s: &str = match self {
            DropError::MissingVendor => "vendor_stable_id is required",
            DropError::MissingArtistName => "artist_name is required",
            DropError::MissingTitle => "title is required",
            DropError::MissingEndAt => "end_at is required",
            DropError::MissingMaxClaims => "max_claims is required",
            DropError::InvalidMaxClaims => "max_claims must be at least 1",
            DropError::MissingAudio => "audio file is required",
            DropError::VendorNotFound => "Vendor not found",
            DropError::DropIdTaken => "Drop id is already taken",
            DropError::NotFound => "Drop not found",
            DropError::AlreadyEnded => "Drop has ended",
            DropError::NotStarted => "Drop has not started yet",
            DropError::Expired => "Drop has expired",
            DropError::SoldOut => "No more claims available",
            DropError::AlreadyClaimed => "Already claimed",
            DropError::TokenRequired => "Token required",
            DropError::InvalidToken => "Invalid token",
            DropError::BlobMissing => "File read error",
        };
        s.to_owned()
    }
}

} // verus!
