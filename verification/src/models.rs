//! Records of the surrounding marketplace: vendors, listings, receipts and
//! artists. The drop subsystem depends on vendors only (for the
//! existence-and-liveness check at drop creation); the rest are plain data
//! carried for the wider platform's API surface.

use vstd::prelude::*;

verus! {

/// A vendor shop. A drop may only be created for a vendor that exists and
/// is alive (`is_alive == 1`).
pub struct Vendor {
    /// Permanent, human-legible identifier.
    pub stable_id: String,
    /// Latest external-ledger object, when known.
    pub latest_object_id: Option<String>,
    /// Owning account, when known.
    pub owner: Option<String>,
    /// Test or production vendor.
    pub mode: i32,
    /// Public URL of the persisted profile manifest.
    pub manifest_url: Option<String>,
    /// Hash of the persisted profile manifest.
    pub manifest_sha256: Option<String>,
    /// Profile revision counter.
    pub profile_seq: i64,
    /// Registry status code.
    pub status: i32,
    /// Deployment environment tag.
    pub env: String,
    /// Generation the row belongs to.
    pub run_id: Option<String>,
    /// Creation time, epoch milliseconds.
    pub created_at_ms: Option<i64>,
    /// Last update time, epoch milliseconds.
    pub updated_at_ms: Option<i64>,
    /// 1 while the vendor is listed; 0 once delisted.
    pub is_alive: i32,
}

/// Response to vendor creation.
pub struct VendorCreateResponse {
    /// Always true on the success path.
    pub success: bool,
    /// Identifier of the new vendor.
    pub stable_id: String,
    /// Peer identifier of the new vendor.
    pub peer_id: String,
    /// URL of the persisted profile manifest.
    pub manifest_url: String,
    /// Hash of the persisted profile manifest.
    pub manifest_sha256: String,
}

/// A sellable item listed by a vendor.
pub struct Listing {
    /// Unique identifier.
    pub listing_id: String,
    /// The owning vendor.
    pub vendor_stable_id: String,
    /// The vendor's external-ledger object, when known.
    pub vendor_object_id: Option<String>,
    /// Selling account, when known.
    pub seller: Option<String>,
    /// What kind of item is sold.
    pub item_type: i32,
    /// The item itself, when known.
    pub item_id: Option<String>,
    /// Price in the listing's currency.
    pub price: i64,
    /// Currency symbol.
    pub currency: String,
    /// Total units offered.
    pub supply_total: i64,
    /// Units still available.
    pub supply_remaining: i64,
    /// Listing status code.
    pub status: i32,
    /// Deployment environment tag.
    pub env: String,
    /// Generation the row belongs to.
    pub run_id: Option<String>,
    /// Creation time, epoch milliseconds.
    pub created_at_ms: Option<i64>,
    /// Last update time, epoch milliseconds.
    pub updated_at_ms: Option<i64>,
    /// 1 while listed; 0 once deleted.
    pub is_alive: i32,
    /// Manifest the listing points at, when known.
    pub manifest_id: Option<String>,
    /// Display title.
    pub title: Option<String>,
    /// Display artist.
    pub artist: Option<String>,
    /// Cover image URL.
    pub cover_url: Option<String>,
}

/// A listing as the API returns it.
pub struct ListingResponse {
    /// Unique identifier.
    pub listing_id: String,
    /// The owning vendor.
    pub vendor_stable_id: String,
    /// The vendor's external-ledger object, when known.
    pub vendor_object_id: Option<String>,
    /// Selling account, when known.
    pub seller: Option<String>,
    /// What kind of item is sold.
    pub item_type: i32,
    /// The item itself, when known.
    pub item_id: Option<String>,
    /// Price in the listing's currency.
    pub price: i64,
    /// Currency symbol.
    pub currency: String,
    /// Total units offered.
    pub supply_total: i64,
    /// Units still available.
    pub supply_remaining: i64,
    /// Listing status code.
    pub status: i32,
    /// Creation time, epoch milliseconds.
    pub created_at_ms: Option<i64>,
    /// Last update time, epoch milliseconds.
    pub updated_at_ms: Option<i64>,
    /// Whether the row is still listed.
    pub is_alive: bool,
    /// Manifest the listing points at, when known.
    pub manifest_id: Option<String>,
    /// Display title.
    pub title: Option<String>,
    /// Display artist.
    pub artist: Option<String>,
    /// Cover image URL.
    pub cover_url: Option<String>,
}

/// Request body for creating a listing.
pub struct CreateListingRequest {
    /// Unique identifier chosen by the caller.
    pub listing_id: String,
    /// The owning vendor.
    pub vendor_stable_id: String,
    /// The vendor's external-ledger object, when known.
    pub vendor_object_id: Option<String>,
    /// Selling account, when known.
    pub seller: Option<String>,
    /// What kind of item is sold.
    pub item_type: i32,
    /// The item itself, when known.
    pub item_id: Option<String>,
    /// Price in the listing's currency.
    pub price: i64,
    /// Currency symbol.
    pub currency: String,
    /// Total units offered.
    pub supply_total: i64,
    /// Manifest the listing points at, when known.
    pub manifest_id: Option<String>,
    /// Display title.
    pub title: Option<String>,
    /// Display artist.
    pub artist: Option<String>,
    /// Cover image URL.
    pub cover_url: Option<String>,
}

/// Request body for updating a listing; absent fields stay unchanged.
pub struct UpdateListingRequest {
    /// New selling account.
    pub seller: Option<String>,
    /// New price.
    pub price: Option<i64>,
    /// New remaining supply.
    pub supply_remaining: Option<i64>,
    /// New status code.
    pub status: Option<i32>,
}

/// Query parameters accepted when listing listings.
pub struct ListListingsQuery {
    /// Restrict to one vendor.
    pub vendor_stable_id: Option<String>,
    /// Restrict to one status code.
    pub status: Option<i32>,
}

/// Response to listing enumeration.
pub struct ListingListResponse {
    /// Always true on the success path.
    pub success: bool,
    /// The matching listings.
    pub listings: Vec<ListingResponse>,
    /// How many matched.
    pub total: usize,
}

/// Response to a single-listing lookup.
pub struct ListingDetailResponse {
    /// Always true on the success path.
    pub success: bool,
    /// The listing, when found.
    pub listing: Option<ListingResponse>,
}

/// Response to listing creation, update or deletion.
pub struct ListingCreateResponse {
    /// Always true on the success path.
    pub success: bool,
    /// The listing acted upon.
    pub listing_id: String,
}

/// A purchase receipt.
pub struct Receipt {
    /// Unique identifier.
    pub receipt_id: String,
    /// The vendor sold through.
    pub vendor_stable_id: String,
    /// The listing bought.
    pub listing_id: String,
    /// Buying account.
    pub buyer: String,
    /// Units bought.
    pub qty: i64,
    /// Price paid per the listing's currency.
    pub price: i64,
    /// Currency symbol.
    pub currency: String,
    /// Purchase time, epoch milliseconds.
    pub timestamp_ms: i64,
    /// External transaction digest, when known.
    pub tx_digest: Option<String>,
    /// Deployment environment tag.
    pub env: String,
    /// Generation the row belongs to.
    pub run_id: Option<String>,
}

/// Request body for recording a receipt.
pub struct CreateReceiptRequest {
    /// Unique identifier chosen by the caller.
    pub receipt_id: String,
    /// The vendor sold through.
    pub vendor_stable_id: String,
    /// The listing bought.
    pub listing_id: String,
    /// Buying account.
    pub buyer: String,
    /// Units bought.
    pub qty: i64,
    /// Price paid per the listing's currency.
    pub price: i64,
    /// Currency symbol.
    pub currency: String,
    /// Purchase time, epoch milliseconds.
    pub timestamp_ms: i64,
    /// External transaction digest, when known.
    pub tx_digest: Option<String>,
}

/// An artist account.
pub struct Artist {
    /// Permanent, human-legible identifier.
    pub stable_id: String,
    /// Peer-to-peer node identifier.
    pub peer_id: String,
    /// Hash of the peer identifier.
    pub peer_id_sha256: Option<String>,
    /// Latest external-ledger object, when known.
    pub latest_object_id: Option<String>,
    /// Owning account, when known.
    pub owner: Option<String>,
    /// Public URL of the persisted profile.
    pub profile_url: Option<String>,
    /// Hash of the persisted profile.
    pub profile_sha256: Option<String>,
    /// Public URL of the persisted discography.
    pub discography_url: Option<String>,
    /// Hash of the persisted discography.
    pub discography_sha256: Option<String>,
    /// Profile revision counter.
    pub profile_seq: i64,
    /// Registry status code.
    pub status: i32,
    /// Deployment environment tag.
    pub env: String,
    /// Generation the row belongs to.
    pub run_id: Option<String>,
    /// Creation time, epoch milliseconds.
    pub created_at_ms: Option<i64>,
    /// Last update time, epoch milliseconds.
    pub updated_at_ms: Option<i64>,
    /// 1 while the account is listed; 0 once delisted.
    pub is_alive: i32,
}

/// Peer-to-peer contact details of an artist.
pub struct ArtistP2P {
    /// Peer-to-peer node identifier.
    pub peer_id: String,
    /// Hash of the peer identifier.
    pub peer_id_sha256: Option<String>,
}

/// Request body for creating an artist.
pub struct CreateArtistRequest {
    /// Peer-to-peer node identifier.
    pub peer_id: String,
    /// Display name.
    pub name: String,
    /// Optional biography.
    pub bio: Option<String>,
    /// Owning account, when known.
    pub owner: Option<String>,
    /// Deployment environment tag.
    pub env: String,
}

/// Request body for updating an artist; absent fields stay unchanged.
pub struct UpdateArtistRequest {
    /// New external-ledger object.
    pub object_id: Option<String>,
    /// New owning account.
    pub owner: Option<String>,
    /// New display name.
    pub name: Option<String>,
    /// New biography.
    pub bio: Option<String>,
    /// New status code.
    pub status: Option<i32>,
}

/// Response to artist creation.
pub struct ArtistCreateResponse {
    /// Always true on the success path.
    pub success: bool,
    /// Identifier of the new artist.
    pub stable_id: String,
    /// Peer-to-peer node identifier.
    pub peer_id: String,
    /// URL of the persisted profile.
    pub profile_url: String,
    /// Hash of the persisted profile.
    pub profile_sha256: String,
    /// URL of the persisted discography.
    pub discography_url: String,
    /// Hash of the persisted discography.
    pub discography_sha256: String,
    /// Icon URL, when an icon was uploaded.
    pub icon_url: Option<String>,
    /// When the profile was last written, epoch milliseconds.
    pub updated_at_ms: i64,
}

/// A short preview of one track on an album.
pub struct TrackPreview {
    /// Track number.
    pub i: i32,
    /// Track title.
    pub title: String,
}

/// One album row of an artist's discography.
pub struct DiscographyEntry {
    /// Row identifier.
    pub id: i64,
    /// The artist the album belongs to.
    pub artist_stable_id: String,
    /// Album identifier.
    pub album_id: String,
    /// Edition identifier, when the album has editions.
    pub edition_id: Option<String>,
    /// Album title.
    pub title: Option<String>,
    /// Thumbnail URL of the album cover.
    pub cover_thumb_url: Option<String>,
    /// How many tracks the album has.
    pub track_count: i64,
    /// Serialized track previews.
    pub track_preview: Option<String>,
    /// The artist's role on the album.
    pub role: String,
    /// Deployment time, epoch milliseconds.
    pub deployed_at_ms: Option<i64>,
    /// Creation time, epoch milliseconds.
    pub created_at_ms: Option<i64>,
}

/// One album as it appears in the persisted discography document.
pub struct DiscographyAlbum {
    /// Album identifier.
    pub album_id: String,
    /// Edition identifier, when the album has editions.
    pub edition_id: Option<String>,
    /// Album title.
    pub title: Option<String>,
    /// Thumbnail URL of the album cover.
    pub cover_thumb_url: Option<String>,
    /// How many tracks the album has.
    pub track_count: i64,
    /// Previews of the album's tracks.
    pub track_preview: Vec<TrackPreview>,
    /// Deployment time, epoch milliseconds.
    pub deployed_at_ms: Option<i64>,
    /// The artist's role on the album.
    pub role: String,
}

/// The persisted discography document of one artist.
pub struct DiscographyJson {
    /// Document format version.
    pub version: String,
    /// The artist the document belongs to.
    pub artist_stable_id: String,
    /// The artist's albums.
    pub albums: Vec<DiscographyAlbum>,
    /// When the document was last written, epoch milliseconds.
    pub updated_at_ms: i64,
}

/// Request body for adding an album to a discography.
pub struct AddDiscographyRequest {
    /// Album identifier.
    pub album_id: String,
    /// Edition identifier, when the album has editions.
    pub edition_id: Option<String>,
    /// Album title.
    pub title: Option<String>,
    /// Thumbnail URL of the album cover.
    pub cover_thumb_url: Option<String>,
    /// How many tracks the album has.
    pub track_count: i64,
    /// Previews of the album's tracks.
    pub track_preview: Vec<TrackPreview>,
    /// The artist's role on the album.
    pub role: String,
    /// Deployment time, epoch milliseconds.
    pub deployed_at_ms: Option<i64>,
}

/// Response to a discography lookup.
pub struct DiscographyResponse {
    /// Always true on the success path.
    pub success: bool,
    /// The persisted discography document.
    pub discography: DiscographyJson,
}

/// The currency a listing or receipt defaults to.
pub fn default_currency() -> (r: String)
    ensures
        r@ == "SUI"@,
{
    "SUI".to_owned()
}

/// The supply a listing defaults to.
pub fn default_supply() -> (r: i64)
    ensures
        r == 1,
{
    1
}

/// The quantity a receipt defaults to.
pub fn default_qty() -> (r: i64)
    ensures
        r == 1,
{
    1
}

/// The environment tag a request defaults to.
pub fn default_env() -> (r: String)
    ensures
        r@ == "devnet"@,
{
    "devnet".to_owned()
}

/// The discography role a request defaults to.
pub fn default_role() -> (r: String)
    ensures
        r@ == "main"@,
{
    "main".to_owned()
}

/// Shapes a listing row for the API: a field-for-field copy, with
/// `is_alive` rendered as a boolean.
pub fn listing_to_response(l: &Listing) -> (r: ListingResponse)
    ensures
        r.listing_id == l.listing_id,
        r.vendor_stable_id == l.vendor_stable_id,
        r.vendor_object_id == l.vendor_object_id,
        r.seller == l.seller,
        r.item_type == l.item_type,
        r.item_id == l.item_id,
        r.price == l.price,
        r.currency == l.currency,
        r.supply_total == l.supply_total,
        r.supply_remaining == l.supply_remaining,
        r.status == l.status,
        r.created_at_ms == l.created_at_ms,
        r.updated_at_ms == l.updated_at_ms,
        r.is_alive == (l.is_alive == 1),
        r.manifest_id == l.manifest_id,
        r.title == l.title,
        r.artist == l.artist,
        r.cover_url == l.cover_url,
{
    ListingResponse {
        listing_id: l.listing_id.clone(),
        vendor_stable_id: l.vendor_stable_id.clone(),
        vendor_object_id: crate::records::clone_opt_string(&l.vendor_object_id),
        seller: crate::records::clone_opt_string(&l.seller),
        item_type: l.item_type,
        item_id: crate::records::clone_opt_string(&l.item_id),
        price: l.price,
        currency: l.currency.clone(),
        supply_total: l.supply_total,
        supply_remaining: l.supply_remaining,
        status: l.status,
        created_at_ms: l.created_at_ms,
        updated_at_ms: l.updated_at_ms,
        is_alive: l.is_alive == 1,
        manifest_id: crate::records::clone_opt_string(&l.manifest_id),
        title: crate::records::clone_opt_string(&l.title),
        artist: crate::records::clone_opt_string(&l.artist),
        cover_url: crate::records::clone_opt_string(&l.cover_url),
    }
}

} // verus!
