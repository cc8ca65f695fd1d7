//! Drop creation: validation order, derived keys, MIME inference, hashes
//! and identifier formats.

use drop_ledger::errors::DropError;
use drop_ledger::models::Vendor;
use drop_ledger::responses::DropResponse;
use drop_ledger::system::{DropSubmission, DropSystem};

fn live_vendor(stable_id: &str) -> Vendor {
    Vendor {
        stable_id: stable_id.to_string(),
        latest_object_id: None,
        owner: None,
        mode: 0,
        manifest_url: None,
        manifest_sha256: None,
        profile_seq: 0,
        status: 0,
        env: "devnet".to_string(),
        run_id: None,
        created_at_ms: None,
        updated_at_ms: None,
        is_alive: 1,
    }
}

fn full_submission() -> DropSubmission {
    DropSubmission {
        vendor_stable_id: Some("VENDOR_A".to_string()),
        artist_stable_id: Some("ARTIST_B".to_string()),
        artist_name: Some("Artist".to_string()),
        title: Some("My Song".to_string()),
        description: Some("a drop".to_string()),
        start_at: Some(1_700_000_000),
        end_at: Some(1_700_003_600),
        max_claims: Some(3),
        env: "devnet".to_string(),
        audio: Some(b"abc".to_vec()),
        audio_filename: Some("take1.flac".to_string()),
        audio_mime: None,
        cover: Some(vec![9u8, 9, 9]),
        cover_filename: Some("art.png".to_string()),
    }
}

#[test]
fn creation_records_keys_hash_and_status() {
    let now: i64 = 1_700_000_000;
    let mut sys = DropSystem::new();
    sys.put_vendor(live_vendor("VENDOR_A"));
    let d = sys
        .create_drop(full_submission(), "DROP_TEST0001".to_string(), now)
        .unwrap();

    assert_eq!(d.drop_id, "DROP_TEST0001");
    assert_eq!(d.audio_object_key, "DROP_TEST0001/audio.flac");
    assert_eq!(d.cover_object_key.as_deref(), Some("DROP_TEST0001/cover.png"));
    assert_eq!(d.audio_mime, "audio/flac");
    assert_eq!(d.audio_size_bytes, 3);
    // SHA-256 of "abc".
    assert_eq!(
        d.audio_sha256,
        "ba7816bf8f01cfea414140de5dae2223b00361a396177a9cb410ff61f20015ad"
    );
    assert_eq!(d.status.code(), 1); // active: now >= start_at
    assert_eq!(d.claimed_count, 0);
    assert_eq!(d.created_at, now);
    assert_eq!(d.ended_at, None);
    assert_eq!(d.purged_at, None);
}

#[test]
fn declared_mime_wins_over_extension() {
    let now: i64 = 1_700_000_000;
    let mut sys = DropSystem::new();
    sys.put_vendor(live_vendor("VENDOR_A"));
    let mut sub = full_submission();
    sub.audio_mime = Some("audio/custom".to_string());
    let d = sys
        .create_drop(sub, "DROP_TEST0002".to_string(), now)
        .unwrap();
    assert_eq!(d.audio_mime, "audio/custom");
}

#[test]
fn unknown_extension_defaults_to_mpeg() {
    let now: i64 = 1_700_000_000;
    let mut sys = DropSystem::new();
    sys.put_vendor(live_vendor("VENDOR_A"));
    let mut sub = full_submission();
    sub.audio_filename = Some("weird.xyz".to_string());
    let d = sys
        .create_drop(sub, "DROP_TEST0003".to_string(), now)
        .unwrap();
    assert_eq!(d.audio_object_key, "DROP_TEST0003/audio.xyz");
    assert_eq!(d.audio_mime, "audio/mpeg");
}

#[test]
fn missing_filename_defaults_to_mp3() {
    let now: i64 = 1_700_000_000;
    let mut sys = DropSystem::new();
    sys.put_vendor(live_vendor("VENDOR_A"));
    let mut sub = full_submission();
    sub.audio_filename = None;
    sub.cover = None;
    sub.cover_filename = None;
    let d = sys
        .create_drop(sub, "DROP_TEST0004".to_string(), now)
        .unwrap();
    assert_eq!(d.audio_object_key, "DROP_TEST0004/audio.mp3");
    assert_eq!(d.audio_mime, "audio/mpeg");
    assert_eq!(d.cover_object_key, None);
}

#[test]
fn validation_rejects_in_field_order() {
    let now: i64 = 1_700_000_000;
    let mut sys = DropSystem::new();
    sys.put_vendor(live_vendor("VENDOR_A"));

    let mut sub = full_submission();
    sub.vendor_stable_id = None;
    sub.title = None;
    let err = sys
        .create_drop(sub, "DROP_TEST0005".to_string(), now)
        .unwrap_err();
    assert_eq!(err, DropError::MissingVendor);
    assert_eq!(err.message(), "vendor_stable_id is required".to_string());

    let mut sub = full_submission();
    sub.artist_name = None;
    assert_eq!(
        sys.create_drop(sub, "DROP_TEST0005".to_string(), now)
            .unwrap_err(),
        DropError::MissingArtistName
    );

    let mut sub = full_submission();
    sub.title = None;
    assert_eq!(
        sys.create_drop(sub, "DROP_TEST0005".to_string(), now)
            .unwrap_err(),
        DropError::MissingTitle
    );

    let mut sub = full_submission();
    sub.end_at = None;
    assert_eq!(
        sys.create_drop(sub, "DROP_TEST0005".to_string(), now)
            .unwrap_err(),
        DropError::MissingEndAt
    );

    let mut sub = full_submission();
    sub.max_claims = None;
    assert_eq!(
        sys.create_drop(sub, "DROP_TEST0005".to_string(), now)
            .unwrap_err(),
        DropError::MissingMaxClaims
    );

    let mut sub = full_submission();
    sub.max_claims = Some(0);
    assert_eq!(
        sys.create_drop(sub, "DROP_TEST0005".to_string(), now)
            .unwrap_err(),
        DropError::InvalidMaxClaims
    );

    let mut sub = full_submission();
    sub.audio = None;
    assert_eq!(
        sys.create_drop(sub, "DROP_TEST0005".to_string(), now)
            .unwrap_err(),
        DropError::MissingAudio
    );

    // Nothing was created along the way.
    assert!(sys.get_drop("DROP_TEST0005").is_none());
}

#[test]
fn unknown_or_dead_vendor_is_rejected() {
    let now: i64 = 1_700_000_000;
    let mut sys = DropSystem::new();
    let err = sys
        .create_drop(full_submission(), "DROP_TEST0006".to_string(), now)
        .unwrap_err();
    assert_eq!(err, DropError::VendorNotFound);

    let mut dead = live_vendor("VENDOR_A");
    dead.is_alive = 0;
    sys.put_vendor(dead);
    assert_eq!(
        sys.create_drop(full_submission(), "DROP_TEST0006".to_string(), now)
            .unwrap_err(),
        DropError::VendorNotFound
    );
}

#[test]
fn duplicate_identifier_is_a_persistence_fault() {
    let now: i64 = 1_700_000_000;
    let mut sys = DropSystem::new();
    sys.put_vendor(live_vendor("VENDOR_A"));
    sys.create_drop(full_submission(), "DROP_TEST0007".to_string(), now)
        .unwrap();
    let err = sys
        .create_drop(full_submission(), "DROP_TEST0007".to_string(), now)
        .unwrap_err();
    assert_eq!(err, DropError::DropIdTaken);
    assert_eq!(err.http_status(), 500);
}

#[test]
fn scheduled_when_window_opens_later() {
    let now: i64 = 1_700_000_000;
    let mut sys = DropSystem::new();
    sys.put_vendor(live_vendor("VENDOR_A"));
    let mut sub = full_submission();
    sub.start_at = Some(now + 100);
    let d = sys
        .create_drop(sub, "DROP_TEST0008".to_string(), now)
        .unwrap();
    assert_eq!(d.status.code(), 0);
}

#[test]
fn generated_identifiers_have_the_advertised_shape() {
    let now: i64 = 1_700_000_000;
    let mut sys = DropSystem::new();
    sys.put_vendor(live_vendor("VENDOR_A"));
    let d = sys.create_drop_new(full_submission(), now).unwrap();
    assert_eq!(d.drop_id.chars().count(), 13);
    assert!(d.drop_id.starts_with("DROP_"));

    let grant = sys
        .claim_new(&d.drop_id, "u1".to_string(), None, now)
        .unwrap();
    assert_eq!(grant.claim_id.chars().count(), 36);
    assert_eq!(grant.claim_id.matches('-').count(), 4);
}

#[test]
fn response_shapes_urls_and_remaining_capacity() {
    let now: i64 = 1_700_000_000;
    let mut sys = DropSystem::new();
    sys.put_vendor(live_vendor("VENDOR_A"));
    let d = sys
        .create_drop(full_submission(), "DROP_TEST0009".to_string(), now)
        .unwrap();
    sys.claim_new(&d.drop_id, "u1".to_string(), None, now).unwrap();
    let row = sys.get_drop(&d.drop_id).unwrap();
    let resp = DropResponse::from_drop(&row, "http://host/nft");

    assert_eq!(resp.remaining_claims, 2);
    assert_eq!(resp.claimed_count, 1);
    assert_eq!(resp.status, 1);
    assert_eq!(
        resp.cover_url.as_deref(),
        Some("http://host/nft/drops/DROP_TEST0009/cover.png")
    );
    assert_eq!(
        resp.cover_thumb_url.as_deref(),
        Some("http://host/nft/drops/DROP_TEST0009/cover_thumb.png")
    );
}

#[test]
fn download_streams_stored_bytes_with_disposition() {
    let now: i64 = 1_700_000_000;
    let mut sys = DropSystem::new();
    sys.put_vendor(live_vendor("VENDOR_A"));
    let d = sys
        .create_drop(full_submission(), "DROP_TEST0010".to_string(), now)
        .unwrap();
    let grant = sys
        .claim_new(&d.drop_id, "u1".to_string(), None, now)
        .unwrap();

    let content = sys
        .download(&d.drop_id, Some(&grant.claim_id), now + 1)
        .unwrap();
    assert_eq!(content.bytes, b"abc".to_vec());
    assert_eq!(content.mime, "audio/flac");
    assert_eq!(content.disposition, "attachment; filename=\"My Song\"");

    // sha256(stored bytes) still matches the recorded hash.
    assert_eq!(
        drop_ledger::hashing::compute_sha256(&content.bytes),
        d.audio_sha256
    );
}

#[test]
fn download_requires_a_valid_token() {
    let now: i64 = 1_700_000_000;
    let mut sys = DropSystem::new();
    sys.put_vendor(live_vendor("VENDOR_A"));
    let d = sys
        .create_drop(full_submission(), "DROP_TEST0011".to_string(), now)
        .unwrap();

    let err = sys.download(&d.drop_id, None, now).unwrap_err();
    assert_eq!(err, DropError::TokenRequired);
    assert_eq!(err.http_status(), 401);

    let bogus = "not-a-claim".to_string();
    let err = sys.download(&d.drop_id, Some(&bogus), now).unwrap_err();
    assert_eq!(err, DropError::InvalidToken);
    assert_eq!(err.message(), "Invalid token".to_string());
}

#[test]
fn token_is_scoped_to_its_drop() {
    let now: i64 = 1_700_000_000;
    let mut sys = DropSystem::new();
    sys.put_vendor(live_vendor("VENDOR_A"));
    let d1 = sys
        .create_drop(full_submission(), "DROP_TEST0012".to_string(), now)
        .unwrap();
    let d2 = sys
        .create_drop(full_submission(), "DROP_TEST0013".to_string(), now)
        .unwrap();
    let grant = sys
        .claim_new(&d1.drop_id, "u1".to_string(), None, now)
        .unwrap();
    let err = sys
        .download(&d2.drop_id, Some(&grant.claim_id), now)
        .unwrap_err();
    assert_eq!(err, DropError::InvalidToken);
}

#[test]
fn sha256_helper_matches_known_vectors() {
    assert_eq!(
        drop_ledger::hashing::compute_sha256(b""),
        "e3b0c44298fc1c149afbf4c8996fb92427ae41e4649b934ca495991b7852b855"
    );
    assert_eq!(
        drop_ledger::hashing::compute_sha256(b"abc"),
        "ba7816bf8f01cfea414140de5dae2223b00361a396177a9cb410ff61f20015ad"
    );
}

#[test]
fn text_helpers_derive_extensions_and_thumbs() {
    assert_eq!(drop_ledger::text::extension_of("song.final.mp3"), "mp3");
    assert_eq!(drop_ledger::text::extension_of("noext"), "noext");
    assert_eq!(drop_ledger::text::thumb_key("X/cover.jpg"), "X/cover_thumb.jpg");
    assert_eq!(drop_ledger::text::thumb_key("bare"), "bare_thumb");
    assert_eq!(drop_ledger::text::mime_for_extension("wav"), "audio/wav");
    assert_eq!(drop_ledger::text::mime_for_extension("m4a"), "audio/mp4");
}
