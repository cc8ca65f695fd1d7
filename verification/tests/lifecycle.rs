//! End-to-end lifecycle scenarios: claim flows, expiry, purge, batch
//! operations.

use drop_ledger::errors::DropError;
use drop_ledger::models::Vendor;
use drop_ledger::system::{DropSubmission, DropSystem};

fn vendor(stable_id: &str, alive: i32) -> Vendor {
    Vendor {
        stable_id: stable_id.to_string(),
        latest_object_id: None,
        owner: None,
        mode: 0,
        manifest_url: None,
        manifest_sha256: None,
        profile_seq: 0,
        status: 0,
        env: "devnet".to_string(),
        run_id: None,
        created_at_ms: None,
        updated_at_ms: None,
        is_alive: alive,
    }
}

fn submission(vendor_id: &str, start_at: Option<i64>, end_at: i64, max_claims: i64) -> DropSubmission {
    DropSubmission {
        vendor_stable_id: Some(vendor_id.to_string()),
        artist_stable_id: None,
        artist_name: Some("Artist".to_string()),
        title: Some("Title".to_string()),
        description: None,
        start_at,
        end_at: Some(end_at),
        max_claims: Some(max_claims),
        env: "devnet".to_string(),
        audio: Some(vec![1u8, 2, 3]),
        audio_filename: Some("song.mp3".to_string()),
        audio_mime: None,
        cover: None,
        cover_filename: None,
    }
}

#[test]
fn single_slot_claim_then_duplicate_then_sold_out() {
    let now: i64 = 1_700_000_000;
    let mut sys = DropSystem::new();
    sys.put_vendor(vendor("VENDOR_A", 1));
    let drop = sys
        .create_drop(submission("VENDOR_A", Some(now), now + 3600, 1), "DROP_AAAA0001".to_string(), now)
        .unwrap();
    assert_eq!(drop.claimed_count, 0);

    let grant = sys
        .claim_new(&drop.drop_id, "u1".to_string(), None, now)
        .unwrap();
    assert_eq!(grant.expires_at, now + 3600);
    let url = drop_ledger::text::download_url("http://host", &grant.drop_id, &grant.claim_id);
    assert!(url.starts_with("http://host/api/drops/DROP_AAAA0001/download?token="));

    // Capacity is checked before the duplicate check, so once the single
    // slot is gone every further attempt — the winner's own retry
    // included — is told the drop is sold out.
    let again = sys.claim_new(&drop.drop_id, "u1".to_string(), None, now);
    assert_eq!(again.unwrap_err(), DropError::SoldOut);

    let other = sys.claim_new(&drop.drop_id, "u2".to_string(), None, now);
    assert_eq!(other.unwrap_err(), DropError::SoldOut);
    assert_eq!(
        DropError::SoldOut.message(),
        "No more claims available".to_string()
    );
    assert_eq!(DropError::SoldOut.http_status(), 400);
}

#[test]
fn duplicate_claim_is_rejected_while_capacity_remains() {
    let now: i64 = 1_700_000_000;
    let mut sys = DropSystem::new();
    sys.put_vendor(vendor("VENDOR_A", 1));
    let drop = sys
        .create_drop(submission("VENDOR_A", Some(now), now + 3600, 2), "DROP_AAAA0014".to_string(), now)
        .unwrap();
    sys.claim_new(&drop.drop_id, "u1".to_string(), None, now).unwrap();

    let again = sys.claim_new(&drop.drop_id, "u1".to_string(), None, now);
    assert_eq!(again.unwrap_err(), DropError::AlreadyClaimed);
    assert_eq!(
        DropError::AlreadyClaimed.message(),
        "Already claimed".to_string()
    );
    // The duplicate attempt consumed nothing: another user still fits.
    assert!(sys.claim_new(&drop.drop_id, "u2".to_string(), None, now).is_ok());
}

#[test]
fn claim_before_window_opens_is_rejected() {
    let now: i64 = 1_700_000_000;
    let mut sys = DropSystem::new();
    sys.put_vendor(vendor("VENDOR_A", 1));
    let drop = sys
        .create_drop(
            submission("VENDOR_A", Some(now + 100), now + 3600, 5),
            "DROP_AAAA0002".to_string(),
            now,
        )
        .unwrap();
    assert_eq!(drop.status.code(), 0); // scheduled

    let err = sys
        .claim_new(&drop.drop_id, "u1".to_string(), None, now)
        .unwrap_err();
    assert_eq!(err, DropError::NotStarted);
    assert_eq!(err.message(), "Drop has not started yet".to_string());
    assert_eq!(err.http_status(), 400);
}

#[test]
fn expiry_sweep_ends_overdue_drop() {
    let now: i64 = 1_700_000_000;
    let mut sys = DropSystem::new();
    sys.put_vendor(vendor("VENDOR_A", 1));
    let drop = sys
        .create_drop(
            submission("VENDOR_A", None, now - 1, 5),
            "DROP_AAAA0003".to_string(),
            now,
        )
        .unwrap();
    assert_eq!(drop.status.code(), 1); // active until someone looks

    let ended = sys.expire_sweep(now);
    assert_eq!(ended, 1);
    let row = sys.get_drop(&drop.drop_id).unwrap();
    assert_eq!(row.status.code(), 2);
    assert_eq!(row.ended_at, Some(now));
}

#[test]
fn expiry_sweep_is_idempotent() {
    let now: i64 = 1_700_000_000;
    let mut sys = DropSystem::new();
    sys.put_vendor(vendor("VENDOR_A", 1));
    let drop = sys
        .create_drop(
            submission("VENDOR_A", None, now - 1, 5),
            "DROP_AAAA0004".to_string(),
            now,
        )
        .unwrap();

    assert_eq!(sys.expire_sweep(now), 1);
    let once = sys.get_drop(&drop.drop_id).unwrap();
    assert_eq!(sys.expire_sweep(now), 0);
    let twice = sys.get_drop(&drop.drop_id).unwrap();
    assert_eq!(once.status.code(), twice.status.code());
    assert_eq!(once.ended_at, twice.ended_at);
    assert_eq!(once.updated_at, twice.updated_at);
}

#[test]
fn purge_sweep_reclaims_after_grace_and_breaks_tokens() {
    let now: i64 = 1_700_000_000;
    let grace: i64 = 604_800;
    let mut sys = DropSystem::new();
    sys.put_vendor(vendor("VENDOR_A", 1));
    let drop = sys
        .create_drop(
            submission("VENDOR_A", Some(now), now + 3600, 5),
            "DROP_AAAA0005".to_string(),
            now,
        )
        .unwrap();
    let grant = sys
        .claim_new(&drop.drop_id, "u1".to_string(), None, now)
        .unwrap();

    // The window closes, the drop ends, the grace period passes.
    let end_time = now + 3600;
    assert_eq!(sys.expire_sweep(end_time), 1);
    let after_grace = end_time + grace + 1;
    assert_eq!(sys.purge_sweep(after_grace, grace), 1);

    let row = sys.get_drop(&drop.drop_id).unwrap();
    assert_eq!(row.status.code(), 3);
    assert!(row.purged_at.is_some());

    // A previously valid token no longer downloads anything.
    let token = grant.claim_id.clone();
    let err = sys
        .download(&drop.drop_id, Some(&token), after_grace)
        .unwrap_err();
    assert_eq!(err, DropError::Expired);
}

#[test]
fn purge_before_grace_leaves_drop_alone() {
    let now: i64 = 1_700_000_000;
    let grace: i64 = 604_800;
    let mut sys = DropSystem::new();
    sys.put_vendor(vendor("VENDOR_A", 1));
    let drop = sys
        .create_drop(
            submission("VENDOR_A", None, now - 1, 5),
            "DROP_AAAA0006".to_string(),
            now,
        )
        .unwrap();
    sys.expire_sweep(now);
    assert_eq!(sys.purge_sweep(now + 10, grace), 0);
    assert_eq!(sys.get_drop(&drop.drop_id).unwrap().status.code(), 2);
}

#[test]
fn batch_purge_deletes_blob_of_active_drop() {
    let now: i64 = 1_700_000_000;
    let mut sys = DropSystem::new();
    sys.put_vendor(vendor("VENDOR_A", 1));
    let drop = sys
        .create_drop(
            submission("VENDOR_A", Some(now), now + 3600, 5),
            "DROP_AAAA0007".to_string(),
            now,
        )
        .unwrap();
    let grant = sys
        .claim_new(&drop.drop_id, "u1".to_string(), None, now)
        .unwrap();

    let results = sys.batch_purge("VENDOR_A", &vec![drop.drop_id.clone()], now + 5);
    assert_eq!(results, vec![(drop.drop_id.clone(), true)]);
    let row = sys.get_drop(&drop.drop_id).unwrap();
    assert_eq!(row.status.code(), 3);
    assert_eq!(row.ended_at, Some(now + 5));

    // The window is still open, so the claim passes every check except the
    // blob itself, which is gone.
    let err = sys
        .download(&drop.drop_id, Some(&grant.claim_id), now + 10)
        .unwrap_err();
    assert_eq!(err, DropError::BlobMissing);
    assert_eq!(err.http_status(), 500);
}

#[test]
fn batch_end_reports_per_drop_outcomes() {
    let now: i64 = 1_700_000_000;
    let mut sys = DropSystem::new();
    sys.put_vendor(vendor("VENDOR_A", 1));
    let active = sys
        .create_drop(
            submission("VENDOR_A", Some(now), now + 3600, 5),
            "DROP_AAAA0008".to_string(),
            now,
        )
        .unwrap();
    let ended = sys
        .create_drop(
            submission("VENDOR_A", None, now - 1, 5),
            "DROP_AAAA0009".to_string(),
            now,
        )
        .unwrap();
    sys.expire_sweep(now); // ends the second drop

    let results = sys.batch_end(
        "VENDOR_A",
        &vec![active.drop_id.clone(), ended.drop_id.clone()],
        now + 1,
    );
    assert_eq!(
        results,
        vec![(active.drop_id.clone(), true), (ended.drop_id.clone(), false)]
    );
    assert_eq!(sys.get_drop(&active.drop_id).unwrap().status.code(), 2);
}

#[test]
fn batch_end_ignores_other_vendors_drops() {
    let now: i64 = 1_700_000_000;
    let mut sys = DropSystem::new();
    sys.put_vendor(vendor("VENDOR_A", 1));
    sys.put_vendor(vendor("VENDOR_B", 1));
    let foreign = sys
        .create_drop(
            submission("VENDOR_B", Some(now), now + 3600, 5),
            "DROP_AAAA0010".to_string(),
            now,
        )
        .unwrap();

    let results = sys.batch_end("VENDOR_A", &vec![foreign.drop_id.clone()], now + 1);
    assert_eq!(results, vec![(foreign.drop_id.clone(), false)]);
    assert_eq!(sys.get_drop(&foreign.drop_id).unwrap().status.code(), 1);
}

#[test]
fn claim_after_window_closes_is_rejected() {
    let now: i64 = 1_700_000_000;
    let mut sys = DropSystem::new();
    sys.put_vendor(vendor("VENDOR_A", 1));
    let drop = sys
        .create_drop(
            submission("VENDOR_A", Some(now), now + 10, 5),
            "DROP_AAAA0011".to_string(),
            now,
        )
        .unwrap();
    let err = sys
        .claim_new(&drop.drop_id, "u1".to_string(), None, now + 10)
        .unwrap_err();
    assert_eq!(err, DropError::Expired);
    assert_eq!(err.message(), "Drop has expired".to_string());
}

#[test]
fn claim_on_ended_drop_is_rejected() {
    let now: i64 = 1_700_000_000;
    let mut sys = DropSystem::new();
    sys.put_vendor(vendor("VENDOR_A", 1));
    let drop = sys
        .create_drop(
            submission("VENDOR_A", Some(now), now + 3600, 5),
            "DROP_AAAA0012".to_string(),
            now,
        )
        .unwrap();
    sys.batch_end("VENDOR_A", &vec![drop.drop_id.clone()], now + 1);
    let err = sys
        .claim_new(&drop.drop_id, "u1".to_string(), None, now + 2)
        .unwrap_err();
    assert_eq!(err, DropError::AlreadyEnded);
    assert_eq!(err.message(), "Drop has ended".to_string());
}

#[test]
fn claim_on_unknown_drop_is_not_found() {
    let now: i64 = 1_700_000_000;
    let mut sys = DropSystem::new();
    let err = sys
        .claim_new("DROP_MISSING1", "u1".to_string(), None, now)
        .unwrap_err();
    assert_eq!(err, DropError::NotFound);
    assert_eq!(err.http_status(), 404);
}

#[test]
fn counter_never_exceeds_capacity() {
    let now: i64 = 1_700_000_000;
    let mut sys = DropSystem::new();
    sys.put_vendor(vendor("VENDOR_A", 1));
    let drop = sys
        .create_drop(
            submission("VENDOR_A", Some(now), now + 3600, 2),
            "DROP_AAAA0013".to_string(),
            now,
        )
        .unwrap();
    assert!(sys.claim_new(&drop.drop_id, "u1".to_string(), None, now).is_ok());
    assert!(sys.claim_new(&drop.drop_id, "u2".to_string(), None, now).is_ok());
    assert_eq!(
        sys.claim_new(&drop.drop_id, "u3".to_string(), None, now)
            .unwrap_err(),
        DropError::SoldOut
    );
    let row = sys.get_drop(&drop.drop_id).unwrap();
    assert_eq!(row.claimed_count, 2);
    assert_eq!(row.max_claims, 2);
}
