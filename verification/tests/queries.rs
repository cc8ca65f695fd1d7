//! Listing queries, ordering, the vendor table, and the marketplace data
//! shapes.

use drop_ledger::models::{default_currency, default_env, default_qty, default_role, default_supply,
    listing_to_response, Listing, Vendor};
use drop_ledger::system::{DropSubmission, DropSystem};

fn live_vendor(stable_id: &str) -> Vendor {
    Vendor {
        stable_id: stable_id.to_string(),
        latest_object_id: None,
        owner: None,
        mode: 0,
        manifest_url: None,
        manifest_sha256: None,
        profile_seq: 0,
        status: 0,
        env: "devnet".to_string(),
        run_id: None,
        created_at_ms: None,
        updated_at_ms: None,
        is_alive: 1,
    }
}

fn quick_submission(vendor_id: &str, end_at: i64) -> DropSubmission {
    DropSubmission {
        vendor_stable_id: Some(vendor_id.to_string()),
        artist_stable_id: None,
        artist_name: Some("Artist".to_string()),
        title: Some("Title".to_string()),
        description: None,
        start_at: None,
        end_at: Some(end_at),
        max_claims: Some(3),
        env: "devnet".to_string(),
        audio: Some(vec![1u8]),
        audio_filename: None,
        audio_mime: None,
        cover: None,
        cover_filename: None,
    }
}

#[test]
fn listing_is_newest_first_and_scoped_to_the_vendor() {
    let base: i64 = 1_700_000_000;
    let mut sys = DropSystem::new();
    sys.put_vendor(live_vendor("VENDOR_A"));
    sys.put_vendor(live_vendor("VENDOR_B"));
    sys.create_drop(quick_submission("VENDOR_A", base + 9000), "DROP_Q0000001".to_string(), base)
        .unwrap();
    sys.create_drop(
        quick_submission("VENDOR_A", base + 9000),
        "DROP_Q0000002".to_string(),
        base + 10,
    )
    .unwrap();
    sys.create_drop(
        quick_submission("VENDOR_B", base + 9000),
        "DROP_Q0000003".to_string(),
        base + 20,
    )
    .unwrap();

    let rows = sys.list_drops("VENDOR_A", None, base + 30);
    let ids: Vec<&str> = rows.iter().map(|d| d.drop_id.as_str()).collect();
    assert_eq!(ids, vec!["DROP_Q0000002", "DROP_Q0000001"]);
}

#[test]
fn listing_runs_the_lazy_expiry_sweep() {
    let base: i64 = 1_700_000_000;
    let mut sys = DropSystem::new();
    sys.put_vendor(live_vendor("VENDOR_A"));
    sys.create_drop(quick_submission("VENDOR_A", base + 5), "DROP_Q0000004".to_string(), base)
        .unwrap();

    let rows = sys.list_drops("VENDOR_A", None, base + 100);
    assert_eq!(rows.len(), 1);
    assert_eq!(rows[0].status.code(), 2);
    assert_eq!(rows[0].ended_at, Some(base + 100));
}

#[test]
fn listing_filters_by_status_and_hides_purged_by_default() {
    let base: i64 = 1_700_000_000;
    let grace: i64 = 100;
    let mut sys = DropSystem::new();
    sys.put_vendor(live_vendor("VENDOR_A"));
    sys.create_drop(quick_submission("VENDOR_A", base + 9000), "DROP_Q0000005".to_string(), base)
        .unwrap();
    sys.create_drop(quick_submission("VENDOR_A", base + 5), "DROP_Q0000006".to_string(), base)
        .unwrap();
    sys.expire_sweep(base + 10);
    sys.purge_sweep(base + 10 + grace + 1, grace);

    let default_rows = sys.list_drops("VENDOR_A", None, base + 200);
    let ids: Vec<&str> = default_rows.iter().map(|d| d.drop_id.as_str()).collect();
    assert_eq!(ids, vec!["DROP_Q0000005"]);

    let purged_rows = sys.list_drops("VENDOR_A", Some(3), base + 200);
    let ids: Vec<&str> = purged_rows.iter().map(|d| d.drop_id.as_str()).collect();
    assert_eq!(ids, vec!["DROP_Q0000006"]);

    let active_rows = sys.list_drops("VENDOR_A", Some(1), base + 200);
    let ids: Vec<&str> = active_rows.iter().map(|d| d.drop_id.as_str()).collect();
    assert_eq!(ids, vec!["DROP_Q0000005"]);
}

#[test]
fn replacing_a_vendor_changes_its_liveness() {
    let base: i64 = 1_700_000_000;
    let mut sys = DropSystem::new();
    sys.put_vendor(live_vendor("VENDOR_A"));
    assert!(sys
        .create_drop(quick_submission("VENDOR_A", base + 10), "DROP_Q0000007".to_string(), base)
        .is_ok());

    let mut delisted = live_vendor("VENDOR_A");
    delisted.is_alive = 0;
    sys.put_vendor(delisted);
    assert!(sys
        .create_drop(quick_submission("VENDOR_A", base + 10), "DROP_Q0000008".to_string(), base)
        .is_err());
}

#[test]
fn listing_response_mirrors_the_row() {
    let l = Listing {
        listing_id: "L1".to_string(),
        vendor_stable_id: "VENDOR_A".to_string(),
        vendor_object_id: Some("0xabc".to_string()),
        seller: None,
        item_type: 1,
        item_id: Some("ALBUM_1".to_string()),
        price: 500,
        currency: default_currency(),
        supply_total: default_supply(),
        supply_remaining: 1,
        status: 0,
        env: default_env(),
        run_id: None,
        created_at_ms: Some(1),
        updated_at_ms: Some(2),
        is_alive: 1,
        manifest_id: None,
        title: Some("Album".to_string()),
        artist: Some("Artist".to_string()),
        cover_url: None,
    };
    let r = listing_to_response(&l);
    assert_eq!(r.listing_id, "L1");
    assert_eq!(r.vendor_stable_id, "VENDOR_A");
    assert_eq!(r.item_type, 1);
    assert_eq!(r.price, 500);
    assert_eq!(r.currency, "SUI");
    assert_eq!(r.supply_total, 1);
    assert!(r.is_alive);
    assert_eq!(r.title.as_deref(), Some("Album"));
}

#[test]
fn request_defaults_match_the_platform_conventions() {
    assert_eq!(default_currency(), "SUI");
    assert_eq!(default_supply(), 1);
    assert_eq!(default_qty(), 1);
    assert_eq!(default_env(), "devnet");
    assert_eq!(default_role(), "main");
}
