use vn_assets::asset::AssetType;
use vn_assets::stock::VciSymbol;
use vn_assets::sync::{classify_symbol, normalize_funds, normalize_symbols, FundListing, VnAssetsSyncService};

fn listing(symbol: &str, board: &str, kind: &str, listed: bool) -> VciSymbol {
    VciSymbol {
        symbol: symbol.to_string(),
        board: board.to_string(),
        asset_type: kind.to_string(),
        organ_name: format!("{} full", symbol),
        organ_short_name: Some(format!("{} short", symbol)),
        en_organ_name: None,
        listed,
    }
}

fn fund(code: &str) -> FundListing {
    FundListing { short_name: code.to_string(), name: format!("{} Fund", code) }
}

#[test]
fn classification_rules() {
    assert_eq!(classify_symbol(&listing("VNINDEX", "HSX", "BOND", true)), Some(AssetType::Index));
    assert_eq!(classify_symbol(&listing("HNXINDEX", "HNX", "INDEX", true)), Some(AssetType::Index));
    assert_eq!(classify_symbol(&listing("VN30", "HSX", "ETF", true)), Some(AssetType::Index));
    assert_eq!(classify_symbol(&listing("FPT", "HSX", "STOCK", true)), Some(AssetType::Stock));
    assert_eq!(classify_symbol(&listing("E1VFVN30", "HSX", "ETF", true)), None);
    assert_eq!(classify_symbol(&listing("FPT", "HSX", "STOCK", false)), None);
}

#[test]
fn normalizing_symbols() {
    let out = normalize_symbols(&vec![
        listing("FPT", "HSX", "STOCK", true),
        listing("BND", "HNX", "BOND", true),
        listing("VNINDEX", "HSX", "INDEX", true),
        listing("VNM", "HSX", "STOCK", true),
    ]);
    assert_eq!(out.len(), 3);
    assert_eq!(out[0].symbol, "FPT");
    assert_eq!(out[0].exchange, "HOSE");
    assert_eq!(out[0].name, "FPT short");
    assert_eq!(out[0].asset_type, AssetType::Stock);
    assert_eq!(out[1].symbol, "VNINDEX");
    assert_eq!(out[1].asset_type, AssetType::Index);
    // the prefix heuristic classes every "VN" ticker as an index
    assert_eq!(out[2].asset_type, AssetType::Index);
}

#[test]
fn normalizing_funds() {
    let out = normalize_funds(&vec![fund("DCDS")]);
    assert_eq!(out.len(), 1);
    assert_eq!(out[0].symbol, "DCDS");
    assert_eq!(out[0].name, "DCDS Fund");
    assert_eq!(out[0].exchange, "FUND");
    assert_eq!(out[0].asset_type, AssetType::Fund);
    assert_eq!(out[0].currency, "VND");
}

#[test]
fn failed_source_does_not_stop_the_run() {
    let mut svc = VnAssetsSyncService::new();
    let funds = vec![fund("F1"), fund("F2"), fund("F3"), fund("F4"), fund("F5")];
    let r = svc.sync_all_assets_at(Err("listing unavailable".to_string()), Ok(funds), "2024-01-01T00:00:00+00:00");
    assert_eq!(r.total_synced, 5);
    assert_eq!(r.timestamp, "2024-01-01T00:00:00+00:00");
    let m = svc.metadata.as_ref().unwrap();
    assert_eq!(m.sync_count, 5);
    assert_eq!(m.last_synced_at, "2024-01-01T00:00:00+00:00");
    assert_eq!(m.id, "vn_assets_sync_status");
    assert_eq!(svc.get_asset_count(), 5);
}

#[test]
fn all_sources_failing_still_records_the_run() {
    let mut svc = VnAssetsSyncService::new();
    let r = svc.sync_all_assets_at(Err("a".to_string()), Err("b".to_string()), "t1");
    assert_eq!(r.total_synced, 0);
    assert_eq!(svc.metadata.as_ref().unwrap().sync_count, 0);
}

#[test]
fn repeated_runs_converge() {
    let mut svc = VnAssetsSyncService::new();
    let stocks = vec![listing("VNM", "HSX", "STOCK", true), listing("VNINDEX", "HSX", "INDEX", true)];
    let funds = vec![fund("F1")];
    svc.sync_all_assets_at(Ok(stocks.clone()), Ok(funds.clone()), "t1");
    let r = svc.sync_all_assets_at(Ok(stocks), Ok(funds), "t2");
    assert_eq!(r.total_synced, 3);
    assert_eq!(svc.get_asset_count(), 3);
    let a = svc.repository.get_by_symbol("VNM").unwrap();
    assert_eq!(a.created_at, "t1");
    assert_eq!(a.updated_at, "t2");
    let m = svc.metadata.as_ref().unwrap();
    assert_eq!(m.created_at, "t1");
    assert_eq!(m.last_synced_at, "t2");
}

#[test]
fn sync_with_current_time_stamps_the_result() {
    let mut svc = VnAssetsSyncService::new();
    let r = svc.sync_all_assets(Err("down".to_string()), Ok(vec![fund("F1")]));
    assert_eq!(r.total_synced, 1);
    assert!(!r.timestamp.is_empty());
    assert_eq!(svc.metadata.as_ref().unwrap().last_synced_at, r.timestamp);
}
