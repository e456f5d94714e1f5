use vn_assets::asset::{AssetType, NewVnAsset};
use vn_assets::repository::{matches_folded, VnAssetsRepository};

fn candidate(symbol: &str, name: &str, t: AssetType, exchange: &str) -> NewVnAsset {
    NewVnAsset::new(symbol.to_string(), name.to_string(), t, exchange.to_string())
}

#[test]
fn upsert_then_lookup_gives_latest_candidate() {
    let mut repo = VnAssetsRepository::new();
    let batch = vec![
        candidate("VNM", "Vinamilk", AssetType::Stock, "HOSE"),
        candidate("FPT", "FPT Corp", AssetType::Stock, "HOSE"),
        candidate("VNM", "Vinamilk JSC", AssetType::Stock, "HNX"),
    ];
    assert_eq!(repo.upsert_bulk(&batch, "t1"), 3);
    assert_eq!(repo.count(), 2);
    let a = repo.get_by_symbol("VNM").unwrap();
    assert_eq!(a.name, "Vinamilk JSC");
    assert_eq!(a.exchange, "HNX");
    assert_eq!(a.asset_type, AssetType::Stock);
    assert_eq!(a.currency, "VND");
    assert_eq!(a.created_at, "t1");
    assert!(repo.get_by_symbol("vnm").is_none());
}

#[test]
fn reapplying_a_batch_changes_only_update_time() {
    let mut repo = VnAssetsRepository::new();
    let batch = vec![
        candidate("VNM", "Vinamilk", AssetType::Stock, "HOSE"),
        candidate("VNINDEX", "VN Index", AssetType::Index, "HOSE"),
    ];
    repo.upsert_bulk(&batch, "t1");
    repo.upsert_bulk(&batch, "t2");
    assert_eq!(repo.count(), 2);
    let a = repo.get_by_symbol("VNM").unwrap();
    assert_eq!(a.name, "Vinamilk");
    assert_eq!(a.created_at, "t1");
    assert_eq!(a.updated_at, "t2");
}

#[test]
fn empty_batch_is_a_no_op() {
    let mut repo = VnAssetsRepository::new();
    assert_eq!(repo.upsert_bulk(&[], "t1"), 0);
    assert_eq!(repo.count(), 0);
}

#[test]
fn second_upsert_renames_single_row() {
    let mut repo = VnAssetsRepository::new();
    repo.upsert_bulk(&[candidate("HPG", "Hoa Phat", AssetType::Stock, "HOSE")], "t1");
    repo.upsert_bulk(&[candidate("HPG", "Hoa Phat Group", AssetType::Stock, "HOSE")], "t2");
    assert_eq!(repo.count(), 1);
    assert_eq!(repo.get_by_symbol("HPG").unwrap().name, "Hoa Phat Group");
}

#[test]
fn search_is_case_insensitive_on_symbol_and_name() {
    let mut repo = VnAssetsRepository::new();
    repo.upsert_bulk(
        &[
            candidate("VNM", "Vinamilk", AssetType::Stock, "HOSE"),
            candidate("MILK", "VNM Dairy Fund", AssetType::Fund, "FUND"),
            candidate("FPT", "FPT Corp", AssetType::Stock, "HOSE"),
        ],
        "t1",
    );
    let found = repo.search("vnm");
    let symbols: Vec<&str> = found.iter().map(|a| a.symbol.as_str()).collect();
    assert_eq!(symbols, vec!["VNM", "MILK"]);
    assert_eq!(repo.search("corp").len(), 1);
    assert_eq!(repo.search("xyz").len(), 0);
}

#[test]
fn search_returns_at_most_twenty() {
    let mut repo = VnAssetsRepository::new();
    let batch: Vec<NewVnAsset> = (0..30)
        .map(|i| candidate(&format!("VNM{}", i), "Dairy", AssetType::Stock, "HOSE"))
        .collect();
    repo.upsert_bulk(&batch, "t1");
    let found = repo.search("vnm");
    assert_eq!(found.len(), 20);
    assert_eq!(found[0].symbol, "VNM0");
    assert_eq!(found[19].symbol, "VNM19");
}

#[test]
fn folded_match_checks_both_fields() {
    assert!(matches_folded("vnm", "vnm", "vinamilk"));
    assert!(matches_folded("milk", "vnm", "vinamilk"));
    assert!(!matches_folded("fpt", "vnm", "vinamilk"));
    assert!(matches_folded("", "a", "b"));
}

#[test]
fn clear_all_empties_the_store() {
    let mut repo = VnAssetsRepository::new();
    repo.upsert_bulk(
        &[
            candidate("VNM", "Vinamilk", AssetType::Stock, "HOSE"),
            candidate("FPT", "FPT Corp", AssetType::Stock, "HOSE"),
        ],
        "t1",
    );
    assert_eq!(repo.clear_all(), 2);
    assert_eq!(repo.count(), 0);
    assert!(repo.get_by_symbol("VNM").is_none());
    assert!(repo.get_by_symbol("FPT").is_none());
}

#[test]
fn get_by_type_filters_by_class() {
    let mut repo = VnAssetsRepository::new();
    repo.upsert_bulk(
        &[
            candidate("VNM", "Vinamilk", AssetType::Stock, "HOSE"),
            candidate("VNINDEX", "VN Index", AssetType::Index, "HOSE"),
            candidate("FPT", "FPT Corp", AssetType::Stock, "HOSE"),
        ],
        "t1",
    );
    let stocks = repo.get_by_type(AssetType::Stock);
    assert_eq!(stocks.len(), 2);
    assert_eq!(stocks[1].symbol, "FPT");
    assert_eq!(repo.get_by_type(AssetType::Fund).len(), 0);
    assert_eq!(AssetType::Index.as_str(), "Index");
}
