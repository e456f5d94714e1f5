use vn_assets::stock::{map_index_symbol, VciInterval, VciSymbol};

fn listing(symbol: &str, board: &str, kind: &str, name: &str, short: Option<&str>) -> VciSymbol {
    VciSymbol {
        symbol: symbol.to_string(),
        board: board.to_string(),
        asset_type: kind.to_string(),
        organ_name: name.to_string(),
        organ_short_name: short.map(|s| s.to_string()),
        en_organ_name: None,
        listed: true,
    }
}

#[test]
fn test_vci_symbol_exchange_mapping() {
    let symbol = VciSymbol {
        symbol: "VNM".to_string(),
        board: "HSX".to_string(),
        asset_type: "STOCK".to_string(),
        organ_name: "Vinamilk".to_string(),
        organ_short_name: None,
        en_organ_name: None,
        listed: true,
    };
    assert_eq!(symbol.exchange(), "HOSE");
}

#[test]
fn test_index_symbol_mapping() {
    assert_eq!(map_index_symbol("VNINDEX"), Some("VNINDEX"));
    assert_eq!(map_index_symbol("HNXINDEX"), Some("HNXIndex"));
    assert_eq!(map_index_symbol("UNKNOWN"), None);
}

#[test]
fn index_symbol_mapping_ignores_case() {
    assert_eq!(map_index_symbol("upcomindex"), Some("HNXUpcomIndex"));
    assert_eq!(map_index_symbol("vnIndex"), Some("VNINDEX"));
}

#[test]
fn other_boards_pass_through() {
    assert_eq!(listing("ACB", "HNX", "STOCK", "ACB Bank", None).exchange(), "HNX");
    assert_eq!(listing("BSR", "UPCOM", "STOCK", "Binh Son", None).exchange(), "UPCOM");
}

#[test]
fn stock_flag_and_display_name() {
    let s = listing("FPT", "HSX", "STOCK", "FPT Corporation", Some("FPT Corp"));
    assert!(s.is_stock());
    assert_eq!(s.display_name(), "FPT Corp");
    let b = listing("BND1", "HNX", "BOND", "Some Bond", None);
    assert!(!b.is_stock());
    assert_eq!(b.display_name(), "Some Bond");
}

#[test]
fn interval_api_values() {
    assert_eq!(VciInterval::OneMinute.as_api_value(), "ONE_MINUTE");
    assert_eq!(VciInterval::OneHour.as_api_value(), "ONE_HOUR");
    assert_eq!(VciInterval::OneDay.as_api_value(), "ONE_DAY");
}
