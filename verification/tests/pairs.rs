use matrix_quant_core::order::top_liquid_pairs;
use matrix_quant_core::pairs::{
    asset_of_pair, eur_pair_listing, is_fiat_asset, is_pair_stop_order, is_stablecoin, pairs_match,
};

#[test]
fn pairs_match_legacy_codes() {
    assert!(pairs_match("XXBTZEUR", "XBTEUR"));
    assert!(pairs_match("XETHZEUR", "ETHEUR"));
    assert!(pairs_match("adaeur", "ADAEUR"));
    assert!(pairs_match("SOL/EUR", "SOL/EUR"));
    assert!(!pairs_match("ADAEUR", "DOTEUR"));
    // The 'X' is only dropped when three bytes remain after it.
    assert!(!pairs_match("XDCEUR", "DCEUR"));
}

#[test]
fn pairs_match_is_symmetric_on_examples() {
    let codes = ["XXBTZEUR", "XBTEUR", "ETHEUR", "XETHZEUR", "BT/EUR"];
    for a in codes.iter() {
        assert!(pairs_match(a, a));
        for b in codes.iter() {
            assert_eq!(pairs_match(a, b), pairs_match(b, a));
        }
    }
}

#[test]
fn eur_listing_accepts_eur_quotes() {
    let l = eur_pair_listing("XXBTZEUR", Some("ZEUR"), Some("XBT/EUR"), Some(1)).unwrap();
    assert_eq!(l.ws_name, "XBT/EUR");
    assert_eq!(l.kraken_pair, "XXBTZEUR");
    assert_eq!(l.decimals, 1);
    let l = eur_pair_listing("ADAEUR", Some("EUR"), None, None).unwrap();
    assert_eq!(l.ws_name, "ADAEUR");
    assert_eq!(l.decimals, 8);
    let l = eur_pair_listing("ADAEUR", Some("EUR"), None, Some(300)).unwrap();
    assert_eq!(l.decimals, 44);
}

#[test]
fn eur_listing_rejects_other_pairs() {
    assert!(eur_pair_listing("XXBTZUSD", Some("ZUSD"), Some("XBT/USD"), Some(1)).is_none());
    assert!(eur_pair_listing("XXBTZEUR.d", Some("ZEUR"), None, None).is_none());
    assert!(eur_pair_listing("XXBTZEUR", None, None, None).is_none());
}

#[test]
fn fiat_and_stablecoins() {
    assert!(is_fiat_asset("ZEUR"));
    assert!(is_fiat_asset("USD"));
    assert!(!is_fiat_asset("XXBT"));
    assert!(is_stablecoin("USDT/EUR"));
    assert!(is_stablecoin("STBL/EUR"));
    assert!(!is_stablecoin("BTC/EUR"));
    assert!(!is_stablecoin("usdt/eur"));
}

#[test]
fn asset_part_of_pair() {
    assert_eq!(asset_of_pair("ADA/EUR"), "ADA");
    assert_eq!(asset_of_pair("ADAEUR"), "ADAEUR");
    assert_eq!(asset_of_pair("/EUR"), "");
}

#[test]
fn stop_order_detection() {
    assert!(is_pair_stop_order("XBTEUR", "XXBTZEUR", "stop-loss", "sell"));
    assert!(!is_pair_stop_order("XBTEUR", "XXBTZEUR", "limit", "sell"));
    assert!(!is_pair_stop_order("XBTEUR", "XXBTZEUR", "stop-loss", "buy"));
    assert!(!is_pair_stop_order("ETHEUR", "XXBTZEUR", "stop-loss", "sell"));
}

fn entry(a: &str, b: &str) -> (String, String) {
    (a.to_string(), b.to_string())
}

#[test]
fn top_liquid_pairs_alphabetical() {
    let entries = vec![
        entry("SOL/EUR", "SOLEUR"),
        entry("ADA/EUR", "ADAEUR"),
        entry("XBT/EUR", "XXBTZEUR"),
        entry("DOT/EUR", "DOTEUR"),
    ];
    let r = top_liquid_pairs(&entries, 3);
    assert_eq!(r, vec![entry("ADA/EUR", "ADAEUR"), entry("DOT/EUR", "DOTEUR"), entry("SOL/EUR", "SOLEUR")]);
    let all = top_liquid_pairs(&entries, 10);
    assert_eq!(all.len(), 4);
    assert_eq!(all[3], entry("XBT/EUR", "XXBTZEUR"));
    assert!(top_liquid_pairs(&entries, 0).is_empty());
}

#[test]
fn top_liquid_pairs_orders_by_code_point() {
    let entries = vec![entry("b", "2"), entry("B", "1"), entry("é", "4"), entry("ab", "3")];
    let r = top_liquid_pairs(&entries, 4);
    let names: Vec<&str> = r.iter().map(|e| e.0.as_str()).collect();
    let mut expected: Vec<&str> = entries.iter().map(|e| e.0.as_str()).collect();
    expected.sort();
    assert_eq!(names, expected);
}
