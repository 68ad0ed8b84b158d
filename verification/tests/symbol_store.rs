use ctrader_openapi::util::symbol_info::{SpotwareSymbolInfo, SymbolEntity};
use ctrader_openapi::util::symbol_store::SymbolStore;

fn symbol(name: &str, id: i64) -> SpotwareSymbolInfo {
    SpotwareSymbolInfo {
        name: name.to_string(),
        asset_class: "Forex".to_string(),
        info: SymbolEntity { symbol_id: id, encoded: vec![id as u8] },
        base_decimals: 2,
        quote_decimals: 5,
    }
}

#[test]
fn empty_store_finds_nothing() {
    let s = SymbolStore::new();
    assert!(s.get_ids().is_empty());
    assert_eq!(s.get_name_by_id(1), None);
    assert_eq!(s.get_id_by_name("EURUSD"), None);
    assert_eq!(s.get_info_by_name("EURUSD"), None);
    assert_eq!(s.get_info_by_id(1), None);
}

#[test]
fn store_looks_up_by_name_and_id() {
    let s = SymbolStore::build_from_symbol_infos(vec![symbol("EURUSD", 1), symbol("GBPUSD", 2), symbol("XAUUSD", 41)]);
    assert_eq!(s.get_ids(), vec![1, 2, 41]);
    let s = SymbolStore::build_from_symbol_infos(vec![symbol("XAUUSD", 41), symbol("EURUSD", 1), symbol("GOLD", 41), symbol("GBPUSD", 2)]);
    assert_eq!(s.get_ids(), vec![41, 1, 2]);
    let s = SymbolStore::build_from_symbol_infos(vec![symbol("EURUSD", 1), symbol("GBPUSD", 2), symbol("XAUUSD", 41)]);
    assert_eq!(s.get_name_by_id(2), Some(&"GBPUSD".to_string()));
    assert_eq!(s.get_id_by_name("XAUUSD"), Some(41));
    assert_eq!(s.get_info_by_name("EURUSD"), Some(&symbol("EURUSD", 1)));
    assert_eq!(s.get_info_by_id(41), Some(&symbol("XAUUSD", 41)));
    assert_eq!(s.get_info_by_id(3), None);
    assert_eq!(s.get_id_by_name("eurusd"), None);
}

#[test]
fn later_entry_replaces_earlier_under_the_same_key() {
    let mut s = SymbolStore::new();
    s.from_symbol_infos(&vec![symbol("EURUSD", 1), symbol("EURUSD", 7)]);
    assert_eq!(s.get_id_by_name("EURUSD"), Some(7));
    assert_eq!(s.get_name_by_id(1), Some(&"EURUSD".to_string()));
    assert_eq!(s.get_info_by_id(1), Some(&symbol("EURUSD", 7)));
    assert_eq!(s.get_ids(), vec![1, 7]);
    s.from_symbol_infos(&vec![symbol("EUR/USD", 1)]);
    assert_eq!(s.get_name_by_id(1), Some(&"EUR/USD".to_string()));
    assert_eq!(s.get_ids(), vec![1, 7]);
    assert_eq!(s.get_id_by_name("EURUSD"), Some(7));
    assert_eq!(s.get_info_by_name("EUR/USD"), Some(&symbol("EUR/USD", 1)));
}

#[test]
fn symbol_copy_is_equal() {
    let s = symbol("EURUSD", 1);
    assert_eq!(s.duplicate(), s);
}
