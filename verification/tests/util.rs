use ctrader_openapi::builder::ClientBuilder;
use ctrader_openapi::client::historical::{
    increment_of, is_bars_window, is_week_window, CashFlowHistoryListReq, DealListByPositionIdReq, DealListReq,
    OrderListReq, TickDataReq, TrendBarsReq,
};
use ctrader_openapi::client::Session;
use ctrader_openapi::credentials::{AccountCredentials, ApplicationCredentials};
use ctrader_openapi::error::Error;
use ctrader_openapi::options::ServerUrl;
use ctrader_openapi::util::bar_gen::{BarGenerator, Candle, Quote, SpotEvent};
use ctrader_openapi::util::conv::{convert_trendbar, price_at, RawTrendbar, TrendBar};
use ctrader_openapi::util::download::{can_save, next_window, save_bar, DownloadWindow, Kline};
use ctrader_openapi::util::session_config::SessionConfig;
use ctrader_openapi::util::symbol_info::{
    enabled_symbol_ids, get_symbol_infos, Asset, AssetClass, LightSymbol, SpotwareSymbolInfo, SymbolCategory,
    SymbolEntity,
};

fn session() -> Session {
    let mut b = ClientBuilder::default();
    b.set_url(ServerUrl { scheme: "tls".to_string(), host: Some("h".to_string()), port: None }).unwrap();
    b.set_application_credentials(ApplicationCredentials { client_id: "X".to_string(), client_secret: "Y".to_string() });
    b.set_account_credentials(AccountCredentials {
        account_id: 7,
        access_token: "a".to_string(),
        token_type: "t".to_string(),
        expires_in: 1,
        refresh_token: "r".to_string(),
    });
    b.build().unwrap()
}

#[test]
fn week_window_limits() {
    assert!(is_week_window(0, 604_800_000));
    assert!(!is_week_window(0, 604_800_001));
    assert!(!is_week_window(-1, 10));
    assert!(is_week_window(2_147_483_645_999 - 604_800_000, 2_147_483_645_999));
    assert!(!is_week_window(2_147_483_646_000 - 604_800_000, 2_147_483_646_000));
    // an end before the start is not too long
    assert!(is_week_window(10, 5));
    assert!(is_week_window(i64::MAX, i64::MIN));
}

#[test]
fn bars_window_depends_on_the_period() {
    assert!(is_bars_window(1, 0, 302_400_000));
    assert!(!is_bars_window(5, 0, 302_400_001));
    assert!(is_bars_window(6, 0, 21_168_000_000));
    assert!(!is_bars_window(9, 0, 21_168_000_001));
    assert!(is_bars_window(10, 0, 31_622_400_000));
    assert!(!is_bars_window(12, 0, 31_622_400_001));
    assert!(is_bars_window(13, 0, 158_112_000_000));
    assert!(!is_bars_window(14, 0, 158_112_000_001));
    assert!(!is_bars_window(15, 0, 1));
    assert!(is_bars_window(0, 0, 1));
    assert!(is_bars_window(-3, 5, 6));
    assert!(!is_bars_window(1, -1, 6));
    assert!(!is_bars_window(1, 0, 2_147_483_646_000));
}

#[test]
fn historical_requests_carry_the_account() {
    let s = session();
    assert_eq!(s.make_order_list_req(1, 2), OrderListReq { account_id: 7, from_timestamp: 1, to_timestamp: 2 });
    assert_eq!(s.make_deal_list_req(1, 2, Some(10)), DealListReq { account_id: 7, from_timestamp: 1, to_timestamp: 2, max_rows: Some(10) });
    assert_eq!(s.make_cash_flow_history_list_req(1, 2), CashFlowHistoryListReq { account_id: 7, from_timestamp: 1, to_timestamp: 2 });
    assert_eq!(
        s.make_trend_bars_req(1, 2, 9, 41, None),
        TrendBarsReq { account_id: 7, from_timestamp: 1, to_timestamp: 2, period: 9, symbol_id: 41, count: None }
    );
    assert_eq!(
        s.make_tick_data_req(41, 1, 1, 2),
        TickDataReq { account_id: 7, symbol_id: 41, quote_type: 1, from_timestamp: 1, to_timestamp: 2 }
    );
    assert_eq!(
        s.deal_list_position_id(5, 1, 2),
        DealListByPositionIdReq { account_id: 7, position_id: 5, from_timestamp: 1, to_timestamp: 2 }
    );
}

#[test]
fn download_increment_by_period() {
    for p in 1..=5 {
        assert_eq!(increment_of(p), Ok(302_400_000));
    }
    for p in 6..=9 {
        assert_eq!(increment_of(p), Ok(21_168_000_000));
    }
    for p in 10..=12 {
        assert_eq!(increment_of(p), Ok(31_622_400_000));
    }
    for p in 13..=14 {
        assert_eq!(increment_of(p), Ok(158_112_000_000));
    }
    for p in [0, -1, 15, i32::MAX, i32::MIN] {
        assert_eq!(increment_of(p), Err(Error::PeriodParamError(p)));
    }
}

#[test]
fn download_walks_in_windows() {
    let mut from = Some(0i64);
    let mut windows = Vec::new();
    while let Some(f) = from {
        match next_window(f, 250, 100) {
            Some(w) => {
                windows.push((w.from_timestamp, w.to_timestamp));
                from = w.next_from;
            }
            None => from = None,
        }
    }
    assert_eq!(windows, vec![(0, 100), (100, 200), (200, 250)]);
    assert_eq!(next_window(0, 200, 100), Some(DownloadWindow { from_timestamp: 0, to_timestamp: 100, next_from: Some(100) }));
    assert_eq!(next_window(100, 200, 100), Some(DownloadWindow { from_timestamp: 100, to_timestamp: 200, next_from: None }));
    assert_eq!(next_window(200, 200, 100), None);
    assert_eq!(next_window(300, 200, 100), None);
    assert_eq!(
        next_window(i64::MAX - 5, i64::MAX, 100),
        Some(DownloadWindow { from_timestamp: i64::MAX - 5, to_timestamp: i64::MAX, next_from: None })
    );
    assert_eq!(
        next_window(i64::MIN, i64::MAX, 1),
        Some(DownloadWindow { from_timestamp: i64::MIN, to_timestamp: i64::MIN + 1, next_from: Some(i64::MIN + 1) })
    );
}

fn bar(minutes: u32, low: i64, open: u64, high: u64, close: Option<u64>, volume: i64) -> RawTrendbar {
    RawTrendbar {
        volume,
        period: Some(1),
        low: Some(low),
        delta_open: Some(open),
        delta_close: close,
        delta_high: Some(high),
        utc_timestamp_in_minutes: Some(minutes),
    }
}

#[test]
fn trendbar_prices_are_low_plus_delta() {
    assert_eq!(
        convert_trendbar(bar(28294650, 105374, 8, 10, None, 50)),
        Some(TrendBar { period: 1, time: 28294650 * 60, open: 105382, high: 105384, low: 105374, close: 105374, vol: 50 })
    );
    assert_eq!(
        convert_trendbar(bar(1, -5, 2, 9, Some(4), -1)),
        Some(TrendBar { period: 1, time: 60, open: -3, high: 4, low: -5, close: -1, vol: u64::MAX })
    );
    let mut lacking = bar(1, 1, 1, 1, None, 1);
    lacking.low = None;
    assert_eq!(convert_trendbar(lacking), None);
    let mut lacking = bar(1, 1, 1, 1, None, 1);
    lacking.period = None;
    assert_eq!(convert_trendbar(lacking), None);
    let mut lacking = bar(1, 1, 1, 1, None, 1);
    lacking.utc_timestamp_in_minutes = None;
    assert_eq!(convert_trendbar(lacking), None);
    assert_eq!(price_at(i64::MAX, Some(1)), i64::MIN);
    assert_eq!(price_at(-1, Some(u64::MAX)), -2);
    assert_eq!(price_at(5, None), 5);
}

#[test]
fn save_bar_stops_at_the_window_end_and_skips_repeats() {
    let bars = vec![bar(1, 100, 1, 2, Some(1), 5), bar(1, 200, 1, 2, Some(1), 6), bar(2, 300, 0, 0, None, 7), bar(3, 400, 0, 0, None, 8), bar(2, 1, 0, 0, None, 9)];
    let mut candles = Vec::new();
    save_bar(&bars, &mut candles, 180_000);
    assert_eq!(
        candles,
        vec![
            Kline { timestamp: 60, open: 101, high: 102, low: 100, close: 101, vol: 5 },
            Kline { timestamp: 120, open: 300, high: 300, low: 300, close: 300, vol: 7 },
        ]
    );
    // the next answer starts with the bar that ended the last one
    save_bar(&vec![bar(2, 9, 0, 0, None, 1), bar(3, 400, 0, 0, None, 8)], &mut candles, 240_000);
    assert_eq!(candles.len(), 3);
    assert_eq!(candles[2], Kline { timestamp: 180, open: 400, high: 400, low: 400, close: 400, vol: 8 });
    save_bar(&Vec::new(), &mut candles, 0);
    assert_eq!(candles.len(), 3);
}

#[test]
fn an_answer_is_readable_up_to_the_window_end() {
    let good = bar(1, 100, 1, 2, None, 5);
    let mut no_low = good;
    no_low.low = None;
    let mut no_time = good;
    no_time.utc_timestamp_in_minutes = None;
    assert!(can_save(&vec![], 0));
    assert!(can_save(&vec![good, good], 120_000));
    assert!(!can_save(&vec![good, no_low], 120_000));
    assert!(!can_save(&vec![good, no_time], 120_000));
    // a bar at or after the end needs only its time, and what follows it is not read
    assert!(can_save(&vec![no_low, no_time], 60_000));
    assert!(!can_save(&vec![no_time], 0));
    let mut candles = Vec::new();
    save_bar(&vec![no_low, no_time], &mut candles, 60_000);
    assert!(candles.is_empty());
}

#[test]
fn api_periods_in_minutes() {
    let expected = [0u32, 1, 2, 3, 4, 5, 10, 15, 30, 60, 240, 720, 1440, 10080, 0, 0];
    for (api, minutes) in expected.iter().enumerate() {
        assert_eq!(BarGenerator::map_api_period_to_minutes(api as u32), *minutes);
    }
    assert_eq!(BarGenerator::map_api_period_to_minutes(u32::MAX), 0);
}

fn tick(bid: Option<u64>, ask: Option<u64>, timestamp: i64) -> SpotEvent {
    SpotEvent { bid, ask, trendbar: vec![], timestamp: Some(timestamp) }
}

#[test]
fn bar_generator_aggregates_events() {
    let mut g = BarGenerator::new(1);
    assert_eq!(g.period(), 1);
    // first event, with the bar of its minute
    let mut e = tick(Some(105376), Some(105380), 60_000 * 100 + 5);
    e.trendbar = vec![bar(100, 105374, 8, 10, None, 50)];
    assert!(g.accepts(&e));
    assert_eq!(g.update(&e), (Quote { timestamp: 6_000_005, ask: 105380, bid: 105376 }, None));
    // same minute, ask only
    let mut e = tick(None, Some(105381), 60_000 * 100 + 900);
    e.trendbar = vec![bar(100, 105370, 12, 14, None, 3)];
    assert_eq!(g.update(&e), (Quote { timestamp: 6_000_900, ask: 105381, bid: 105376 }, None));
    // next minute closes the candle; its close is the bid of this event, and
    // the counters began anew with the first event
    let mut e = tick(Some(105390), None, 60_000 * 101);
    e.trendbar = vec![bar(101, 105388, 2, 2, None, 1)];
    let (quote, candle) = g.update(&e);
    assert_eq!(quote, Quote { timestamp: 6_060_000, ask: 105381, bid: 105390 });
    assert_eq!(
        candle,
        Some(Candle { timestamp: 6_000_000, open: 105382, high: 105384, low: 105370, close: 105390, vol: 53, num_asks: 1, num_bids: 1 })
    );
    // without trend bar the time of the event counts, in units of the period
    let (_, candle) = g.update(&tick(Some(1), Some(2), 60_000 * 102 + 59_999));
    assert_eq!(
        candle,
        Some(Candle { timestamp: 6_060_000, open: 105390, high: 105390, low: 105388, close: 1, vol: 1, num_asks: 1, num_bids: 1 })
    );
    assert_eq!(g.update(&tick(None, None, 60_000 * 102)).1, None);
}

#[test]
fn bar_generator_needs_time_and_period() {
    let g = BarGenerator::new(0);
    assert!(!g.accepts(&tick(Some(1), Some(1), 5)));
    let mut e = tick(Some(1), Some(1), 5);
    e.trendbar = vec![bar(1, 1, 1, 1, None, 1)];
    assert!(g.accepts(&e));
    e.trendbar[0].low = None;
    assert!(!g.accepts(&e));
    let g = BarGenerator::new(5);
    let mut e = tick(None, None, 0);
    assert!(g.accepts(&e));
    e.timestamp = None;
    assert!(!g.accepts(&e));
}

#[test]
fn bar_generator_rounds_negative_times_towards_zero() {
    let mut g = BarGenerator::new(7);
    // -1 ms is in unit 0: no candle was begun, none is closed
    assert_eq!(g.update(&tick(Some(1), None, -1)), (Quote { timestamp: -1, ask: 0, bid: 1 }, None));
    // -(7 * 60_000) ms is unit -1, which wraps to u32::MAX
    let (_, candle) = g.update(&tick(Some(2), None, -420_000));
    assert_eq!(candle, None);
    let (_, candle) = g.update(&tick(Some(3), None, 0));
    assert_eq!(candle.map(|c| c.timestamp), Some(u32::MAX as i64 * 60_000));
    let mut g = BarGenerator::new(1);
    assert_eq!(g.update(&tick(None, None, i64::MIN)).1, None);
}

fn light(id: i64, name: &str, enabled: bool, base: i64, quote: i64, category: i64) -> LightSymbol {
    LightSymbol { symbol_id: id, symbol_name: name.to_string(), enabled, base_asset_id: base, quote_asset_id: quote, symbol_category_id: category }
}

#[test]
fn symbols_are_joined_and_sorted() {
    let classes = vec![AssetClass { id: 1, name: "Forex".to_string() }, AssetClass { id: 2, name: "Metals".to_string() }];
    let assets = vec![Asset { asset_id: 10, digits: 2 }, Asset { asset_id: 11, digits: 2 }, Asset { asset_id: 12, digits: 258 }];
    let categories = vec![SymbolCategory { id: 100, asset_class_id: 1 }, SymbolCategory { id: 200, asset_class_id: 2 }];
    let symbols = vec![light(41, "XAUUSD", true, 12, 11, 200), light(3, "OLD", false, 99, 99, 999), light(1, "EURUSD", true, 10, 11, 100)];
    assert_eq!(enabled_symbol_ids(&symbols), vec![41, 1]);
    let entities = vec![SymbolEntity { symbol_id: 1, encoded: vec![1] }, SymbolEntity { symbol_id: 41, encoded: vec![41] }];
    let infos = get_symbol_infos(&classes, &assets, &categories, &symbols, &entities).unwrap();
    assert_eq!(
        infos,
        vec![
            SpotwareSymbolInfo {
                name: "EURUSD".to_string(),
                asset_class: "Forex".to_string(),
                info: SymbolEntity { symbol_id: 1, encoded: vec![1] },
                base_decimals: 2,
                quote_decimals: 2,
            },
            SpotwareSymbolInfo {
                name: "XAUUSD".to_string(),
                asset_class: "Metals".to_string(),
                info: SymbolEntity { symbol_id: 41, encoded: vec![41] },
                base_decimals: 2,
                quote_decimals: 2,
            },
        ]
    );
    // a dangling reference of an enabled symbol
    assert_eq!(get_symbol_infos(&classes, &assets, &categories, &symbols, &entities[..1].to_vec()), None);
    assert_eq!(get_symbol_infos(&classes, &assets[..2].to_vec(), &categories, &symbols, &entities), None);
    assert_eq!(get_symbol_infos(&classes, &assets, &categories[..1].to_vec(), &symbols, &entities), None);
    assert_eq!(get_symbol_infos(&classes[..1].to_vec(), &assets, &categories, &symbols, &entities), None);
    assert_eq!(get_symbol_infos(&classes, &assets, &categories, &Vec::new(), &entities), Some(vec![]));
}

#[test]
fn later_list_entry_wins_and_equal_ids_keep_their_order() {
    let classes = vec![AssetClass { id: 1, name: "A".to_string() }, AssetClass { id: 1, name: "B".to_string() }];
    let assets = vec![Asset { asset_id: 10, digits: 1 }, Asset { asset_id: 10, digits: 3 }];
    let categories = vec![SymbolCategory { id: 100, asset_class_id: 9 }, SymbolCategory { id: 100, asset_class_id: 1 }];
    let entities = vec![SymbolEntity { symbol_id: 5, encoded: vec![0] }, SymbolEntity { symbol_id: 5, encoded: vec![1] }, SymbolEntity { symbol_id: 2, encoded: vec![2] }];
    let symbols = vec![light(5, "first", true, 10, 10, 100), light(2, "two", true, 10, 10, 100), light(5, "second", true, 10, 10, 100)];
    let infos = get_symbol_infos(&classes, &assets, &categories, &symbols, &entities).unwrap();
    let names: Vec<&str> = infos.iter().map(|i| i.name.as_str()).collect();
    assert_eq!(names, vec!["two", "first", "second"]);
    assert_eq!(infos[1].asset_class, "B");
    assert_eq!(infos[1].base_decimals, 3);
    assert_eq!(infos[1].info.encoded, vec![1]);
}

#[test]
fn session_config_holds_credentials_and_url() {
    let c = SessionConfig {
        application_credentials: ApplicationCredentials { client_id: "X".to_string(), client_secret: "Y".to_string() },
        account_credentials: AccountCredentials { account_id: 1, access_token: "a".to_string(), token_type: "t".to_string(), expires_in: 2, refresh_token: "r".to_string() },
        server_url: "tls://h:1".to_string(),
    };
    assert_eq!(c.clone(), c);
    assert_eq!(c.account_credentials.duplicate(), c.account_credentials);
    assert_eq!(c.application_credentials.duplicate(), c.application_credentials);
}
