use aura_trade::data::cache::{cache_hit, cache_step, fetch_plan, serve_after_fetch, tail, CacheStep, Exchange, FetchPlan};
use aura_trade::data::exchange_codes::{forward_next_cursor, request_limit, tf_to_bitget, tf_to_bybit};
use aura_trade::data::kline::Timeframe;
use aura_trade::data::select::select_window;
use aura_trade::data::listing::{usdt_spot_symbols, Instrument};
use aura_trade::data::okx::{okx_next_cursor, okx_request_limit, tf_to_okx, to_okx_inst_id};

#[test]
fn timeframe_codes_round_trip() {
    for t in [
        Timeframe::M1, Timeframe::M5, Timeframe::M15, Timeframe::M30, Timeframe::H1,
        Timeframe::H4, Timeframe::D1, Timeframe::W1, Timeframe::Mo1,
    ] {
        assert_eq!(Timeframe::parse(t.as_str()), Some(t));
    }
    assert_eq!(Timeframe::parse("1M"), Some(Timeframe::Mo1));
    assert_eq!(Timeframe::parse("1m"), Some(Timeframe::M1));
    assert_eq!(Timeframe::parse("2h"), None);
    assert_eq!(Timeframe::parse(""), None);
}

#[test]
fn timeframe_interval_lengths() {
    assert_eq!(Timeframe::M1.interval_ms(), 60_000);
    assert_eq!(Timeframe::H4.interval_ms(), 14_400_000);
    assert_eq!(Timeframe::D1.interval_ms(), 86_400_000);
    assert_eq!(Timeframe::Mo1.interval_ms(), 2_592_000_000);
}

#[test]
fn symbols_route_by_prefix() {
    assert_eq!(Exchange::parse_symbol("BINANCE:BTCUSDT"), (Exchange::Binance, "BTCUSDT".to_string()));
    assert_eq!(Exchange::parse_symbol("bybit:btcusdt"), (Exchange::Bybit, "BTCUSDT".to_string()));
    assert_eq!(Exchange::parse_symbol("Bitget:ethusdt"), (Exchange::Bitget, "ETHUSDT".to_string()));
    assert_eq!(Exchange::parse_symbol("OKX:SOLUSDT"), (Exchange::Okx, "SOLUSDT".to_string()));
    assert_eq!(Exchange::parse_symbol("btcusdt"), (Exchange::Binance, "BTCUSDT".to_string()));
    assert_eq!(Exchange::parse_symbol("KRAKEN:XBT"), (Exchange::Binance, "KRAKEN:XBT".to_string()));
    assert_eq!(Exchange::all(), [Exchange::Binance, Exchange::Bybit, Exchange::Bitget, Exchange::Okx]);
    assert_eq!(Exchange::Okx.as_str(), "OKX");
}

#[test]
fn okx_instrument_ids() {
    assert_eq!(to_okx_inst_id("btcusdt"), "BTC-USDT");
    assert_eq!(to_okx_inst_id("BTC-USDT"), "BTC-USDT");
    assert_eq!(to_okx_inst_id("ethbtc"), "ETHBTC");
    assert_eq!(to_okx_inst_id("USDT"), "-USDT");
}

#[test]
fn exchange_interval_codes() {
    assert_eq!(tf_to_okx(Timeframe::H4), "4H");
    assert_eq!(tf_to_okx(Timeframe::D1), "1D");
    assert_eq!(tf_to_bybit(Timeframe::H4), "240");
    assert_eq!(tf_to_bybit(Timeframe::Mo1), "M");
    assert_eq!(tf_to_bitget(Timeframe::W1), "1week");
    assert_eq!(tf_to_bitget(Timeframe::M15), "15min");
}

#[test]
fn request_sizes_are_clamped() {
    assert_eq!(request_limit(0), 1);
    assert_eq!(request_limit(500), 500);
    assert_eq!(request_limit(5000), 1000);
    assert_eq!(okx_request_limit(1000), 300);
    assert_eq!(okx_request_limit(0), 1);
}

#[test]
fn cache_freshness() {
    assert!(cache_hit(1_000, 970, 60, 500, 300));
    assert!(!cache_hit(1_000, 900, 60, 500, 300));
    assert!(!cache_hit(1_000, 970, 60, 200, 300));
    assert!(!cache_hit(i64::MAX, i64::MIN, 60, 10, 1));
}

#[test]
fn fetch_plans() {
    assert_eq!(fetch_plan(Exchange::Binance, 200, Timeframe::H1, 10_000_000), FetchPlan::Recent { count: 500 });
    assert_eq!(fetch_plan(Exchange::Bybit, 800, Timeframe::H1, 10_000_000), FetchPlan::Recent { count: 800 });
    assert_eq!(fetch_plan(Exchange::Okx, 50, Timeframe::H1, 10_000_000), FetchPlan::Recent { count: 100 });
    assert_eq!(fetch_plan(Exchange::Okx, 800, Timeframe::H1, 10_000_000), FetchPlan::Recent { count: 300 });
    // 2000 hourly candles span 7_200_000_000 ms; with a tenth more the window reaches back 7_920_000_000 ms.
    assert_eq!(
        fetch_plan(Exchange::Binance, 2000, Timeframe::H1, 10_000_000_000),
        FetchPlan::Range { start_ms: 2_080_000_000, end_ms: 10_000_000_000 }
    );
    assert_eq!(
        fetch_plan(Exchange::Okx, 2000, Timeframe::D1, 10_000_000_000),
        FetchPlan::Range { start_ms: 0, end_ms: 10_000_000_000 }
    );
}

#[test]
fn tail_keeps_the_latest_items() {
    let v = [1, 2, 3, 4, 5];
    assert_eq!(tail(&v, 2), vec![4, 5]);
    assert_eq!(tail(&v, 5), vec![1, 2, 3, 4, 5]);
    assert_eq!(tail(&v, 9), vec![1, 2, 3, 4, 5]);
    assert_eq!(tail(&v, 0), Vec::<i32>::new());
}

#[test]
fn paging_steps() {
    assert_eq!(forward_next_cursor(1_999, 5_000, 10), Some(2_000));
    assert_eq!(forward_next_cursor(5_000, 5_000, 10), None);
    assert_eq!(forward_next_cursor(1_999, 5_000, 1_000_000), None);
    assert_eq!(okx_next_cursor(10_000, 1_000, 5_000, 9_000), Some(4_999));
    assert_eq!(okx_next_cursor(10_000, 1_000, 900, 9_000), None);
    assert_eq!(okx_next_cursor(4_000, 1_000, 5_000, 9_000), None);
    assert_eq!(okx_next_cursor(10_000, 6_000, 7_000, 5_000), None);
}

#[test]
fn window_keeps_sorted_unique_candles_in_range() {
    // pages arrive newest first and overlap by one candle
    let times = [500, 400, 300, 300, 200, 100, 600, 250];
    let keep = select_window(&times, 200, 500);
    let kept: Vec<i64> = keep.iter().map(|&i| times[i]).collect();
    assert_eq!(kept, vec![200, 250, 300, 400, 500]);
    // of the two candles opening at 300 the one collected first stays
    assert_eq!(keep[2], 2);
}

#[test]
fn window_bounds_are_inclusive_and_empty_input_gives_nothing() {
    assert_eq!(select_window(&[], 0, 10), Vec::<usize>::new());
    assert_eq!(select_window(&[10, 0, 5], 0, 10), vec![1, 2, 0]);
    assert_eq!(select_window(&[11, -1], 0, 10), Vec::<usize>::new());
}

fn inst(symbol: &str, status: &str, quote: &str) -> Instrument {
    Instrument { symbol: symbol.to_string(), status: status.to_string(), quote: quote.to_string() }
}

#[test]
fn binance_listing_sorted_unique_trading_usdt() {
    let items = vec![
        inst("ETHUSDT", "TRADING", "USDT"),
        inst("BTCUSDT", "TRADING", "USDT"),
        inst("ETHBTC", "TRADING", "BTC"),
        inst("LUNAUSDT", "BREAK", "USDT"),
        inst("", "TRADING", "USDT"),
        inst("BTCUSDT", "TRADING", "USDT"),
        inst("AAVEUSDT", "TRADING", "USDT"),
    ];
    assert_eq!(usdt_spot_symbols(Exchange::Binance, &items), vec!["AAVEUSDT", "BTCUSDT", "ETHUSDT"]);
}

#[test]
fn okx_listing_drops_dashes_and_keeps_live() {
    let items = vec![
        inst("SOL-USDT", "live", "USDT"),
        inst("BTC-USDT", "live", "USDT"),
        inst("ETH-USDT", "suspend", "USDT"),
        inst("BTC-USDC", "live", "USDC"),
    ];
    assert_eq!(usdt_spot_symbols(Exchange::Okx, &items), vec!["BTCUSDT", "SOLUSDT"]);
}

#[test]
fn bybit_listing_judges_by_symbol_suffix() {
    let items = vec![
        inst("XRPUSDT", "Trading", ""),
        inst("XRPUSDC", "Trading", ""),
        inst("DOGEUSDT", "PreLaunch", ""),
        inst("ADAUSDT", "Trading", ""),
    ];
    assert_eq!(usdt_spot_symbols(Exchange::Bybit, &items), vec!["ADAUSDT", "XRPUSDT"]);
}

#[test]
fn bitget_listing_keeps_online_usdt_pairs() {
    let items = vec![
        inst("BGBUSDT", "online", "USDT"),
        inst("BTCUSDT", "offline", "USDT"),
        inst("B", "online", "USDT"),
        inst("BGBUSDT", "online", "USDT"),
    ];
    // a proper prefix sorts first
    assert_eq!(usdt_spot_symbols(Exchange::Bitget, &items), vec!["B", "BGBUSDT"]);
}

#[test]
fn serving_after_a_fetch() {
    let fetched: Result<Vec<i32>, String> = Ok(vec![1, 2, 3, 4, 5]);
    assert_eq!(serve_after_fetch(fetched, Some(vec![9, 9]), 3), Ok(vec![3, 4, 5]));
    let failed = || -> Result<Vec<i32>, String> { Err("timeout".to_string()) };
    assert_eq!(serve_after_fetch(failed(), Some(vec![6, 7, 8]), 2), Ok(vec![7, 8]));
    assert_eq!(serve_after_fetch(failed(), Some(vec![6, 7, 8]), 9), Ok(vec![6, 7, 8]));
    assert_eq!(serve_after_fetch(failed(), Some(Vec::new()), 2), Err("timeout".to_string()));
    assert_eq!(serve_after_fetch(failed(), None, 2), Err("timeout".to_string()));
}

#[test]
fn cache_steps() {
    assert_eq!(cache_step(Some((970, 500)), 1_000, 60, 300, Exchange::Binance, Timeframe::H1, 10_000_000), CacheStep::ServeCached);
    assert_eq!(
        cache_step(Some((900, 500)), 1_000, 60, 300, Exchange::Binance, Timeframe::H1, 10_000_000),
        CacheStep::Fetch(FetchPlan::Recent { count: 500 })
    );
    assert_eq!(
        cache_step(None, 1_000, 60, 50, Exchange::Okx, Timeframe::H1, 10_000_000),
        CacheStep::Fetch(FetchPlan::Recent { count: 100 })
    );
}
