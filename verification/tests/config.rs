use aura_trade::config::Config;
use aura_trade::data::cache::{cache_file_name, Exchange};
use aura_trade::data::kline::Timeframe;

#[test]
fn default_config_values() {
    let c = Config::default();
    assert_eq!(c.http_bind, "127.0.0.1:3000");
    assert_eq!(c.web_root, "web");
    assert_eq!(c.cache_dir, "data_cache");
    assert_eq!(c.binance_base, "https://api.binance.com");
}

#[test]
fn overrides_replace_only_given_values() {
    let c = Config::with_overrides(None, Some("dist".to_string()), None, Some("http://localhost:9".to_string()));
    assert_eq!(c.http_bind, "127.0.0.1:3000");
    assert_eq!(c.web_root, "dist");
    assert_eq!(c.cache_dir, "data_cache");
    assert_eq!(c.binance_base, "http://localhost:9");
}

#[test]
fn cache_file_names_per_exchange() {
    assert_eq!(cache_file_name(Exchange::Binance, "btcusdt", Timeframe::H4), "BTCUSDT_4h.json");
    assert_eq!(cache_file_name(Exchange::Okx, "EthUsdt", Timeframe::Mo1), "OKX_ETHUSDT_1M.json");
    assert_eq!(cache_file_name(Exchange::Bybit, "solusdt", Timeframe::D1), "BYBIT_SOLUSDT_1d.json");
}

#[test]
fn distinct_series_get_distinct_cache_files() {
    let a = cache_file_name(Exchange::Binance, "ETHUSDT", Timeframe::H1);
    let b = cache_file_name(Exchange::Bybit, "ETHUSDT", Timeframe::H1);
    let c = cache_file_name(Exchange::Binance, "ETHUSDT", Timeframe::H4);
    let d = cache_file_name(Exchange::Binance, "ethusdt", Timeframe::H1);
    assert_ne!(a, b);
    assert_ne!(a, c);
    // symbols differing only in case are one series
    assert_eq!(a, d);
    // an underscore in a symbol can make two series meet
    assert_eq!(
        cache_file_name(Exchange::Binance, "OKX_BTCUSDT", Timeframe::D1),
        cache_file_name(Exchange::Okx, "BTCUSDT", Timeframe::D1)
    );
}
