//! Runtime configuration: listen address, static web root, candle cache
//! directory and Binance REST base URL, with their defaults and overrides.

use vstd::prelude::*;
use crate::text::owned;

verus! {

/// Runtime configuration.
#[derive(Debug, Clone)]
pub struct Config {
    /// Address the HTTP server listens on.
    pub http_bind: String,
    /// Directory of the static front end, relative to the working directory.
    pub web_root: String,
    /// Directory of the local candle cache.
    pub cache_dir: String,
    /// Base URL of the Binance REST API.
    pub binance_base: String,
}

/// The default configuration, field by field.
pub open spec fn is_default_config(c: Config) -> bool {
    &&& c.http_bind@ == "127.0.0.1:3000"@
    &&& c.web_root@ == "web"@
    &&& c.cache_dir@ == "data_cache"@
    &&& c.binance_base@ == "https://api.binance.com"@
}

impl Default for Config {
    fn default() -> (r: Config)
        ensures
            is_default_config(r),
    {
        Config {
            http_bind: owned("127.0.0.1:3000"),
            web_root: owned("web"),
            cache_dir: owned("data_cache"),
            binance_base: owned("https://api.binance.com"),
        }
    }
}

/// `value` where one was given, `fallback` otherwise.
pub open spec fn overridden(value: Option<String>, fallback: Seq<char>) -> Seq<char> {
    match value {
        Some(v) => v@,
        None => fallback,
    }
}

impl Config {
    /// The default configuration with each given value put in place of its
    /// default (the caller reads them from `AURA_HTTP_BIND`, `AURA_WEB_ROOT`,
    /// `AURA_CACHE_DIR` and `AURA_BINANCE_BASE`).
    pub fn with_overrides(
        http_bind: Option<String>,
        web_root: Option<String>,
        cache_dir: Option<String>,
        binance_base: Option<String>,
    ) -> (r: Config)
        ensures
            r.http_bind@ == overridden(http_bind, "127.0.0.1:3000"@),
            r.web_root@ == overridden(web_root, "web"@),
            r.cache_dir@ == overridden(cache_dir, "data_cache"@),
            r.binance_base@ == overridden(binance_base, "https://api.binance.com"@),
    {
        let mut cfg = Config::default();
        if let Some(v) = http_bind {
            cfg.http_bind = v;
        }
        if let Some(v) = web_root {
            cfg.web_root = v;
        }
        if let Some(v) = cache_dir {
            cfg.cache_dir = v;
        }
        if let Some(v) = binance_base {
            cfg.binance_base = v;
        }
        cfg
    }
}

} // verus!
