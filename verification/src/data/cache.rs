//! Exchange routing by symbol prefix and the freshness / fetch policy of the
//! local candle cache.

use vstd::prelude::*;
use vstd::string::*;
use crate::text::{concat, has_prefix, strip_prefix, owned, to_uppercase, unicode_uppercase};
use crate::data::kline::{lemma_timeframe_code_injective, Timeframe, timeframe_code, timeframe_minutes};

verus! {

/// Exchanges a symbol can be routed to.
#[derive(Debug, Clone, Copy, PartialEq, Eq, Structural)]
pub enum Exchange {
    Binance,
    Bybit,
    Bitget,
    Okx,
}

/// Upper-case name of each exchange, which is also its routing prefix (before the colon).
pub open spec fn exchange_name(e: Exchange) -> Seq<char> {
    match e {
        Exchange::Binance => "BINANCE"@,
        Exchange::Bybit => "BYBIT"@,
        Exchange::Bitget => "BITGET"@,
        Exchange::Okx => "OKX"@,
    }
}

/// Routing of an upper-cased symbol: the first of the prefixes `BINANCE:`,
/// `BYBIT:`, `BITGET:`, `OKX:` that it starts with picks the exchange and is
/// taken off; a symbol without such a prefix goes to Binance unchanged.
pub open spec fn route_symbol(up: Seq<char>) -> (Exchange, Seq<char>) {
    if has_prefix(up, "BINANCE:"@) {
        (Exchange::Binance, up.subrange("BINANCE:"@.len() as int, up.len() as int))
    } else if has_prefix(up, "BYBIT:"@) {
        (Exchange::Bybit, up.subrange("BYBIT:"@.len() as int, up.len() as int))
    } else if has_prefix(up, "BITGET:"@) {
        (Exchange::Bitget, up.subrange("BITGET:"@.len() as int, up.len() as int))
    } else if has_prefix(up, "OKX:"@) {
        (Exchange::Okx, up.subrange("OKX:"@.len() as int, up.len() as int))
    } else {
        (Exchange::Binance, up)
    }
}

impl Exchange {
    pub fn as_str(&self) -> (r: &'static str)
        ensures
            r@ == exchange_name(*self),
    {
        match self {
            Exchange::Binance => "BINANCE",
            Exchange::Bybit => "BYBIT",
            Exchange::Bitget => "BITGET",
            Exchange::Okx => "OKX",
        }
    }

    /// All exchanges, in routing order.
    pub fn all() -> (r: [Exchange; 4])
        ensures
            r@ == seq![Exchange::Binance, Exchange::Bybit, Exchange::Bitget, Exchange::Okx],
    {
        [Exchange::Binance, Exchange::Bybit, Exchange::Bitget, Exchange::Okx]
    }

    /// Splits a user symbol such as `bybit:btcusdt` into its exchange and the
    /// exchange's own symbol; the input is upper-cased first.
    pub fn parse_symbol(input: &str) -> (r: (Exchange, String))
        ensures
            (r.0, r.1@) == route_symbol(unicode_uppercase(input@)),
    {
        let up = to_uppercase(input);
        Exchange::route_uppercased(up)
    }

    /// Routing of an already upper-cased symbol.
    pub fn route_uppercased(up: String) -> (r: (Exchange, String))
        ensures
            (r.0, r.1@) == route_symbol(up@),
    {
        if let Some(rest) = strip_prefix(up.as_str(), "BINANCE:") {
            (Exchange::Binance, owned(rest))
        } else if let Some(rest) = strip_prefix(up.as_str(), "BYBIT:") {
            (Exchange::Bybit, owned(rest))
        } else if let Some(rest) = strip_prefix(up.as_str(), "BITGET:") {
            (Exchange::Bitget, owned(rest))
        } else if let Some(rest) = strip_prefix(up.as_str(), "OKX:") {
            (Exchange::Okx, owned(rest))
        } else {
            (Exchange::Binance, up)
        }
    }
}

/// Name of the cache file of one series: `<SYMBOL>_<tf>.json` for Binance,
/// whose files predate the other exchanges, and `<EXCHANGE>_<SYMBOL>_<tf>.json`
/// for the others; `up_symbol` is the upper-cased symbol.
pub open spec fn cache_file_name_of(exchange: Exchange, up_symbol: Seq<char>, tf: Timeframe) -> Seq<char> {
    let stem = up_symbol + "_"@ + timeframe_code(tf) + ".json"@;
    if exchange == Exchange::Binance {
        stem
    } else {
        exchange_name(exchange) + "_"@ + stem
    }
}

/// The cache file name of `symbol` (upper-cased here) on `exchange` in `tf`.
pub fn cache_file_name(exchange: Exchange, symbol: &str, tf: Timeframe) -> (r: String)
    ensures
        r@ == cache_file_name_of(exchange, unicode_uppercase(symbol@), tf),
{
    let up = to_uppercase(symbol);
    let mut name = if exchange == Exchange::Binance {
        String::new()
    } else {
        concat(exchange.as_str(), "_")
    };
    name = name.concat(up.as_str());
    name = name.concat("_");
    name = name.concat(tf.as_str());
    name = name.concat(".json");
    proof {
        let stem = unicode_uppercase(symbol@) + "_"@ + timeframe_code(tf) + ".json"@;
        if exchange == Exchange::Binance {
            assert(name@ =~= stem);
        } else {
            assert(name@ =~= exchange_name(exchange) + "_"@ + stem);
        }
    }
    name
}

/// The last `n` items of `v` (all of them when `v` is not longer than `n`).
pub open spec fn last_n<T>(v: Seq<T>, n: int) -> Seq<T> {
    if n >= v.len() {
        v
    } else {
        v.subrange(v.len() - n, v.len() as int)
    }
}

/// Copies the last `n` items of `v`.
pub fn tail<T: Copy>(v: &[T], n: usize) -> (r: Vec<T>)
    ensures
        r@ == last_n(v@, n as int),
{
    let len = v.len();
    let start: usize = if n >= len { 0 } else { len - n };
    let mut out: Vec<T> = Vec::new();
    let mut i: usize = start;
    while i < len
        invariant
            len == v@.len(),
            start <= i <= len,
            out@ == v@.subrange(start as int, i as int),
        decreases len - i,
    {
        out.push(v[i]);
        i = i + 1;
        assert(out@ =~= v@.subrange(start as int, i as int));
    }
    assert(v@.subrange(0, len as int) =~= v@);
    out
}

/// What is served once a fetch has been tried: the last `limit` candles of
/// what was fetched; when the fetch failed, the last `limit` candles of the
/// stale cached series if it holds any, and otherwise the fetch's error.
pub open spec fn served_after_fetch<T>(
    fetched: Result<Seq<T>, Seq<char>>,
    stale: Option<Seq<T>>,
    limit: int,
) -> Result<Seq<T>, Seq<char>> {
    match fetched {
        Ok(v) => Ok(last_n(v, limit)),
        Err(e) => match stale {
            Some(c) => if c.len() > 0 { Ok(last_n(c, limit)) } else { Err(e) },
            None => Err(e),
        },
    }
}

/// The series and error as plain values.
pub open spec fn result_view<T>(r: Result<Vec<T>, String>) -> Result<Seq<T>, Seq<char>> {
    match r {
        Ok(v) => Ok(v@),
        Err(e) => Err(e@),
    }
}

/// Decides what to serve after a fetch (see `served_after_fetch`): a failed
/// fetch falls back to the stale cache, however old, rather than fail while
/// candles are at hand.
pub fn serve_after_fetch<T: Copy>(
    fetched: Result<Vec<T>, String>,
    stale: Option<Vec<T>>,
    limit: usize,
) -> (r: Result<Vec<T>, String>)
    ensures
        result_view(r) == served_after_fetch(
            result_view(fetched),
            match stale {
                Some(c) => Some(c@),
                None => None,
            },
            limit as int,
        ),
{
    match fetched {
        Ok(v) => Ok(tail(v.as_slice(), limit)),
        Err(e) => match stale {
            Some(c) => {
                if c.len() > 0 {
                    Ok(tail(c.as_slice(), limit))
                } else {
                    Err(e)
                }
            },
            None => Err(e),
        },
    }
}

/// A cached series may be served as is when it is younger than the time to
/// live and holds at least the requested number of candles.
pub open spec fn serves_from_cache(now: int, updated_at: int, ttl_secs: int, cached: int, limit: int) -> bool {
    now - updated_at < ttl_secs && cached >= limit
}

/// Decides whether the cached series is fresh and long enough to be served.
pub fn cache_hit(now: i64, updated_at: i64, ttl_secs: i64, cached: usize, limit: usize) -> (r: bool)
    ensures
        r == serves_from_cache(now as int, updated_at as int, ttl_secs as int, cached as int, limit as int),
{
    let age = now as i128 - updated_at as i128;
    age < ttl_secs as i128 && cached >= limit
}

/// What to ask an exchange for when the cache cannot serve a request.
#[derive(Debug, Clone, Copy, PartialEq, Eq, Structural)]
pub enum FetchPlan {
    /// One request for the most recent `count` candles.
    Recent { count: usize },
    /// A paged fetch of every candle that opens in `[start_ms, end_ms]`.
    Range { start_ms: i64, end_ms: i64 },
}

/// The fetch plan: up to 1000 candles come from one recent request (at least
/// 500 of them, or 100..=300 on OKX, which serves at most 300); larger requests
/// page over a window that reaches back the span of `limit` candles plus a
/// tenth of it, but not before the epoch.
pub open spec fn fetch_plan_for(exchange: Exchange, limit: int, interval_ms: int, now_ms: int) -> FetchPlan {
    if limit <= 1000 {
        FetchPlan::Recent {
            count: (if exchange == Exchange::Okx {
                if limit < 100 { 100 } else if limit > 300 { 300 } else { limit }
            } else {
                if limit < 500 { 500 } else { limit }
            }) as usize,
        }
    } else {
        let span = limit * interval_ms;
        let start = now_ms - (span + span / 10);
        FetchPlan::Range { start_ms: (if start < 0 { 0 } else { start }) as i64, end_ms: now_ms as i64 }
    }
}

/// Chooses how to fetch `limit` candles of `tf` from `exchange` at time `now_ms`.
pub fn fetch_plan(exchange: Exchange, limit: usize, tf: Timeframe, now_ms: i64) -> (r: FetchPlan)
    ensures
        r == fetch_plan_for(exchange, limit as int, timeframe_minutes(tf) * 60_000, now_ms as int),
{
    if limit <= 1000 {
        let count = if exchange == Exchange::Okx {
            if limit < 100 { 100 } else if limit > 300 { 300 } else { limit }
        } else {
            if limit < 500 { 500 } else { limit }
        };
        FetchPlan::Recent { count }
    } else {
        let iv = tf.interval_ms();
        let l: i128 = limit as i128;
        let v: i128 = iv as i128;
        assert(0 <= l * v <= 0x1_0000_0000_0000_0000 * 2_592_000_000) by (nonlinear_arith)
            requires 0 <= l <= 0x1_0000_0000_0000_0000, 0 < v <= 2_592_000_000;
        let span: i128 = l * v;
        let start: i128 = now_ms as i128 - (span + span / 10);
        let s: i64 = if start < 0 { 0 } else { start as i64 };
        FetchPlan::Range { start_ms: s, end_ms: now_ms }
    }
}

/// The first step of serving a request from the cache.
#[derive(Debug, Clone, Copy, PartialEq, Eq, Structural)]
pub enum CacheStep {
    /// The cached series is fresh and long enough: serve its last `limit` candles.
    ServeCached,
    /// Ask the exchange, by this plan.
    Fetch(FetchPlan),
}

/// The first step for a request of `limit` candles of `tf` from `exchange`
/// at `now` (seconds; `now_ms` in milliseconds), given the last update time
/// and length of the cached series, if there is one.
pub fn cache_step(
    cached: Option<(i64, usize)>,
    now: i64,
    ttl_secs: i64,
    limit: usize,
    exchange: Exchange,
    tf: Timeframe,
    now_ms: i64,
) -> (r: CacheStep)
    ensures
        r == (if cached matches Some((updated_at, len)) && serves_from_cache(now as int, updated_at as int, ttl_secs as int, len as int, limit as int) {
            CacheStep::ServeCached
        } else {
            CacheStep::Fetch(fetch_plan_for(exchange, limit as int, timeframe_minutes(tf) * 60_000, now_ms as int))
        }),
{
    if let Some((updated_at, len)) = cached {
        if cache_hit(now, updated_at, ttl_secs, len, limit) {
            return CacheStep::ServeCached;
        }
    }
    CacheStep::Fetch(fetch_plan(exchange, limit, tf, now_ms))
}

/// What is served after a fetch is never longer than asked for, and is the
/// end of the series it comes from.
pub proof fn lemma_served_is_a_recent_tail<T>(fetched: Result<Seq<T>, Seq<char>>, stale: Option<Seq<T>>, limit: int)
    requires
        limit >= 0,
    ensures
        served_after_fetch(fetched, stale, limit) matches Ok(w) ==> w.len() <= limit && (
            (fetched matches Ok(v) && w.len() <= v.len() && w == v.subrange(v.len() - w.len(), v.len() as int))
            || (stale matches Some(c) && fetched is Err && w.len() <= c.len() && w == c.subrange(c.len() - w.len(), c.len() as int))),
{
    match fetched {
        Ok(v) => {
            if limit >= v.len() {
                assert(v.subrange(0, v.len() as int) =~= v);
            }
        },
        Err(_) => {
            if let Some(c) = stale {
                if limit >= c.len() {
                    assert(c.subrange(0, c.len() as int) =~= c);
                }
            }
        },
    }
}

} // verus!

verus! {

/// Routing prefix of each exchange: its name and a colon.
pub open spec fn exchange_prefix(e: Exchange) -> Seq<char> {
    exchange_name(e) + ":"@
}

/// A symbol written with an exchange's prefix is routed to that exchange, with
/// the prefix taken off.
pub proof fn lemma_route_prefixed_symbol(e: Exchange, s: Seq<char>)
    ensures
        route_symbol(exchange_prefix(e) + s) == (e, s),
{
    reveal_strlit("BINANCE");
    reveal_strlit("BYBIT");
    reveal_strlit("BITGET");
    reveal_strlit("OKX");
    reveal_strlit(":");
    reveal_strlit("BINANCE:");
    reveal_strlit("BYBIT:");
    reveal_strlit("BITGET:");
    reveal_strlit("OKX:");
    let up = exchange_prefix(e) + s;
    let p = exchange_prefix(e);
    assert(up.subrange(0, p.len() as int) =~= p);
    assert(up.subrange(p.len() as int, up.len() as int) =~= s);
    match e {
        Exchange::Binance => {
            assert(p =~= "BINANCE:"@);
        },
        Exchange::Bybit => {
            assert(p =~= "BYBIT:"@);
            assert(up[1] == p[1]);
            assert(p[1] == 'Y');
            assert("BINANCE:"@[1] == 'I');
        },
        Exchange::Bitget => {
            assert(p =~= "BITGET:"@);
            assert(up[1] == p[1]);
            assert(up[2] == p[2]);
            assert(up[2] != "BINANCE:"@[2]);
            assert(up[1] != "BYBIT:"@[1]);
        },
        Exchange::Okx => {
            assert(p =~= "OKX:"@);
            assert(up[0] == p[0]);
            assert(up[0] != "BINANCE:"@[0]);
            assert(up[0] != "BYBIT:"@[0]);
            assert(up[0] != "BITGET:"@[0]);
        },
    }
}

/// A symbol without a colon is routed to Binance unchanged.
pub proof fn lemma_route_plain_symbol(up: Seq<char>)
    requires
        !up.contains(':'),
    ensures
        route_symbol(up) == (Exchange::Binance, up),
{
    reveal_strlit("BINANCE:");
    reveal_strlit("BYBIT:");
    reveal_strlit("BITGET:");
    reveal_strlit("OKX:");
    if has_prefix(up, "BINANCE:"@) {
        assert(up[7] == up.subrange(0, 8)[7]);
    }
    if has_prefix(up, "BYBIT:"@) {
        assert(up[5] == up.subrange(0, 6)[5]);
    }
    if has_prefix(up, "BITGET:"@) {
        assert(up[6] == up.subrange(0, 7)[6]);
    }
    if has_prefix(up, "OKX:"@) {
        assert(up[3] == up.subrange(0, 4)[3]);
    }
}

/// Reading two sequences at their first separator `c`: when `a` and `a2` hold
/// no `c`, `a + [c] + b == a2 + [c] + b2` makes the parts agree.
proof fn lemma_split_at_first(a: Seq<char>, b: Seq<char>, a2: Seq<char>, b2: Seq<char>, c: char)
    requires
        !a.contains(c),
        !a2.contains(c),
        a + seq![c] + b == a2 + seq![c] + b2,
    ensures
        a == a2,
        b == b2,
{
    let s = a + seq![c] + b;
    let s2 = a2 + seq![c] + b2;
    if a.len() < a2.len() {
        assert(s[a.len() as int] == c);
        assert(s2[a.len() as int] == a2[a.len() as int]);
        assert(a2.contains(a2[a.len() as int]));
    } else if a.len() > a2.len() {
        assert(s2[a2.len() as int] == c);
        assert(s[a2.len() as int] == a[a2.len() as int]);
        assert(a.contains(a[a2.len() as int]));
    }
    assert(a =~= s.subrange(0, a.len() as int));
    assert(a2 =~= s2.subrange(0, a2.len() as int));
    assert(b =~= s.subrange(a.len() as int + 1, s.len() as int));
    assert(b2 =~= s2.subrange(a2.len() as int + 1, s2.len() as int));
}

/// No exchange name, timeframe code or the `.json` ending holds an underscore.
proof fn lemma_name_parts_have_no_underscore(e: Exchange, t: Timeframe)
    ensures
        !exchange_name(e).contains('_'),
        !(timeframe_code(t) + ".json"@).contains('_'),
{
    reveal_strlit("BINANCE");
    reveal_strlit("BYBIT");
    reveal_strlit("BITGET");
    reveal_strlit("OKX");
    reveal_strlit("1m");
    reveal_strlit("5m");
    reveal_strlit("15m");
    reveal_strlit("30m");
    reveal_strlit("1h");
    reveal_strlit("4h");
    reveal_strlit("1d");
    reveal_strlit("1w");
    reveal_strlit("1M");
    reveal_strlit(".json");
    let n = exchange_name(e);
    assert forall|i: int| 0 <= i < n.len() implies n[i] != '_' by {}
    let j = timeframe_code(t) + ".json"@;
    assert forall|i: int| 0 <= i < j.len() implies j[i] != '_' by {
        if i < timeframe_code(t).len() {
            assert(j[i] == timeframe_code(t)[i]);
        } else {
            assert(j[i] == ".json"@[i - timeframe_code(t).len()]);
        }
    }
}

/// Each series has a cache file of its own: for symbols without an
/// underscore, two (exchange, upper-cased symbol, timeframe) keys with the
/// same file name are the same key.
pub proof fn lemma_cache_file_names_distinct(
    e1: Exchange,
    u1: Seq<char>,
    t1: Timeframe,
    e2: Exchange,
    u2: Seq<char>,
    t2: Timeframe,
)
    requires
        !u1.contains('_'),
        !u2.contains('_'),
        cache_file_name_of(e1, u1, t1) == cache_file_name_of(e2, u2, t2),
    ensures
        e1 == e2,
        u1 == u2,
        t1 == t2,
{
    reveal_strlit("_");
    reveal_strlit(".json");
    reveal_strlit("BINANCE");
    reveal_strlit("BYBIT");
    reveal_strlit("BITGET");
    reveal_strlit("OKX");
    assert("_"@ =~= seq!['_']);
    lemma_name_parts_have_no_underscore(e1, t1);
    lemma_name_parts_have_no_underscore(e2, t2);
    let r1 = timeframe_code(t1) + ".json"@;
    let r2 = timeframe_code(t2) + ".json"@;
    let stem1 = u1 + seq!['_'] + r1;
    let stem2 = u2 + seq!['_'] + r2;
    assert(u1 + "_"@ + timeframe_code(t1) + ".json"@ =~= stem1);
    assert(u2 + "_"@ + timeframe_code(t2) + ".json"@ =~= stem2);
    assert(stem1.contains('_')) by {
        assert(stem1[u1.len() as int] == '_');
    }
    assert(stem2.contains('_')) by {
        assert(stem2[u2.len() as int] == '_');
    }
    if e1 == Exchange::Binance && e2 == Exchange::Binance {
        lemma_split_at_first(u1, r1, u2, r2, '_');
    } else if e1 == Exchange::Binance {
        assert(stem1 == exchange_name(e2) + seq!['_'] + stem2);
        lemma_split_at_first(u1, r1, exchange_name(e2), stem2, '_');
    } else if e2 == Exchange::Binance {
        assert(exchange_name(e1) + seq!['_'] + stem1 == stem2);
        lemma_split_at_first(exchange_name(e1), stem1, u2, r2, '_');
    } else {
        assert(cache_file_name_of(e1, u1, t1) =~= exchange_name(e1) + seq!['_'] + stem1);
        assert(cache_file_name_of(e2, u2, t2) =~= exchange_name(e2) + seq!['_'] + stem2);
        lemma_split_at_first(exchange_name(e1), stem1, exchange_name(e2), stem2, '_');
        assert(exchange_name(e1).len() == exchange_name(e2).len());
        lemma_split_at_first(u1, r1, u2, r2, '_');
    }
    assert(r1 == r2);
    assert(timeframe_code(t1) =~= r1.subrange(0, r1.len() - 5));
    assert(timeframe_code(t2) =~= r2.subrange(0, r2.len() - 5));
    lemma_timeframe_code_injective(t1, t2);
}

} // verus!
