//! Interval codes of Bybit and Bitget, the request sizes and the forward
//! paging shared by Binance, Bybit and Bitget.

use vstd::prelude::*;
use crate::data::kline::Timeframe;

verus! {

/// Bybit interval code of each timeframe.
pub open spec fn bybit_interval_code(t: Timeframe) -> Seq<char> {
    match t {
        Timeframe::M1 => "1"@,
        Timeframe::M5 => "5"@,
        Timeframe::M15 => "15"@,
        Timeframe::M30 => "30"@,
        Timeframe::H1 => "60"@,
        Timeframe::H4 => "240"@,
        Timeframe::D1 => "D"@,
        Timeframe::W1 => "W"@,
        Timeframe::Mo1 => "M"@,
    }
}

/// Bybit interval code of a timeframe.
pub fn tf_to_bybit(tf: Timeframe) -> (r: &'static str)
    ensures
        r@ == bybit_interval_code(tf),
{
    match tf {
        Timeframe::M1 => "1",
        Timeframe::M5 => "5",
        Timeframe::M15 => "15",
        Timeframe::M30 => "30",
        Timeframe::H1 => "60",
        Timeframe::H4 => "240",
        Timeframe::D1 => "D",
        Timeframe::W1 => "W",
        Timeframe::Mo1 => "M",
    }
}

/// Bitget granularity code of each timeframe.
pub open spec fn bitget_granularity_code(t: Timeframe) -> Seq<char> {
    match t {
        Timeframe::M1 => "1min"@,
        Timeframe::M5 => "5min"@,
        Timeframe::M15 => "15min"@,
        Timeframe::M30 => "30min"@,
        Timeframe::H1 => "1h"@,
        Timeframe::H4 => "4h"@,
        Timeframe::D1 => "1day"@,
        Timeframe::W1 => "1week"@,
        Timeframe::Mo1 => "1M"@,
    }
}

/// Bitget granularity code of a timeframe.
pub fn tf_to_bitget(tf: Timeframe) -> (r: &'static str)
    ensures
        r@ == bitget_granularity_code(tf),
{
    match tf {
        Timeframe::M1 => "1min",
        Timeframe::M5 => "5min",
        Timeframe::M15 => "15min",
        Timeframe::M30 => "30min",
        Timeframe::H1 => "1h",
        Timeframe::H4 => "4h",
        Timeframe::D1 => "1day",
        Timeframe::W1 => "1week",
        Timeframe::Mo1 => "1M",
    }
}

/// Page size of a recent-candles request on Binance, Bybit and Bitget (1 to 1000).
pub fn request_limit(limit: usize) -> (r: usize)
    ensures
        r == (if limit > 1000 { 1000 } else if limit < 1 { 1 } else { limit }),
{
    if limit > 1000 { 1000 } else if limit < 1 { 1 } else { limit }
}

/// Most candles a paged fetch collects.
pub const MAX_PAGED_CANDLES: usize = 1_000_000;

/// Forward paging: after a non-empty page whose last candle closes at
/// `last_close`, with `collected` candles gathered so far, the next page
/// starts just after it, unless the window end is reached or the collection is full.
pub open spec fn forward_next_cursor_of(last_close: int, end_ms: int, collected: int) -> Option<int> {
    if last_close >= end_ms || collected >= MAX_PAGED_CANDLES {
        None
    } else {
        Some(last_close + 1)
    }
}

/// The start of the next page, or `None` when paging stops.
pub fn forward_next_cursor(last_close: i64, end_ms: i64, collected: usize) -> (r: Option<i64>)
    ensures
        r == (match forward_next_cursor_of(last_close as int, end_ms as int, collected as int) {
            Some(c) => Some(c as i64),
            None => None,
        }),
        r matches Some(c) ==> c <= end_ms,
{
    if last_close >= end_ms || collected >= MAX_PAGED_CANDLES {
        None
    } else {
        Some(last_close + 1)
    }
}

} // verus!
