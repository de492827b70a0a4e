//! OKX specifics: instrument ids, bar codes, request sizes and the backward
//! paging of the candle history.

use vstd::prelude::*;
use crate::data::kline::Timeframe;
use crate::text::{concat, contains_char, ends_with, has_suffix, to_uppercase, unicode_uppercase};

verus! {

/// OKX instrument id of an upper-cased symbol: a dash-free symbol ending in
/// `USDT` becomes `BASE-USDT`; anything else is kept.
pub open spec fn okx_inst_id_of(up: Seq<char>) -> Seq<char> {
    if has_suffix(up, "USDT"@) && !up.contains('-') {
        up.subrange(0, up.len() - 4) + "-USDT"@
    } else {
        up
    }
}

/// OKX instrument id of a symbol (`btcusdt` → `BTC-USDT`); the symbol is upper-cased first.
pub fn to_okx_inst_id(symbol: &str) -> (r: String)
    ensures
        r@ == okx_inst_id_of(unicode_uppercase(symbol@)),
{
    let up = to_uppercase(symbol);
    okx_inst_id_from_uppercased(up)
}

/// OKX instrument id of an already upper-cased symbol.
pub fn okx_inst_id_from_uppercased(up: String) -> (r: String)
    ensures
        r@ == okx_inst_id_of(up@),
{
    proof {
        reveal_strlit("USDT");
    }
    if ends_with(up.as_str(), "USDT") && !contains_char(up.as_str(), '-') {
        let n = up.as_str().unicode_len();
        let base = up.as_str().substring_char(0, n - 4);
        concat(base, "-USDT")
    } else {
        up
    }
}

/// Removing the dash from an OKX instrument id gives the symbol back.
pub proof fn lemma_okx_inst_id_round_trip(up: Seq<char>)
    requires
        has_suffix(up, "USDT"@),
        !up.contains('-'),
    ensures
        okx_inst_id_of(up).len() == up.len() + 1,
        okx_inst_id_of(up).remove(up.len() - 4) =~= up,
{
    reveal_strlit("USDT");
    reveal_strlit("-USDT");
    let id = okx_inst_id_of(up);
    assert(up.subrange(up.len() - 4, up.len() as int) == "USDT"@);
    assert forall|i: int| 0 <= i < up.len() implies #[trigger] id.remove(up.len() - 4)[i] == up[i] by {
        if i >= up.len() - 4 {
            assert(up[i] == up.subrange(up.len() - 4, up.len() as int)[i - (up.len() - 4)]);
        }
    }
}

/// OKX bar code of each timeframe.
pub open spec fn okx_bar_code(t: Timeframe) -> Seq<char> {
    match t {
        Timeframe::M1 => "1m"@,
        Timeframe::M5 => "5m"@,
        Timeframe::M15 => "15m"@,
        Timeframe::M30 => "30m"@,
        Timeframe::H1 => "1H"@,
        Timeframe::H4 => "4H"@,
        Timeframe::D1 => "1D"@,
        Timeframe::W1 => "1W"@,
        Timeframe::Mo1 => "1M"@,
    }
}

/// OKX bar code of a timeframe.
pub fn tf_to_okx(tf: Timeframe) -> (r: &'static str)
    ensures
        r@ == okx_bar_code(tf),
{
    match tf {
        Timeframe::M1 => "1m",
        Timeframe::M5 => "5m",
        Timeframe::M15 => "15m",
        Timeframe::M30 => "30m",
        Timeframe::H1 => "1H",
        Timeframe::H4 => "4H",
        Timeframe::D1 => "1D",
        Timeframe::W1 => "1W",
        Timeframe::Mo1 => "1M",
    }
}

/// Page size of a recent-candles request: OKX serves 1 to 300 candles.
pub fn okx_request_limit(limit: usize) -> (r: usize)
    ensures
        r == (if limit > 300 { 300 } else if limit < 1 { 1 } else { limit }),
{
    if limit > 300 { 300 } else if limit < 1 { 1 } else { limit }
}

/// Backward paging: after a non-empty page whose earliest candle opens at
/// `first_ts` and latest at `last_ts`, the next cursor is `first_ts - 1`,
/// unless the page already reaches `start_ms`, the cursor would not move back,
/// or the page ends before `start_ms`.
pub open spec fn okx_next_cursor_of(cursor: int, start_ms: int, first_ts: int, last_ts: int) -> Option<int> {
    if first_ts <= start_ms {
        None
    } else if first_ts - 1 >= cursor {
        None
    } else if last_ts < start_ms {
        None
    } else {
        Some(first_ts - 1)
    }
}

/// The cursor of the next page, or `None` when paging stops.
pub fn okx_next_cursor(cursor: i64, start_ms: i64, first_ts: i64, last_ts: i64) -> (r: Option<i64>)
    ensures
        r == (match okx_next_cursor_of(cursor as int, start_ms as int, first_ts as int, last_ts as int) {
            Some(c) => Some(c as i64),
            None => None,
        }),
        r matches Some(c) ==> start_ms <= c < cursor,
{
    if first_ts <= start_ms {
        return None;
    }
    let next = first_ts - 1;
    if next >= cursor {
        return None;
    }
    if last_ts < start_ms {
        return None;
    }
    Some(next)
}

} // verus!
