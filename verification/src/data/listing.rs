//! The USDT spot symbol list of an exchange: which instruments of its listing
//! count, the name they are stored under, and the sorted list without repeats.

use vstd::prelude::*;
use crate::data::cache::Exchange;
use crate::text::{
    ends_with, has_suffix, lemma_lex_irreflexive, lemma_lex_total, lemma_lex_transitive, lex_lt,
    remove_char, str_eq, text_less, without_char,
};

verus! {

/// One entry of an exchange's spot instrument listing: its symbol (OKX calls
/// it the instrument id), its trading status and its quote currency.
pub struct Instrument {
    pub symbol: String,
    pub status: String,
    pub quote: String,
}

/// Does the listing of `exchange` count `it` as a tradable USDT spot pair?
/// Binance wants status `TRADING`, Bybit `Trading`, OKX `live`, Bitget
/// `online`; Bybit reports no quote currency and is judged by the symbol's
/// `USDT` ending, the others by the quote currency `USDT` and a non-empty symbol.
pub open spec fn listing_accepts(exchange: Exchange, it: Instrument) -> bool {
    match exchange {
        Exchange::Binance => it.status@ == "TRADING"@ && it.quote@ == "USDT"@ && it.symbol@.len() > 0,
        Exchange::Bybit => it.status@ == "Trading"@ && has_suffix(it.symbol@, "USDT"@),
        Exchange::Okx => it.status@ == "live"@ && it.quote@ == "USDT"@ && it.symbol@.len() > 0,
        Exchange::Bitget => it.status@ == "online"@ && it.quote@ == "USDT"@ && it.symbol@.len() > 0,
    }
}

/// The name a listed symbol is stored under: OKX ids lose their dashes
/// (`BTC-USDT` → `BTCUSDT`), the other exchanges' symbols stay as they are.
pub open spec fn stored_symbol(exchange: Exchange, symbol: Seq<char>) -> Seq<char> {
    if exchange == Exchange::Okx {
        without_char(symbol, '-')
    } else {
        symbol
    }
}

/// The characters of each string.
pub open spec fn text_views(v: Seq<String>) -> Seq<Seq<char>> {
    v.map_values(|s: String| s@)
}

/// Strictly increasing in lexicographic order: sorted, and no repeats.
pub open spec fn strictly_ascending(v: Seq<Seq<char>>) -> bool {
    forall|k: int, l: int| 0 <= k < l < v.len() ==> lex_lt(#[trigger] v[k], #[trigger] v[l])
}

/// Puts `s` into the sorted list `out` at its place, unless it is there already.
fn insert_sorted_unique(out: &mut Vec<String>, s: String)
    requires
        strictly_ascending(text_views(old(out)@)),
    ensures
        strictly_ascending(text_views(final(out)@)),
        forall|x: Seq<char>|
            #[trigger] text_views(final(out)@).contains(x) <==> (text_views(old(out)@).contains(x) || x == s@),
{
    let ghost v = text_views(out@);
    let n = out.len();
    let mut pos: usize = 0;
    while pos < n && text_less(out[pos].as_str(), s.as_str())
        invariant
            n == out@.len(),
            v == text_views(out@),
            pos <= n,
            forall|k: int| 0 <= k < pos ==> lex_lt(#[trigger] v[k], s@),
        decreases n - pos,
    {
        pos = pos + 1;
    }
    if pos < n && str_eq(out[pos].as_str(), s.as_str()) {
        proof {
            assert(v[pos as int] == s@);
            assert forall|x: Seq<char>| #[trigger] v.contains(x) <==> (v.contains(x) || x == s@) by {
                if x == s@ {
                    assert(v[pos as int] == x);
                }
            }
        }
        return;
    }
    proof {
        if pos < n {
            lemma_lex_total(v[pos as int], s@);
        }
        assert forall|l: int| pos <= l < n implies lex_lt(s@, #[trigger] v[l]) by {
            if l > pos {
                lemma_lex_transitive(s@, v[pos as int], v[l]);
            }
        }
    }
    out.insert(pos, s);
    proof {
        let w = text_views(out@);
        assert(w =~= v.insert(pos as int, s@));
        assert forall|k: int, l: int| 0 <= k < l < w.len() implies lex_lt(#[trigger] w[k], #[trigger] w[l]) by {
            if l < pos {
            } else if l == pos {
            } else if k < pos {
                lemma_lex_transitive(w[k], s@, w[l]);
            } else if k == pos {
            } else {
                assert(w[k] == v[k - 1] && w[l] == v[l - 1]);
            }
        }
        assert forall|x: Seq<char>| #[trigger] w.contains(x) <==> (v.contains(x) || x == s@) by {
            if w.contains(x) {
                let j = choose|j: int| 0 <= j < w.len() && w[j] == x;
                if j < pos {
                    assert(v[j] == x);
                } else if j > pos {
                    assert(v[j - 1] == x);
                }
            }
            if v.contains(x) {
                let j = choose|j: int| 0 <= j < v.len() && v[j] == x;
                if j < pos {
                    assert(w[j] == x);
                } else {
                    assert(w[j + 1] == x);
                }
            }
            if x == s@ {
                assert(w[pos as int] == x);
            }
        }
    }
}

/// Does the listing of `exchange` count `it`?
pub fn accepts(exchange: Exchange, it: &Instrument) -> (r: bool)
    ensures
        r == listing_accepts(exchange, *it),
{
    match exchange {
        Exchange::Binance => str_eq(it.status.as_str(), "TRADING") && str_eq(it.quote.as_str(), "USDT")
            && it.symbol.as_str().unicode_len() > 0,
        Exchange::Bybit => str_eq(it.status.as_str(), "Trading") && ends_with(it.symbol.as_str(), "USDT"),
        Exchange::Okx => str_eq(it.status.as_str(), "live") && str_eq(it.quote.as_str(), "USDT")
            && it.symbol.as_str().unicode_len() > 0,
        Exchange::Bitget => str_eq(it.status.as_str(), "online") && str_eq(it.quote.as_str(), "USDT")
            && it.symbol.as_str().unicode_len() > 0,
    }
}

/// The name `symbol` is stored under for `exchange`.
pub fn store_symbol(exchange: Exchange, symbol: &str) -> (r: String)
    ensures
        r@ == stored_symbol(exchange, symbol@),
{
    match exchange {
        Exchange::Okx => remove_char(symbol, '-'),
        _ => symbol.to_owned(),
    }
}

/// The tradable USDT spot symbols of a listing, under their stored names, in
/// lexicographic order and each once.
pub fn usdt_spot_symbols(exchange: Exchange, items: &[Instrument]) -> (r: Vec<String>)
    ensures
        strictly_ascending(text_views(r@)),
        forall|x: Seq<char>|
            #[trigger] text_views(r@).contains(x) <==> exists|i: int|
                0 <= i < items@.len() && listing_accepts(exchange, #[trigger] items@[i])
                    && stored_symbol(exchange, items@[i].symbol@) == x,
{
    let mut out: Vec<String> = Vec::new();
    let mut i: usize = 0;
    while i < items.len()
        invariant
            i <= items@.len(),
            strictly_ascending(text_views(out@)),
            forall|x: Seq<char>|
                #[trigger] text_views(out@).contains(x) <==> exists|j: int|
                    0 <= j < i && listing_accepts(exchange, #[trigger] items@[j])
                        && stored_symbol(exchange, items@[j].symbol@) == x,
        decreases items@.len() - i,
    {
        let it = &items[i];
        let ghost before = text_views(out@);
        if accepts(exchange, it) {
            let s = store_symbol(exchange, it.symbol.as_str());
            insert_sorted_unique(&mut out, s);
            proof {
                assert forall|x: Seq<char>|
                    #[trigger] text_views(out@).contains(x) <==> exists|j: int|
                        0 <= j < i + 1 && listing_accepts(exchange, #[trigger] items@[j])
                            && stored_symbol(exchange, items@[j].symbol@) == x by {
                    if x == stored_symbol(exchange, items@[i as int].symbol@) {
                        assert(listing_accepts(exchange, items@[i as int]));
                    }
                    if exists|j: int|
                        0 <= j < i + 1 && listing_accepts(exchange, #[trigger] items@[j])
                            && stored_symbol(exchange, items@[j].symbol@) == x {
                        let j = choose|j: int|
                            0 <= j < i + 1 && listing_accepts(exchange, #[trigger] items@[j])
                                && stored_symbol(exchange, items@[j].symbol@) == x;
                        if j < i {
                            assert(before.contains(x));
                        }
                    }
                }
            }
        } else {
            proof {
                assert forall|x: Seq<char>|
                    #[trigger] text_views(out@).contains(x) <==> exists|j: int|
                        0 <= j < i + 1 && listing_accepts(exchange, #[trigger] items@[j])
                            && stored_symbol(exchange, items@[j].symbol@) == x by {
                    if exists|j: int|
                        0 <= j < i + 1 && listing_accepts(exchange, #[trigger] items@[j])
                            && stored_symbol(exchange, items@[j].symbol@) == x {
                        let j = choose|j: int|
                            0 <= j < i + 1 && listing_accepts(exchange, #[trigger] items@[j])
                                && stored_symbol(exchange, items@[j].symbol@) == x;
                        assert(j < i);
                    }
                }
            }
        }
        i = i + 1;
    }
    out
}

/// A list that is strictly ascending holds each symbol once.
pub proof fn lemma_ascending_has_no_repeats(v: Seq<Seq<char>>, k: int, l: int)
    requires
        strictly_ascending(v),
        0 <= k < v.len(),
        0 <= l < v.len(),
        k != l,
    ensures
        v[k] != v[l],
{
    if k < l {
        if v[k] == v[l] {
            lemma_lex_irreflexive(v[k]);
        }
    } else {
        if v[k] == v[l] {
            lemma_lex_irreflexive(v[l]);
        }
    }
}

/// Taking a character out of a string leaves no occurrence of it.
pub proof fn lemma_without_char_has_none(s: Seq<char>, c: char)
    ensures
        !without_char(s, c).contains(c),
    decreases s.len(),
{
    reveal(Seq::filter);
    if s.len() > 0 {
        lemma_without_char_has_none(s.drop_last(), c);
        let rest = without_char(s.drop_last(), c);
        if s.last() != c {
            assert(without_char(s, c) == rest.push(s.last()));
            assert forall|i: int| 0 <= i < rest.push(s.last()).len() implies rest.push(s.last())[i] != c by {
                if i < rest.len() {
                    assert(rest.push(s.last())[i] == rest[i]);
                }
            }
        } else {
            assert(without_char(s, c) == rest);
        }
    }
}

/// OKX symbols are stored without dashes (`BTC-USDT` is stored as `BTCUSDT`).
pub proof fn lemma_okx_symbols_have_no_dash(symbol: Seq<char>)
    ensures
        !stored_symbol(Exchange::Okx, symbol).contains('-'),
{
    lemma_without_char_has_none(symbol, '-');
}

} // verus!
