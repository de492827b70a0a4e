//! Per-bar decisions of the signal-driven backtest: when an open trade is
//! closed, which bars carry an entry signal, and on which side a trade opens.
//! Prices, fills and equity are worked out by the caller.

use vstd::prelude::*;
use crate::engine::backtest::types::{ExitReason, Side};
use crate::engine::candle::patterns::PatternHit;
use crate::engine::ma::granville::{granville_buys, GranvilleSignal};

verus! {

/// Exit of an open trade on a bar whose range reached its stop (`hit_stop`)
/// and/or its target (`hit_target`): when both were reached the stop is
/// assumed to have come first.
pub fn bar_exit(hit_stop: bool, hit_target: bool) -> (r: Option<ExitReason>)
    ensures
        r == (if hit_stop {
            Some(ExitReason::StopLoss)
        } else if hit_target {
            Some(ExitReason::TakeProfit)
        } else {
            None
        }),
{
    if hit_stop {
        Some(ExitReason::StopLoss)
    } else if hit_target {
        Some(ExitReason::TakeProfit)
    } else {
        None
    }
}

/// Position `k` holds the first Granville signal of the given side (`buy`).
pub open spec fn is_first_of_side(s: Seq<GranvilleSignal>, buy: bool, k: int) -> bool {
    &&& 0 <= k < s.len()
    &&& granville_buys(s[k].rule) == buy
    &&& forall|j: int| 0 <= j < k ==> granville_buys(#[trigger] s[j].rule) != buy
}

/// Some signal of `s` is of the given side.
pub open spec fn has_side(s: Seq<GranvilleSignal>, buy: bool) -> bool {
    exists|j: int| 0 <= j < s.len() && granville_buys(#[trigger] s[j].rule) == buy
}

/// The first Granville signal of the given side, if any.
pub fn first_of_side(signals: &[GranvilleSignal], buy: bool) -> (r: Option<usize>)
    ensures
        r matches Some(k) ==> is_first_of_side(signals@, buy, k as int),
        r is None <==> !has_side(signals@, buy),
{
    let mut i: usize = 0;
    while i < signals.len()
        invariant
            i <= signals@.len(),
            forall|j: int| 0 <= j < i ==> granville_buys(#[trigger] signals@[j].rule) != buy,
        decreases signals@.len() - i,
    {
        if signals[i].rule.is_buy() == buy {
            return Some(i);
        }
        i = i + 1;
    }
    None
}

/// A pattern hit that counts as strong confirmation on the bullish
/// (`bullish`) or bearish side: direction of that sign, strength at least `min_strength`.
pub open spec fn confirms(h: PatternHit, bullish: bool, min_strength: u8) -> bool {
    (if bullish { h.direction > 0 } else { h.direction < 0 }) && h.strength >= min_strength
}

/// Position `k` holds the strongest confirming hit, the last one among equally strong.
pub open spec fn is_strongest(h: Seq<PatternHit>, bullish: bool, min_strength: u8, k: int) -> bool {
    &&& 0 <= k < h.len()
    &&& confirms(h[k], bullish, min_strength)
    &&& forall|j: int| 0 <= j < h.len() && confirms(#[trigger] h[j], bullish, min_strength) ==> h[j].strength <= h[k].strength
    &&& forall|j: int| k < j < h.len() && confirms(#[trigger] h[j], bullish, min_strength) ==> h[j].strength < h[k].strength
}

/// Some hit of `h` confirms the given side.
pub open spec fn has_confirmation(h: Seq<PatternHit>, bullish: bool, min_strength: u8) -> bool {
    exists|j: int| 0 <= j < h.len() && confirms(#[trigger] h[j], bullish, min_strength)
}

/// The strongest confirming hit of a side (of equally strong ones the last), if any.
pub fn strongest_confirmation(hits: &[PatternHit], bullish: bool, min_strength: u8) -> (r: Option<usize>)
    ensures
        r matches Some(k) ==> is_strongest(hits@, bullish, min_strength, k as int),
        r is None <==> !has_confirmation(hits@, bullish, min_strength),
        r matches Some(k) ==> k < hits@.len() && hits@[k as int].strength >= min_strength
            && (if bullish { hits@[k as int].direction > 0 } else { hits@[k as int].direction < 0 }),
{
    let mut best: Option<usize> = None;
    let mut i: usize = 0;
    while i < hits.len()
        invariant
            i <= hits@.len(),
            best matches Some(k) ==> k < i && confirms(hits@[k as int], bullish, min_strength)
                && (forall|j: int| 0 <= j < i && confirms(#[trigger] hits@[j], bullish, min_strength) ==> hits@[j].strength <= hits@[k as int].strength)
                && (forall|j: int| k < j < i && confirms(#[trigger] hits@[j], bullish, min_strength) ==> hits@[j].strength < hits@[k as int].strength),
            best is None ==> forall|j: int| 0 <= j < i ==> !confirms(#[trigger] hits@[j], bullish, min_strength),
        decreases hits@.len() - i,
    {
        let h = hits[i];
        let ok = if bullish { h.direction > 0 } else { h.direction < 0 };
        if ok && h.strength >= min_strength {
            match best {
                None => {
                    best = Some(i);
                },
                Some(k) => {
                    if h.strength >= hits[k].strength {
                        best = Some(i);
                    }
                },
            }
        }
        i = i + 1;
    }
    proof {
        if best is None {
            assert(!has_confirmation(hits@, bullish, min_strength));
        }
    }
    proof {
        if let Some(k) = best {
            lemma_confirmation_has_the_side_sign(hits@, bullish, min_strength, k as int);
        }
    }
    best
}

/// A confirming hit points the way of its side: the strongest confirmation of
/// the long side is a hit of positive direction, that of the short side one of
/// negative direction, and either is at least `min_strength` strong. A side has
/// a confirmation exactly when some hit of that sign is strong enough; a
/// neutral hit (direction 0) confirms neither side.
pub proof fn lemma_confirmation_has_the_side_sign(h: Seq<PatternHit>, bullish: bool, min_strength: u8, k: int)
    ensures
        is_strongest(h, bullish, min_strength, k) ==> h[k].strength >= min_strength
            && (if bullish { h[k].direction > 0 } else { h[k].direction < 0 }),
        has_confirmation(h, true, min_strength) <==> exists|j: int|
            0 <= j < h.len() && #[trigger] h[j].direction > 0 && h[j].strength >= min_strength,
        has_confirmation(h, false, min_strength) <==> exists|j: int|
            0 <= j < h.len() && #[trigger] h[j].direction < 0 && h[j].strength >= min_strength,
        forall|j: int| 0 <= j < h.len() && h[j].direction == 0 ==> !confirms(#[trigger] h[j], true, min_strength)
            && !confirms(h[j], false, min_strength),
{
    if has_confirmation(h, true, min_strength) {
        let j = choose|j: int| 0 <= j < h.len() && confirms(#[trigger] h[j], true, min_strength);
        assert(h[j].direction > 0);
    }
    if exists|j: int| 0 <= j < h.len() && #[trigger] h[j].direction > 0 && h[j].strength >= min_strength {
        let j = choose|j: int| 0 <= j < h.len() && #[trigger] h[j].direction > 0 && h[j].strength >= min_strength;
        assert(confirms(h[j], true, min_strength));
    }
    if has_confirmation(h, false, min_strength) {
        let j = choose|j: int| 0 <= j < h.len() && confirms(#[trigger] h[j], false, min_strength);
        assert(h[j].direction < 0);
    }
    if exists|j: int| 0 <= j < h.len() && #[trigger] h[j].direction < 0 && h[j].strength >= min_strength {
        let j = choose|j: int| 0 <= j < h.len() && #[trigger] h[j].direction < 0 && h[j].strength >= min_strength;
        assert(confirms(h[j], false, min_strength));
    }
}

/// An entry signal: the side, the Granville signal and the pattern hit behind it.
#[derive(Debug, Clone, Copy, PartialEq, Eq, Structural)]
pub struct EntrySignal {
    pub side: Side,
    pub granville: usize,
    pub pattern: usize,
}

/// The entry signal of a bar, from its Granville signals and pattern hits.
/// A long signal needs a buy rule and a strong bullish pattern; failing that,
/// a short signal (only where shorts are allowed) needs a sell rule and a
/// strong bearish pattern. The first signal of the side and the strongest
/// pattern (the last of equally strong ones) are named.
pub fn entry_signal(
    granvilles: &[GranvilleSignal],
    hits: &[PatternHit],
    min_strength: u8,
    allow_short: bool,
) -> (r: Option<EntrySignal>)
    ensures
        (has_side(granvilles@, true) && has_confirmation(hits@, true, min_strength)) ==> (r matches Some(e)
            && e.side == Side::Long && is_first_of_side(granvilles@, true, e.granville as int)
            && is_strongest(hits@, true, min_strength, e.pattern as int)),
        !(has_side(granvilles@, true) && has_confirmation(hits@, true, min_strength)) ==> (
            if allow_short && has_side(granvilles@, false) && has_confirmation(hits@, false, min_strength) {
                r matches Some(e) && e.side == Side::Short && is_first_of_side(granvilles@, false, e.granville as int)
                    && is_strongest(hits@, false, min_strength, e.pattern as int)
            } else {
                r is None
            }),
        r matches Some(e) ==> e.pattern < hits@.len() && hits@[e.pattern as int].strength >= min_strength,
        r matches Some(e) ==> (e.side == Side::Long ==> hits@[e.pattern as int].direction > 0),
        r matches Some(e) ==> (e.side == Side::Short ==> hits@[e.pattern as int].direction < 0 && allow_short),
{
    let buy = first_of_side(granvilles, true);
    let bull = strongest_confirmation(hits, true, min_strength);
    if let (Some(g), Some(p)) = (buy, bull) {
        return Some(EntrySignal { side: Side::Long, granville: g, pattern: p });
    }
    if allow_short {
        let sell = first_of_side(granvilles, false);
        let bear = strongest_confirmation(hits, false, min_strength);
        if let (Some(g), Some(p)) = (sell, bear) {
            return Some(EntrySignal { side: Side::Short, granville: g, pattern: p });
        }
    }
    None
}

} // verus!
