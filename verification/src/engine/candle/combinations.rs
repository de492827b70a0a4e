//! Two-bar candlestick combinations: a pattern confirmed by the next pattern
//! within two bars makes a stronger compound signal.

use vstd::prelude::*;
use crate::engine::candle::patterns::{PatternHit, PatternKind, pattern_direction};

verus! {

broadcast use vstd::seq_lib::group_to_multiset_ensures;

/// Compound signals made of two consecutive patterns.
#[derive(Debug, Clone, Copy, PartialEq, Eq, Hash, Structural)]
pub enum CandleCombination {
    HammerThenBullishEngulfing,
    ShootingStarThenBearishEngulfing,
    LongDojiThenBigBull,
    LongDojiThenBigBear,
    BullishEngulfingConfirmed,
    BearishEngulfingConfirmed,
    MorningStarConfirmed,
    EveningStarConfirmed,
}

/// Display name of each combination.
pub open spec fn combination_label(k: CandleCombination) -> Seq<char> {
    match k {
        CandleCombination::HammerThenBullishEngulfing => "锤头+看涨吞没（强烈底反转）"@,
        CandleCombination::ShootingStarThenBearishEngulfing => "射击之星+看跌吞没（强烈顶反转）"@,
        CandleCombination::LongDojiThenBigBull => "长十字+大阳（看涨转势确认）"@,
        CandleCombination::LongDojiThenBigBear => "长十字+大阴（看跌转势确认）"@,
        CandleCombination::BullishEngulfingConfirmed => "看涨吞没+续涨（反转确认）"@,
        CandleCombination::BearishEngulfingConfirmed => "看跌吞没+续跌（反转确认）"@,
        CandleCombination::MorningStarConfirmed => "早晨之星+续涨"@,
        CandleCombination::EveningStarConfirmed => "黄昏之星+续跌"@,
    }
}

/// Direction of each combination.
pub open spec fn combination_direction(k: CandleCombination) -> int {
    match k {
        CandleCombination::HammerThenBullishEngulfing
        | CandleCombination::LongDojiThenBigBull
        | CandleCombination::BullishEngulfingConfirmed
        | CandleCombination::MorningStarConfirmed => 1,
        CandleCombination::ShootingStarThenBearishEngulfing
        | CandleCombination::LongDojiThenBigBear
        | CandleCombination::BearishEngulfingConfirmed
        | CandleCombination::EveningStarConfirmed => -1,
    }
}

impl CandleCombination {
    pub fn label(&self) -> (r: &'static str)
        ensures
            r@ == combination_label(*self),
    {
        match self {
            CandleCombination::HammerThenBullishEngulfing => "锤头+看涨吞没（强烈底反转）",
            CandleCombination::ShootingStarThenBearishEngulfing => "射击之星+看跌吞没（强烈顶反转）",
            CandleCombination::LongDojiThenBigBull => "长十字+大阳（看涨转势确认）",
            CandleCombination::LongDojiThenBigBear => "长十字+大阴（看跌转势确认）",
            CandleCombination::BullishEngulfingConfirmed => "看涨吞没+续涨（反转确认）",
            CandleCombination::BearishEngulfingConfirmed => "看跌吞没+续跌（反转确认）",
            CandleCombination::MorningStarConfirmed => "早晨之星+续涨",
            CandleCombination::EveningStarConfirmed => "黄昏之星+续跌",
        }
    }

    pub fn direction(&self) -> (r: i8)
        ensures
            r == combination_direction(*self),
    {
        match self {
            CandleCombination::HammerThenBullishEngulfing
            | CandleCombination::LongDojiThenBigBull
            | CandleCombination::BullishEngulfingConfirmed
            | CandleCombination::MorningStarConfirmed => 1,
            CandleCombination::ShootingStarThenBearishEngulfing
            | CandleCombination::LongDojiThenBigBear
            | CandleCombination::BearishEngulfingConfirmed
            | CandleCombination::EveningStarConfirmed => -1,
        }
    }

    /// Weight of a combination relative to a single-candle signal, in percent:
    /// every combination counts one and a half times.
    pub fn strength_multiplier_percent(&self) -> (r: u16)
        ensures
            r == 150,
    {
        150
    }
}

/// A detected combination: the bar of its first pattern and of its confirming pattern.
#[derive(Debug, Clone, Copy, PartialEq, Eq, Structural)]
pub struct CombinationEvent {
    pub confirm_index: usize,
    pub first_index: usize,
    pub kind: CandleCombination,
}

/// The combination that `first` followed by `second` makes, if any.
pub open spec fn combination_of(first: PatternKind, second: PatternKind) -> Option<CandleCombination> {
    match (first, second) {
        (PatternKind::Hammer, PatternKind::BullishEngulfing) => Some(CandleCombination::HammerThenBullishEngulfing),
        (PatternKind::ShootingStar, PatternKind::BearishEngulfing) => Some(CandleCombination::ShootingStarThenBearishEngulfing),
        (PatternKind::LongDoji, PatternKind::BigBullCandle) => Some(CandleCombination::LongDojiThenBigBull),
        (PatternKind::LongDoji, PatternKind::BigBearCandle) => Some(CandleCombination::LongDojiThenBigBear),
        (PatternKind::BullishEngulfing, PatternKind::BigBullCandle) => Some(CandleCombination::BullishEngulfingConfirmed),
        (PatternKind::BullishEngulfing, PatternKind::MarubozuBull) => Some(CandleCombination::BullishEngulfingConfirmed),
        (PatternKind::BearishEngulfing, PatternKind::BigBearCandle) => Some(CandleCombination::BearishEngulfingConfirmed),
        (PatternKind::BearishEngulfing, PatternKind::MarubozuBear) => Some(CandleCombination::BearishEngulfingConfirmed),
        (PatternKind::MorningStar, PatternKind::BigBullCandle) => Some(CandleCombination::MorningStarConfirmed),
        (PatternKind::MorningStar, PatternKind::MarubozuBull) => Some(CandleCombination::MorningStarConfirmed),
        (PatternKind::EveningStar, PatternKind::BigBearCandle) => Some(CandleCombination::EveningStarConfirmed),
        (PatternKind::EveningStar, PatternKind::MarubozuBear) => Some(CandleCombination::EveningStarConfirmed),
        _ => None,
    }
}

/// The combination that `first` followed by `second` makes, if any.
pub fn classify_pair(first: PatternKind, second: PatternKind) -> (r: Option<CandleCombination>)
    ensures
        r == combination_of(first, second),
{
    match (first, second) {
        (PatternKind::Hammer, PatternKind::BullishEngulfing) => Some(CandleCombination::HammerThenBullishEngulfing),
        (PatternKind::ShootingStar, PatternKind::BearishEngulfing) => Some(CandleCombination::ShootingStarThenBearishEngulfing),
        (PatternKind::LongDoji, PatternKind::BigBullCandle) => Some(CandleCombination::LongDojiThenBigBull),
        (PatternKind::LongDoji, PatternKind::BigBearCandle) => Some(CandleCombination::LongDojiThenBigBear),
        (PatternKind::BullishEngulfing, PatternKind::BigBullCandle) => Some(CandleCombination::BullishEngulfingConfirmed),
        (PatternKind::BullishEngulfing, PatternKind::MarubozuBull) => Some(CandleCombination::BullishEngulfingConfirmed),
        (PatternKind::BearishEngulfing, PatternKind::BigBearCandle) => Some(CandleCombination::BearishEngulfingConfirmed),
        (PatternKind::BearishEngulfing, PatternKind::MarubozuBear) => Some(CandleCombination::BearishEngulfingConfirmed),
        (PatternKind::MorningStar, PatternKind::BigBullCandle) => Some(CandleCombination::MorningStarConfirmed),
        (PatternKind::MorningStar, PatternKind::MarubozuBull) => Some(CandleCombination::MorningStarConfirmed),
        (PatternKind::EveningStar, PatternKind::BigBearCandle) => Some(CandleCombination::EveningStarConfirmed),
        (PatternKind::EveningStar, PatternKind::MarubozuBear) => Some(CandleCombination::EveningStarConfirmed),
        _ => None,
    }
}

/// The combination table: a hammer confirmed by a bullish engulfing, a shooting
/// star by a bearish engulfing, a long doji by a big candle of either colour;
/// and a bullish engulfing or morning star followed by a big bullish candle or
/// a bullish marubozu (bearish engulfing or evening star by their bearish
/// counterparts) is confirmed.
pub proof fn lemma_combination_table()
    ensures
        combination_of(PatternKind::Hammer, PatternKind::BullishEngulfing) == Some(CandleCombination::HammerThenBullishEngulfing),
        combination_of(PatternKind::ShootingStar, PatternKind::BearishEngulfing) == Some(CandleCombination::ShootingStarThenBearishEngulfing),
        combination_of(PatternKind::LongDoji, PatternKind::BigBullCandle) == Some(CandleCombination::LongDojiThenBigBull),
        combination_of(PatternKind::LongDoji, PatternKind::BigBearCandle) == Some(CandleCombination::LongDojiThenBigBear),
        forall|c: PatternKind| (c == PatternKind::BigBullCandle || c == PatternKind::MarubozuBull) ==> {
            &&& #[trigger] combination_of(PatternKind::BullishEngulfing, c) == Some(CandleCombination::BullishEngulfingConfirmed)
            &&& combination_of(PatternKind::MorningStar, c) == Some(CandleCombination::MorningStarConfirmed)
        },
        forall|c: PatternKind| (c == PatternKind::BigBearCandle || c == PatternKind::MarubozuBear) ==> {
            &&& #[trigger] combination_of(PatternKind::BearishEngulfing, c) == Some(CandleCombination::BearishEngulfingConfirmed)
            &&& combination_of(PatternKind::EveningStar, c) == Some(CandleCombination::EveningStarConfirmed)
        },
{
}

/// A combination always points the way of its confirming pattern.
pub proof fn lemma_combination_follows_confirmation(first: PatternKind, second: PatternKind)
    requires
        combination_of(first, second) is Some,
    ensures
        combination_direction(combination_of(first, second)->0) == pattern_direction(second),
        pattern_direction(second) != 0,
{
}

// ---------- stable ordering of hits by bar index ----------

/// `x` placed after every item of `s` whose index is not larger (walking from the back).
pub open spec fn insert_by_index(s: Seq<PatternHit>, x: PatternHit) -> Seq<PatternHit>
    decreases s.len(),
{
    if s.len() == 0 {
        seq![x]
    } else if s.last().index <= x.index {
        s.push(x)
    } else {
        insert_by_index(s.drop_last(), x).push(s.last())
    }
}

/// The hits ordered by bar index; hits on the same bar keep their input order.
pub open spec fn sort_by_index(s: Seq<PatternHit>) -> Seq<PatternHit>
    decreases s.len(),
{
    if s.len() == 0 {
        seq![]
    } else {
        insert_by_index(sort_by_index(s.drop_last()), s.last())
    }
}

/// Bar indices do not decrease along `s`.
pub open spec fn sorted_by_index(s: Seq<PatternHit>) -> bool {
    forall|i: int, j: int| 0 <= i < j < s.len() ==> s[i].index <= s[j].index
}

proof fn lemma_insert_len_bound(s: Seq<PatternHit>, x: PatternHit, m: int)
    requires
        forall|i: int| 0 <= i < s.len() ==> s[i].index <= m,
        x.index <= m,
    ensures
        insert_by_index(s, x).len() == s.len() + 1,
        forall|i: int| 0 <= i < insert_by_index(s, x).len() ==> insert_by_index(s, x)[i].index <= m,
    decreases s.len(),
{
    if s.len() > 0 && s.last().index > x.index {
        lemma_insert_len_bound(s.drop_last(), x, m);
    }
}

proof fn lemma_insert_len(s: Seq<PatternHit>, x: PatternHit)
    ensures
        insert_by_index(s, x).len() == s.len() + 1,
    decreases s.len(),
{
    if s.len() > 0 && s.last().index > x.index {
        lemma_insert_len(s.drop_last(), x);
    }
}

proof fn lemma_insert_sorted(s: Seq<PatternHit>, x: PatternHit)
    requires
        sorted_by_index(s),
    ensures
        sorted_by_index(insert_by_index(s, x)),
    decreases s.len(),
{
    if s.len() > 0 && s.last().index > x.index {
        let d = s.drop_last();
        assert(sorted_by_index(d));
        lemma_insert_sorted(d, x);
        assert forall|i: int| 0 <= i < d.len() implies d[i].index <= s.last().index by {
            assert(s[i] == d[i]);
        }
        lemma_insert_len_bound(d, x, s.last().index as int);
    }
}

proof fn lemma_insert_multiset(s: Seq<PatternHit>, x: PatternHit)
    ensures
        insert_by_index(s, x).to_multiset() =~= s.to_multiset().insert(x),
    decreases s.len(),
{
    if s.len() > 0 && s.last().index > x.index {
        let d = s.drop_last();
        lemma_insert_multiset(d, x);
        assert(d.push(s.last()) =~= s);
    }
}

/// Ordering the hits yields a sequence sorted by bar index.
pub proof fn lemma_sort_by_index_sorted(s: Seq<PatternHit>)
    ensures
        sorted_by_index(sort_by_index(s)),
        sort_by_index(s).len() == s.len(),
    decreases s.len(),
{
    if s.len() > 0 {
        lemma_sort_by_index_sorted(s.drop_last());
        lemma_insert_sorted(sort_by_index(s.drop_last()), s.last());
        lemma_insert_len(sort_by_index(s.drop_last()), s.last());
    }
}

/// Ordering the hits neither drops nor invents hits.
pub proof fn lemma_sort_by_index_permutes(s: Seq<PatternHit>)
    ensures
        sort_by_index(s).to_multiset() =~= s.to_multiset(),
    decreases s.len(),
{
    if s.len() > 0 {
        lemma_sort_by_index_permutes(s.drop_last());
        lemma_insert_multiset(sort_by_index(s.drop_last()), s.last());
        assert(s.drop_last().push(s.last()) =~= s);
    }
}

fn insert_hit(v: &mut Vec<PatternHit>, x: PatternHit)
    ensures
        final(v)@ == insert_by_index(old(v)@, x),
{
    let ghost s = v@;
    let mut pos: usize = v.len();
    assert(s.subrange(0, pos as int) =~= s);
    assert(insert_by_index(s, x) + s.subrange(pos as int, s.len() as int) =~= insert_by_index(s, x));
    while pos > 0 && v[pos - 1].index > x.index
        invariant
            v@ == s,
            pos <= s.len(),
            insert_by_index(s, x) == insert_by_index(s.subrange(0, pos as int), x) + s.subrange(
                pos as int,
                s.len() as int,
            ),
        decreases pos,
    {
        let ghost p = s.subrange(0, pos as int);
        assert(p.drop_last() =~= s.subrange(0, pos - 1));
        assert(insert_by_index(p, x) == insert_by_index(p.drop_last(), x).push(p.last()));
        assert(insert_by_index(p.drop_last(), x).push(p.last()) + s.subrange(pos as int, s.len() as int)
            =~= insert_by_index(s.subrange(0, pos - 1), x) + s.subrange(pos - 1, s.len() as int));
        pos = pos - 1;
    }
    let ghost p = s.subrange(0, pos as int);
    assert(insert_by_index(p, x) =~= p.push(x));
    v.insert(pos, x);
    assert(v@ =~= insert_by_index(s, x));
}

/// The hits ordered by bar index (stable).
pub fn sort_hits_by_index(hits: &[PatternHit]) -> (r: Vec<PatternHit>)
    ensures
        r@ == sort_by_index(hits@),
{
    let mut out: Vec<PatternHit> = Vec::new();
    let mut i: usize = 0;
    while i < hits.len()
        invariant
            i <= hits.len(),
            out@ == sort_by_index(hits@.subrange(0, i as int)),
        decreases hits.len() - i,
    {
        insert_hit(&mut out, hits[i]);
        assert(hits@.subrange(0, i + 1).drop_last() =~= hits@.subrange(0, i as int));
        i = i + 1;
    }
    assert(hits@.subrange(0, hits.len() as int) =~= hits@);
    out
}

// ---------- combination scan ----------

/// Two hits (in bar order) are close enough to combine: on different bars at
/// most two bars apart.
pub open spec fn close_enough(a: PatternHit, b: PatternHit) -> bool {
    let gap = if b.index >= a.index { b.index - a.index } else { 0 };
    !(gap > 2 || b.index == a.index)
}

/// The combination event that the neighbours `a`, `b` make, if any.
pub open spec fn pair_event(a: PatternHit, b: PatternHit) -> Option<CombinationEvent> {
    if close_enough(a, b) && combination_of(a.kind, b.kind) is Some {
        Some(CombinationEvent { first_index: a.index, confirm_index: b.index, kind: combination_of(a.kind, b.kind)->0 })
    } else {
        None
    }
}

/// The events of all neighbouring pairs of `s`, in order.
pub open spec fn combos_in(s: Seq<PatternHit>) -> Seq<CombinationEvent>
    decreases s.len(),
{
    if s.len() < 2 {
        seq![]
    } else {
        let prev = combos_in(s.drop_last());
        match pair_event(s[s.len() - 2], s[s.len() - 1]) {
            Some(e) => prev.push(e),
            None => prev,
        }
    }
}

/// Orders the hits by bar index and reports every pair of neighbouring hits
/// that forms a combination.
pub fn detect_combinations(hits: &[PatternHit]) -> (r: Vec<CombinationEvent>)
    ensures
        r@ == combos_in(sort_by_index(hits@)),
{
    proof {
        lemma_sort_by_index_sorted(hits@);
    }
    if hits.len() < 2 {
        return Vec::new();
    }
    let sorted = sort_hits_by_index(hits);
    let n = sorted.len();
    let mut out: Vec<CombinationEvent> = Vec::new();
    let mut k: usize = 1;
    while k < n
        invariant
            n == sorted@.len(),
            2 <= n,
            1 <= k <= n,
            out@ == combos_in(sorted@.subrange(0, k as int)),
        decreases n - k,
    {
        let a = sorted[k - 1];
        let b = sorted[k];
        let gap = if b.index >= a.index { b.index - a.index } else { 0 };
        let ghost t = sorted@.subrange(0, k + 1);
        assert(t.drop_last() =~= sorted@.subrange(0, k as int));
        assert(t[t.len() - 2] == a && t[t.len() - 1] == b);
        if !(gap > 2 || b.index == a.index) {
            if let Some(kind) = classify_pair(a.kind, b.kind) {
                out.push(CombinationEvent { first_index: a.index, confirm_index: b.index, kind });
            }
        }
        k = k + 1;
    }
    assert(sorted@.subrange(0, n as int) =~= sorted@);
    out
}

/// Every reported combination spans two distinct bars at most two apart, in order.
pub proof fn lemma_combination_span(s: Seq<PatternHit>, i: int)
    requires
        sorted_by_index(s),
        0 <= i < combos_in(s).len(),
    ensures
        combos_in(s)[i].first_index < combos_in(s)[i].confirm_index <= combos_in(s)[i].first_index + 2,
    decreases s.len(),
{
    if s.len() >= 2 {
        let d = s.drop_last();
        assert(sorted_by_index(d));
        if i < combos_in(d).len() {
            lemma_combination_span(d, i);
        } else {
            assert(s[s.len() - 2].index <= s[s.len() - 1].index);
        }
    }
}


// ---------- independence from the order of the hits ----------

/// No two hits of `s` stand on the same bar.
pub open spec fn distinct_bars(s: Seq<PatternHit>) -> bool {
    forall|i: int, j: int| 0 <= i < j < s.len() ==> s[i].index != s[j].index
}

proof fn lemma_insert_distinct(s: Seq<PatternHit>, x: PatternHit)
    requires
        distinct_bars(s),
        forall|i: int| 0 <= i < s.len() ==> s[i].index != x.index,
    ensures
        distinct_bars(insert_by_index(s, x)),
    decreases s.len(),
{
    if s.len() > 0 && s.last().index > x.index {
        let d = s.drop_last();
        assert forall|i: int| 0 <= i < d.len() implies d[i].index != x.index by {
            assert(d[i] == s[i]);
        }
        assert(distinct_bars(d)) by {
            assert forall|i: int, j: int| 0 <= i < j < d.len() implies d[i].index != d[j].index by {
                assert(d[i] == s[i] && d[j] == s[j]);
            }
        }
        lemma_insert_distinct(d, x);
        lemma_insert_multiset(d, x);
        lemma_insert_len(d, x);
        let r = insert_by_index(d, x);
        assert forall|i: int| 0 <= i < r.len() implies r[i].index != s.last().index by {
            let y = r[i];
            assert(r.contains(y));
            assert(r.to_multiset().count(y) > 0);
            if y != x {
                assert(d.to_multiset().count(y) > 0);
                assert(d.contains(y));
                let k = choose|k: int| 0 <= k < d.len() && d[k] == y;
                assert(s[k] == d[k]);
            }
        }
        assert(insert_by_index(s, x) == r.push(s.last()));
    }
}

proof fn lemma_sort_distinct(h: Seq<PatternHit>)
    requires
        distinct_bars(h),
    ensures
        distinct_bars(sort_by_index(h)),
    decreases h.len(),
{
    if h.len() > 0 {
        let d = h.drop_last();
        assert(distinct_bars(d)) by {
            assert forall|i: int, j: int| 0 <= i < j < d.len() implies d[i].index != d[j].index by {
                assert(d[i] == h[i] && d[j] == h[j]);
            }
        }
        lemma_sort_distinct(d);
        lemma_sort_by_index_permutes(d);
        let t = sort_by_index(d);
        assert forall|i: int| 0 <= i < t.len() implies t[i].index != h.last().index by {
            let y = t[i];
            assert(t.contains(y));
            assert(t.to_multiset().count(y) > 0);
            assert(d.to_multiset().count(y) > 0);
            assert(d.contains(y));
            let k = choose|k: int| 0 <= k < d.len() && d[k] == y;
            assert(h[k] == d[k]);
        }
        lemma_insert_distinct(t, h.last());
    }
}

proof fn lemma_sorted_by_index_unique(s: Seq<PatternHit>, t: Seq<PatternHit>)
    requires
        sorted_by_index(s),
        distinct_bars(s),
        sorted_by_index(t),
        s.to_multiset() == t.to_multiset(),
    ensures
        s == t,
    decreases s.len(),
{
    broadcast use vstd::multiset::group_multiset_axioms;

    assert(s.len() == s.to_multiset().len());
    assert(t.len() == t.to_multiset().len());
    if s.len() == 0 {
        assert(s =~= t);
    } else {
        let n = s.len();
        let m = s.last();
        assert(s.contains(m)) by {
            assert(s[n - 1] == m);
        }
        assert(s.to_multiset().count(m) > 0);
        assert(t.to_multiset().count(m) > 0);
        assert(t.contains(m));
        let j = choose|j: int| 0 <= j < t.len() && t[j] == m;
        let tl = t.last();
        assert(t.contains(tl)) by {
            assert(t[t.len() - 1] == tl);
        }
        assert(t.to_multiset().count(tl) > 0);
        assert(s.to_multiset().count(tl) > 0);
        assert(s.contains(tl));
        let i = choose|i: int| 0 <= i < s.len() && s[i] == tl;
        if j < t.len() - 1 {
            assert(t[j].index <= t[t.len() - 1].index);
        }
        if i < n - 1 {
            assert(s[i].index <= s[n - 1].index);
            assert(s[i].index != s[n - 1].index);
        }
        assert(tl == m);
        let sd = s.drop_last();
        let td = t.drop_last();
        assert(sd.push(m) =~= s);
        assert(td.push(m) =~= t);
        assert(sd.to_multiset().insert(m) =~= td.to_multiset().insert(m));
        assert(sd.to_multiset() =~= td.to_multiset()) by {
            assert forall|y: PatternHit| sd.to_multiset().count(y) == td.to_multiset().count(y) by {
                assert(sd.to_multiset().insert(m).count(y) == td.to_multiset().insert(m).count(y));
            }
        }
        assert(sorted_by_index(sd)) by {
            assert forall|a: int, b: int| 0 <= a < b < sd.len() implies sd[a].index <= sd[b].index by {
                assert(sd[a] == s[a] && sd[b] == s[b]);
            }
        }
        assert(distinct_bars(sd)) by {
            assert forall|a: int, b: int| 0 <= a < b < sd.len() implies sd[a].index != sd[b].index by {
                assert(sd[a] == s[a] && sd[b] == s[b]);
            }
        }
        assert(sorted_by_index(td)) by {
            assert forall|a: int, b: int| 0 <= a < b < td.len() implies td[a].index <= td[b].index by {
                assert(td[a] == t[a] && td[b] == t[b]);
            }
        }
        lemma_sorted_by_index_unique(sd, td);
        assert(s =~= t);
    }
}

/// Where no two hits share a bar, the detected combinations do not depend on
/// the order in which the hits are given: any rearrangement of the same hits
/// yields the same events.
pub proof fn lemma_combinations_ignore_hit_order(h1: Seq<PatternHit>, h2: Seq<PatternHit>)
    requires
        distinct_bars(h1),
        h1.to_multiset() == h2.to_multiset(),
    ensures
        sort_by_index(h1) == sort_by_index(h2),
        combos_in(sort_by_index(h1)) == combos_in(sort_by_index(h2)),
{
    lemma_sort_by_index_sorted(h1);
    lemma_sort_by_index_sorted(h2);
    lemma_sort_by_index_permutes(h1);
    lemma_sort_by_index_permutes(h2);
    lemma_sort_distinct(h1);
    lemma_sorted_by_index_unique(sort_by_index(h1), sort_by_index(h2));
}

} // verus!
