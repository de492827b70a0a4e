//! Long-doji scenarios, island-reversal levels, the parent/child hierarchy
//! of candle patterns, rounding-bottom phases and the two-peak left shoulder.

use vstd::prelude::*;
use crate::engine::candle::patterns::PatternKind;
use crate::engine::trend::{SwingKind, SwingPoint};

verus! {

/// The four scenarios of a long-legged doji.
#[derive(Debug, Clone, Copy, PartialEq, Eq, Hash, Structural)]
pub enum LongDojiContext {
    BullishContinuation,
    ReversalToBull,
    BearishContinuation,
    HighMountainFlood,
}

/// Direction of each long-doji scenario.
pub open spec fn long_doji_direction(k: LongDojiContext) -> int {
    match k {
        LongDojiContext::BullishContinuation | LongDojiContext::ReversalToBull => 1,
        LongDojiContext::BearishContinuation | LongDojiContext::HighMountainFlood => -1,
    }
}

/// Display name of each long-doji scenario.
pub open spec fn long_doji_label(k: LongDojiContext) -> Seq<char> {
    match k {
        LongDojiContext::BullishContinuation => "上涨中长十字（看涨强烈）"@,
        LongDojiContext::ReversalToBull => "转势长十字（继续看涨）"@,
        LongDojiContext::BearishContinuation => "下跌中长十字（继续看跌）"@,
        LongDojiContext::HighMountainFlood => "高山泄洪（空方击溃）"@,
    }
}

impl LongDojiContext {
    pub fn direction(&self) -> (r: i8)
        ensures
            r == long_doji_direction(*self),
    {
        match self {
            LongDojiContext::BullishContinuation | LongDojiContext::ReversalToBull => 1,
            LongDojiContext::BearishContinuation | LongDojiContext::HighMountainFlood => -1,
        }
    }

    pub fn label(&self) -> (r: &'static str)
        ensures
            r@ == long_doji_label(*self),
    {
        match self {
            LongDojiContext::BullishContinuation => "上涨中长十字（看涨强烈）",
            LongDojiContext::ReversalToBull => "转势长十字（继续看涨）",
            LongDojiContext::BearishContinuation => "下跌中长十字（继续看跌）",
            LongDojiContext::HighMountainFlood => "高山泄洪（空方击溃）",
        }
    }
}

/// Three-factor rating of a three-white-soldiers formation.
#[derive(Debug, Clone, Copy, PartialEq, Eq, Structural)]
pub struct ThreeSoldiersScore {
    pub factor1_breakout_from_consolidation: bool,
    pub factor2_rising_volume: bool,
    pub factor3_close_at_high: bool,
    /// All three factors hold and the last body is the longest.
    pub is_white_soldiers: bool,
    /// Number of factors that hold, 0..=3.
    pub score: u8,
}

/// A run of small bearish candles closed by a medium or large bearish candle.
#[derive(Debug, Clone, Copy, PartialEq, Eq, Structural)]
pub struct GradualDeclineEvent {
    pub start_index: usize,
    pub end_index: usize,
    pub small_bear_count: usize,
}

/// A large bullish candle followed by two small bullish candles.
#[derive(Debug, Clone, Copy, PartialEq, Eq, Structural)]
pub struct TwoRisingStarsEvent {
    pub big_bull_index: usize,
    pub star1_index: usize,
    pub star2_index: usize,
}

/// Trend level signalled by an island reversal, by the length of the island.
#[derive(Debug, Clone, Copy, PartialEq, Eq, Hash, Structural)]
pub enum IslandTrendLevel {
    ShortTerm,
    MidTerm,
    LongTerm,
}

/// Display name of each island level.
pub open spec fn island_level_label(k: IslandTrendLevel) -> Seq<char> {
    match k {
        IslandTrendLevel::ShortTerm => "短期反转"@,
        IslandTrendLevel::MidTerm => "中期反转"@,
        IslandTrendLevel::LongTerm => "长期反转（最可靠）"@,
    }
}

impl IslandTrendLevel {
    pub fn label(&self) -> (r: &'static str)
        ensures
            r@ == island_level_label(*self),
    {
        match self {
            IslandTrendLevel::ShortTerm => "短期反转",
            IslandTrendLevel::MidTerm => "中期反转",
            IslandTrendLevel::LongTerm => "长期反转（最可靠）",
        }
    }

    /// Reliability of the reversal, in percent: 40, 70 and 95 from short to long term.
    pub fn reliability_percent(&self) -> (r: u8)
        ensures
            r == island_reliability_percent(*self),
    {
        match self {
            IslandTrendLevel::ShortTerm => 40,
            IslandTrendLevel::MidTerm => 70,
            IslandTrendLevel::LongTerm => 95,
        }
    }

    /// Share of the position to exit, in percent: half on a short-term
    /// island, three quarters on a mid-term one, all of it on a long-term one.
    pub fn recommended_exit_percent(&self) -> (r: u8)
        ensures
            r == island_exit_percent(*self),
    {
        match self {
            IslandTrendLevel::ShortTerm => 50,
            IslandTrendLevel::MidTerm => 75,
            IslandTrendLevel::LongTerm => 100,
        }
    }
}

/// Reliability of each island level, in percent.
pub open spec fn island_reliability_percent(l: IslandTrendLevel) -> u8 {
    match l {
        IslandTrendLevel::ShortTerm => 40,
        IslandTrendLevel::MidTerm => 70,
        IslandTrendLevel::LongTerm => 95,
    }
}

/// Recommended exit share of each island level, in percent.
pub open spec fn island_exit_percent(l: IslandTrendLevel) -> u8 {
    match l {
        IslandTrendLevel::ShortTerm => 50,
        IslandTrendLevel::MidTerm => 75,
        IslandTrendLevel::LongTerm => 100,
    }
}

/// Level of an island reversal: up to 5 bars short term, up to 20 mid term,
/// longer long term.
pub open spec fn island_level_for(bars_in_island: int) -> IslandTrendLevel {
    if bars_in_island <= 5 {
        IslandTrendLevel::ShortTerm
    } else if bars_in_island <= 20 {
        IslandTrendLevel::MidTerm
    } else {
        IslandTrendLevel::LongTerm
    }
}

/// Trend level of an island that spans `bars_in_island` bars.
pub fn island_trend_level(bars_in_island: usize) -> (r: IslandTrendLevel)
    ensures
        r == island_level_for(bars_in_island as int),
{
    if bars_in_island <= 5 {
        IslandTrendLevel::ShortTerm
    } else if bars_in_island <= 20 {
        IslandTrendLevel::MidTerm
    } else {
        IslandTrendLevel::LongTerm
    }
}

/// Rank of an island level (short 0, mid 1, long 2).
pub open spec fn island_level_rank(l: IslandTrendLevel) -> int {
    match l {
        IslandTrendLevel::ShortTerm => 0,
        IslandTrendLevel::MidTerm => 1,
        IslandTrendLevel::LongTerm => 2,
    }
}

/// A longer island never signals a lower trend level.
pub proof fn lemma_island_level_monotone(a: int, b: int)
    requires
        a <= b,
    ensures
        island_level_rank(island_level_for(a)) <= island_level_rank(island_level_for(b)),
{
}

/// The longer the trend an island reverses, the more reliable it is and the
/// more of the position it recommends to exit.
pub proof fn lemma_island_level_raises_reliability_and_exit(a: IslandTrendLevel, b: IslandTrendLevel)
    requires
        island_level_rank(a) < island_level_rank(b),
    ensures
        island_reliability_percent(a) < island_reliability_percent(b),
        island_exit_percent(a) < island_exit_percent(b),
{
}

/// The larger patterns that a pattern can be a component of.
pub open spec fn parents_of(child: PatternKind) -> Seq<PatternKind> {
    match child {
        PatternKind::DojiStar | PatternKind::LongDoji => seq![
            PatternKind::MorningStar,
            PatternKind::EveningStar,
            PatternKind::MorningDojiStar,
            PatternKind::EveningDojiStar,
        ],
        PatternKind::BullishEngulfing => seq![
            PatternKind::MorningStar,
            PatternKind::ThreeInsideUp,
            PatternKind::ThreeOutsideUp,
        ],
        PatternKind::BearishEngulfing => seq![
            PatternKind::EveningStar,
            PatternKind::ThreeInsideDown,
            PatternKind::ThreeOutsideDown,
        ],
        PatternKind::BullishHarami => seq![PatternKind::ThreeInsideUp],
        PatternKind::BearishHarami => seq![PatternKind::ThreeInsideDown],
        PatternKind::PiercingLine => seq![PatternKind::MorningStar, PatternKind::MorningDojiStar],
        PatternKind::DarkCloudCover => seq![PatternKind::EveningStar, PatternKind::EveningDojiStar],
        PatternKind::Hammer => seq![PatternKind::MorningStar],
        PatternKind::HangingMan => seq![PatternKind::EveningStar],
        PatternKind::InvertedHammer => seq![PatternKind::MorningStar],
        PatternKind::ShootingStar => seq![PatternKind::EveningStar],
        _ => seq![],
    }
}

/// Every larger pattern that `child` can be a component of.
pub fn parent_patterns_of(child: PatternKind) -> (r: Vec<PatternKind>)
    ensures
        r@ == parents_of(child),
{
    let r = match child {
        PatternKind::DojiStar | PatternKind::LongDoji => vec![
            PatternKind::MorningStar,
            PatternKind::EveningStar,
            PatternKind::MorningDojiStar,
            PatternKind::EveningDojiStar,
        ],
        PatternKind::BullishEngulfing => vec![
            PatternKind::MorningStar,
            PatternKind::ThreeInsideUp,
            PatternKind::ThreeOutsideUp,
        ],
        PatternKind::BearishEngulfing => vec![
            PatternKind::EveningStar,
            PatternKind::ThreeInsideDown,
            PatternKind::ThreeOutsideDown,
        ],
        PatternKind::BullishHarami => vec![PatternKind::ThreeInsideUp],
        PatternKind::BearishHarami => vec![PatternKind::ThreeInsideDown],
        PatternKind::PiercingLine => vec![PatternKind::MorningStar, PatternKind::MorningDojiStar],
        PatternKind::DarkCloudCover => vec![PatternKind::EveningStar, PatternKind::EveningDojiStar],
        PatternKind::Hammer => vec![PatternKind::MorningStar],
        PatternKind::HangingMan => vec![PatternKind::EveningStar],
        PatternKind::InvertedHammer => vec![PatternKind::MorningStar],
        PatternKind::ShootingStar => vec![PatternKind::EveningStar],
        _ => vec![],
    };
    assert(r@ =~= parents_of(child));
    r
}

/// Two patterns are siblings when some larger pattern has both as components.
pub open spec fn siblings(a: PatternKind, b: PatternKind) -> bool {
    exists|i: int, j: int|
        #![trigger parents_of(a)[i], parents_of(b)[j]]
        0 <= i < parents_of(a).len() && 0 <= j < parents_of(b).len() && parents_of(a)[i]
            == parents_of(b)[j]
}

/// Do `a` and `b` share a parent pattern?
pub fn are_siblings(a: PatternKind, b: PatternKind) -> (r: bool)
    ensures
        r == siblings(a, b),
{
    let pa = parent_patterns_of(a);
    let pb = parent_patterns_of(b);
    let mut i: usize = 0;
    while i < pa.len()
        invariant
            pa@ == parents_of(a),
            pb@ == parents_of(b),
            i <= pa.len(),
            forall|x: int, y: int| 0 <= x < i && 0 <= y < pb.len() ==> pa@[x] != pb@[y],
        decreases pa.len() - i,
    {
        let mut j: usize = 0;
        while j < pb.len()
            invariant
                pa@ == parents_of(a),
                pb@ == parents_of(b),
                i < pa.len(),
                j <= pb.len(),
                forall|y: int| 0 <= y < j ==> pa@[i as int] != pb@[y],
            decreases pb.len() - j,
        {
            if pa[i] == pb[j] {
                assert(pa@[i as int] == pb@[j as int]);
                return true;
            }
            j = j + 1;
        }
        i = i + 1;
    }
    false
}

/// Being siblings is symmetric.
pub proof fn lemma_siblings_symmetric(a: PatternKind, b: PatternKind)
    ensures
        siblings(a, b) == siblings(b, a),
{
    if siblings(a, b) {
        let (i, j) = choose|i: int, j: int|
            0 <= i < parents_of(a).len() && 0 <= j < parents_of(b).len() && parents_of(a)[i]
                == parents_of(b)[j];
        assert(parents_of(b)[j] == parents_of(a)[i]);
    }
    if siblings(b, a) {
        let (i, j) = choose|i: int, j: int|
            0 <= i < parents_of(b).len() && 0 <= j < parents_of(a).len() && parents_of(b)[i]
                == parents_of(a)[j];
        assert(parents_of(a)[j] == parents_of(b)[i]);
    }
}

/// The hierarchy has one level: a parent pattern is not itself a component of
/// a larger pattern.
pub proof fn lemma_parents_are_top_level(child: PatternKind, i: int)
    requires
        0 <= i < parents_of(child).len(),
    ensures
        parents_of(parents_of(child)[i]).len() == 0,
{
}


/// The three phases of a rounding bottom.
#[derive(Debug, Clone, Copy, PartialEq, Eq, Hash, Structural)]
pub enum RoundingBottomPhase {
    DownLeft,
    SpringCold,
    RightRising,
}

/// Display name of each rounding-bottom phase.
pub open spec fn rounding_phase_label(k: RoundingBottomPhase) -> Seq<char> {
    match k {
        RoundingBottomPhase::DownLeft => "左侧下探"@,
        RoundingBottomPhase::SpringCold => "倒春寒（被套抛盘）"@,
        RoundingBottomPhase::RightRising => "右侧回升"@,
    }
}

impl RoundingBottomPhase {
    pub fn label(&self) -> (r: &'static str)
        ensures
            r@ == rounding_phase_label(*self),
    {
        match self {
            RoundingBottomPhase::DownLeft => "左侧下探",
            RoundingBottomPhase::SpringCold => "倒春寒（被套抛盘）",
            RoundingBottomPhase::RightRising => "右侧回升",
        }
    }
}

/// Result of the two-peak left-shoulder test.
#[derive(Debug, Clone, Copy, PartialEq, Eq, Structural)]
pub struct ComplexLeftShoulderAnalysis {
    /// The left shoulder has two peaks of similar height.
    pub is_complex: bool,
    /// Index of the higher (main) peak, or of the only peak, or the head's index.
    pub main_peak_index: usize,
    /// Index of the lower peak (the B-wave rebound) when the shoulder is complex.
    pub sub_peak_index: Option<usize>,
}

/// The swing highs of `s` that lie before bar `head_index`, in order.
pub open spec fn highs_before(s: Seq<SwingPoint>, head_index: int) -> Seq<SwingPoint>
    decreases s.len(),
{
    if s.len() == 0 {
        seq![]
    } else {
        let rest = highs_before(s.drop_last(), head_index);
        if s.last().kind == SwingKind::High && s.last().index < head_index {
            rest.push(s.last())
        } else {
            rest
        }
    }
}

/// Two peak prices are of similar height when they differ by less than a tenth
/// of the main peak (equal prices always are).
pub open spec fn peaks_similar(main: int, sub: int) -> bool {
    let d = if main >= sub { main - sub } else { sub - main };
    let m = if main >= 0 { main } else { -main };
    main == sub || 10 * d < m
}

/// The two-peak left shoulder test on the last two swing highs before the head.
pub open spec fn complex_left_shoulder(swings: Seq<SwingPoint>, head_index: int) -> ComplexLeftShoulderAnalysis {
    let h = highs_before(swings, head_index);
    if h.len() < 2 {
        ComplexLeftShoulderAnalysis {
            is_complex: false,
            main_peak_index: if h.len() > 0 { h.last().index } else { head_index as usize },
            sub_peak_index: None,
        }
    } else {
        let a = h[h.len() - 2];
        let b = h[h.len() - 1];
        let main = if a.price > b.price { a } else { b };
        let sub = if a.price > b.price { b } else { a };
        let c = peaks_similar(main.price as int, sub.price as int);
        ComplexLeftShoulderAnalysis {
            is_complex: c,
            main_peak_index: main.index,
            sub_peak_index: if c { Some(sub.index) } else { None },
        }
    }
}

/// Tells whether the left shoulder of a head-and-shoulders top at `head_index`
/// has two peaks: the main peak plus a lower B-wave rebound.
pub fn analyze_complex_left_shoulder(swings: &[SwingPoint], head_index: usize) -> (r: ComplexLeftShoulderAnalysis)
    ensures
        r == complex_left_shoulder(swings@, head_index as int),
{
    let mut highs: Vec<SwingPoint> = Vec::new();
    let mut i: usize = 0;
    while i < swings.len()
        invariant
            i <= swings.len(),
            highs@ == highs_before(swings@.subrange(0, i as int), head_index as int),
        decreases swings.len() - i,
    {
        let s = swings[i];
        assert(swings@.subrange(0, i + 1).drop_last() =~= swings@.subrange(0, i as int));
        if s.kind == SwingKind::High && s.index < head_index {
            highs.push(s);
        }
        i = i + 1;
    }
    assert(swings@.subrange(0, swings.len() as int) =~= swings@);
    let n = highs.len();
    if n < 2 {
        let main_peak_index = if n > 0 { highs[n - 1].index } else { head_index };
        return ComplexLeftShoulderAnalysis { is_complex: false, main_peak_index, sub_peak_index: None };
    }
    let a = highs[n - 2];
    let b = highs[n - 1];
    let (main, sub) = if a.price > b.price { (a, b) } else { (b, a) };
    let mp = main.price as i128;
    let sp = sub.price as i128;
    let d: i128 = if mp >= sp { mp - sp } else { sp - mp };
    let m: i128 = if mp >= 0 { mp } else { -mp };
    let is_complex = mp == sp || 10 * d < m;
    ComplexLeftShoulderAnalysis {
        is_complex,
        main_peak_index: main.index,
        sub_peak_index: if is_complex { Some(sub.index) } else { None },
    }
}

/// The highs before the head of two swing series laid end to end are the
/// highs of the first followed by those of the second.
pub proof fn lemma_highs_before_concat(p: Seq<SwingPoint>, s: Seq<SwingPoint>, head_index: int)
    ensures
        highs_before(p + s, head_index) == highs_before(p, head_index) + highs_before(s, head_index),
    decreases s.len(),
{
    if s.len() == 0 {
        assert(p + s =~= p);
        assert(highs_before(p, head_index) + highs_before(s, head_index) =~= highs_before(p, head_index));
    } else {
        lemma_highs_before_concat(p, s.drop_last(), head_index);
        assert((p + s).drop_last() =~= p + s.drop_last());
        assert((p + s).last() == s.last());
        assert((highs_before(p, head_index) + highs_before(s.drop_last(), head_index)).push(s.last())
            =~= highs_before(p, head_index) + highs_before(s.drop_last(), head_index).push(s.last()));
    }
}

/// The left-shoulder test looks at the two swing highs nearest before the
/// head: once there are two of them, the main peak and the sub-peak (if any)
/// are those two highs, the main one at least as high as the other, and
/// swings further back in time, prepended to the series, change nothing.
pub proof fn lemma_left_shoulder_uses_nearest_highs(prefix: Seq<SwingPoint>, swings: Seq<SwingPoint>, head_index: int)
    requires
        highs_before(swings, head_index).len() >= 2,
    ensures
        complex_left_shoulder(prefix + swings, head_index) == complex_left_shoulder(swings, head_index),
        ({
            let h = highs_before(swings, head_index);
            let n = h.len() as int;
            let r = complex_left_shoulder(swings, head_index);
            &&& (r.main_peak_index == h[n - 2].index || r.main_peak_index == h[n - 1].index)
            &&& (r.sub_peak_index matches Some(x) ==> (
                (r.main_peak_index == h[n - 2].index && x == h[n - 1].index && h[n - 2].price > h[n - 1].price)
                || (r.main_peak_index == h[n - 1].index && x == h[n - 2].index && h[n - 1].price >= h[n - 2].price)))
        }),
{
    lemma_highs_before_concat(prefix, swings, head_index);
    let hp = highs_before(prefix, head_index);
    let h = highs_before(swings, head_index);
    let g = hp + h;
    assert(g[g.len() - 2] == h[h.len() - 2]);
    assert(g[g.len() - 1] == h[h.len() - 1]);
}

impl ThreeSoldiersScore {
    /// Rates three white soldiers from the three factors (breakout from a
    /// consolidation, rising volume, closes near the highs): the score counts
    /// the factors that hold, and the formation is genuine when all three hold
    /// and the last candle has the longest body (`last_body_longest`).
    pub fn from_factors(
        breakout_from_consolidation: bool,
        rising_volume: bool,
        close_at_high: bool,
        last_body_longest: bool,
    ) -> (r: ThreeSoldiersScore)
        ensures
            r.factor1_breakout_from_consolidation == breakout_from_consolidation,
            r.factor2_rising_volume == rising_volume,
            r.factor3_close_at_high == close_at_high,
            r.score == (if breakout_from_consolidation { 1int } else { 0int }) + (if rising_volume { 1int } else { 0int })
                + (if close_at_high { 1int } else { 0int }),
            r.is_white_soldiers == (r.score == 3 && last_body_longest),
    {
        let mut score: u8 = 0;
        if breakout_from_consolidation {
            score = score + 1;
        }
        if rising_volume {
            score = score + 1;
        }
        if close_at_high {
            score = score + 1;
        }
        ThreeSoldiersScore {
            factor1_breakout_from_consolidation: breakout_from_consolidation,
            factor2_rising_volume: rising_volume,
            factor3_close_at_high: close_at_high,
            is_white_soldiers: score == 3 && last_body_longest,
            score,
        }
    }
}

/// Phase of the `j`-th bar of a rounding bottom whose low is its
/// `min_local`-th bar: down the left side before the low; after the low, the
/// bars up to a renewed test of the low (`spring`, if there was one) are the
/// late cold spell; everything else is the right side rising.
pub open spec fn rounding_phase_of(j: int, min_local: int, spring: Option<usize>) -> RoundingBottomPhase {
    if j < min_local {
        RoundingBottomPhase::DownLeft
    } else if spring matches Some(s) && min_local < j <= s {
        RoundingBottomPhase::SpringCold
    } else {
        RoundingBottomPhase::RightRising
    }
}

/// The phase of each of the `n` bars of a rounding bottom starting at bar
/// `start_index`, as (bar index, phase).
pub fn rounding_phases(start_index: usize, n: usize, min_local: usize, spring: Option<usize>) -> (r: Vec<(usize, RoundingBottomPhase)>)
    requires
        start_index + n <= usize::MAX,
    ensures
        r@.len() == n,
        forall|j: int| 0 <= j < n ==> #[trigger] r@[j] == ((start_index + j) as usize, rounding_phase_of(j, min_local as int, spring)),
{
    let mut out: Vec<(usize, RoundingBottomPhase)> = Vec::new();
    let mut j: usize = 0;
    while j < n
        invariant
            j <= n,
            start_index + n <= usize::MAX,
            out@.len() == j,
            forall|k: int| 0 <= k < j ==> #[trigger] out@[k] == ((start_index + k) as usize, rounding_phase_of(k, min_local as int, spring)),
        decreases n - j,
    {
        let phase = if j < min_local {
            RoundingBottomPhase::DownLeft
        } else {
            match spring {
                Some(s) => if min_local < j && j <= s { RoundingBottomPhase::SpringCold } else { RoundingBottomPhase::RightRising },
                None => RoundingBottomPhase::RightRising,
            }
        };
        out.push((start_index + j, phase));
        j = j + 1;
    }
    out
}

} // verus!
