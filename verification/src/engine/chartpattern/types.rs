//! Chart pattern kinds, the market-maker behaviour they reveal, their
//! equivalences, and the role of a rectangle after its breakout.

use vstd::prelude::*;

verus! {

/// What large players are doing behind a formation.
#[derive(Debug, Clone, Copy, PartialEq, Eq, Hash, Structural)]
pub enum MarketMakerBehavior {
    Accumulation,
    Distribution,
    Washout,
    Stealth,
    Panic,
}

/// Display name of each behaviour.
pub open spec fn behavior_label(k: MarketMakerBehavior) -> Seq<char> {
    match k {
        MarketMakerBehavior::Accumulation => "主力吸筹"@,
        MarketMakerBehavior::Distribution => "主力派发"@,
        MarketMakerBehavior::Washout => "洗盘震仓"@,
        MarketMakerBehavior::Stealth => "潜伏突破"@,
        MarketMakerBehavior::Panic => "恐慌盘"@,
    }
}

/// Direction that each behaviour leads to (0: decided later).
pub open spec fn behavior_direction(k: MarketMakerBehavior) -> int {
    match k {
        MarketMakerBehavior::Accumulation | MarketMakerBehavior::Stealth => 1,
        MarketMakerBehavior::Distribution | MarketMakerBehavior::Panic => -1,
        MarketMakerBehavior::Washout => 0,
    }
}

impl MarketMakerBehavior {
    pub fn label(&self) -> (r: &'static str)
        ensures
            r@ == behavior_label(*self),
    {
        match self {
            MarketMakerBehavior::Accumulation => "主力吸筹",
            MarketMakerBehavior::Distribution => "主力派发",
            MarketMakerBehavior::Washout => "洗盘震仓",
            MarketMakerBehavior::Stealth => "潜伏突破",
            MarketMakerBehavior::Panic => "恐慌盘",
        }
    }

    pub fn expected_direction(&self) -> (r: i8)
        ensures
            r == behavior_direction(*self),
    {
        match self {
            MarketMakerBehavior::Accumulation | MarketMakerBehavior::Stealth => 1,
            MarketMakerBehavior::Distribution | MarketMakerBehavior::Panic => -1,
            MarketMakerBehavior::Washout => 0,
        }
    }
}

/// Reversal and continuation chart patterns.
#[derive(Debug, Clone, Copy, PartialEq, Eq, Hash, Structural)]
pub enum ChartPatternKind {
    HeadAndShoulders,
    InverseHeadAndShoulders,
    DoubleTop,
    DoubleBottom,
    TripleTop,
    TripleBottom,
    RoundingTop,
    RoundingBottom,
    VTop,
    VBottom,
    DiamondTop,
    DiamondBottom,
    AscendingTriangle,
    DescendingTriangle,
    SymmetricalTriangle,
    RisingWedge,
    FallingWedge,
    BullFlag,
    BearFlag,
    BullPennant,
    BearPennant,
    Rectangle,
    CupWithHandle,
    BroadeningTop,
    BroadeningBottom,
}

/// Display name of each chart pattern.
pub open spec fn chart_label(k: ChartPatternKind) -> Seq<char> {
    match k {
        ChartPatternKind::HeadAndShoulders => "头肩顶"@,
        ChartPatternKind::InverseHeadAndShoulders => "头肩底"@,
        ChartPatternKind::DoubleTop => "双顶 M"@,
        ChartPatternKind::DoubleBottom => "双底 W"@,
        ChartPatternKind::TripleTop => "三重顶"@,
        ChartPatternKind::TripleBottom => "三重底"@,
        ChartPatternKind::RoundingTop => "圆弧顶"@,
        ChartPatternKind::RoundingBottom => "圆弧底"@,
        ChartPatternKind::VTop => "V 形顶"@,
        ChartPatternKind::VBottom => "V 形底"@,
        ChartPatternKind::DiamondTop => "菱形顶"@,
        ChartPatternKind::DiamondBottom => "菱形底"@,
        ChartPatternKind::AscendingTriangle => "上升三角形"@,
        ChartPatternKind::DescendingTriangle => "下降三角形"@,
        ChartPatternKind::SymmetricalTriangle => "对称三角形"@,
        ChartPatternKind::RisingWedge => "上升楔形"@,
        ChartPatternKind::FallingWedge => "下降楔形"@,
        ChartPatternKind::BullFlag => "多头旗形"@,
        ChartPatternKind::BearFlag => "空头旗形"@,
        ChartPatternKind::BullPennant => "多头三角旗"@,
        ChartPatternKind::BearPennant => "空头三角旗"@,
        ChartPatternKind::Rectangle => "矩形（箱体）"@,
        ChartPatternKind::CupWithHandle => "杯柄"@,
        ChartPatternKind::BroadeningTop => "扩散三角形（顶）"@,
        ChartPatternKind::BroadeningBottom => "扩散三角形（底）"@,
    }
}

/// Direction of each chart pattern.
pub open spec fn chart_direction(k: ChartPatternKind) -> int {
    match k {
        ChartPatternKind::HeadAndShoulders
        | ChartPatternKind::DoubleTop
        | ChartPatternKind::TripleTop
        | ChartPatternKind::RoundingTop
        | ChartPatternKind::VTop
        | ChartPatternKind::DiamondTop
        | ChartPatternKind::DescendingTriangle
        | ChartPatternKind::RisingWedge
        | ChartPatternKind::BearFlag
        | ChartPatternKind::BearPennant
        | ChartPatternKind::BroadeningTop => -1,
        ChartPatternKind::InverseHeadAndShoulders
        | ChartPatternKind::DoubleBottom
        | ChartPatternKind::TripleBottom
        | ChartPatternKind::RoundingBottom
        | ChartPatternKind::VBottom
        | ChartPatternKind::DiamondBottom
        | ChartPatternKind::AscendingTriangle
        | ChartPatternKind::FallingWedge
        | ChartPatternKind::BullFlag
        | ChartPatternKind::BullPennant
        | ChartPatternKind::CupWithHandle
        | ChartPatternKind::BroadeningBottom => 1,
        ChartPatternKind::SymmetricalTriangle | ChartPatternKind::Rectangle => 0,
    }
}

/// Star rating of each chart pattern.
pub open spec fn chart_strength(k: ChartPatternKind) -> int {
    match k {
        ChartPatternKind::DiamondTop | ChartPatternKind::DiamondBottom => 6,
        ChartPatternKind::HeadAndShoulders | ChartPatternKind::InverseHeadAndShoulders
        | ChartPatternKind::TripleTop | ChartPatternKind::TripleBottom
        | ChartPatternKind::RisingWedge | ChartPatternKind::FallingWedge
        | ChartPatternKind::VTop | ChartPatternKind::VBottom => 5,
        ChartPatternKind::CupWithHandle | ChartPatternKind::RoundingTop | ChartPatternKind::RoundingBottom
        | ChartPatternKind::BroadeningTop | ChartPatternKind::BroadeningBottom => 4,
        ChartPatternKind::SymmetricalTriangle | ChartPatternKind::Rectangle => 3,
        ChartPatternKind::DoubleTop | ChartPatternKind::DoubleBottom
        | ChartPatternKind::AscendingTriangle | ChartPatternKind::DescendingTriangle
        | ChartPatternKind::BullFlag | ChartPatternKind::BearFlag | ChartPatternKind::BullPennant | ChartPatternKind::BearPennant => 1,
    }
}

/// Patterns that a pattern can turn into or be read as.
pub open spec fn equivalents_of(k: ChartPatternKind) -> Seq<ChartPatternKind> {
    match k {
        ChartPatternKind::Rectangle => seq![
            ChartPatternKind::RoundingTop,
            ChartPatternKind::RoundingBottom,
            ChartPatternKind::DoubleTop,
            ChartPatternKind::DoubleBottom,
        ],
        ChartPatternKind::RoundingTop => seq![ChartPatternKind::Rectangle, ChartPatternKind::DoubleTop, ChartPatternKind::TripleTop],
        ChartPatternKind::RoundingBottom => seq![ChartPatternKind::Rectangle, ChartPatternKind::DoubleBottom, ChartPatternKind::TripleBottom],
        ChartPatternKind::DoubleTop => seq![ChartPatternKind::Rectangle, ChartPatternKind::RoundingTop, ChartPatternKind::TripleTop],
        ChartPatternKind::DoubleBottom => seq![ChartPatternKind::Rectangle, ChartPatternKind::RoundingBottom, ChartPatternKind::TripleBottom],
        ChartPatternKind::TripleTop => seq![ChartPatternKind::DoubleTop, ChartPatternKind::HeadAndShoulders],
        ChartPatternKind::TripleBottom => seq![ChartPatternKind::DoubleBottom, ChartPatternKind::InverseHeadAndShoulders],
        ChartPatternKind::VBottom => seq![ChartPatternKind::InverseHeadAndShoulders, ChartPatternKind::RoundingBottom],
        ChartPatternKind::VTop => seq![ChartPatternKind::HeadAndShoulders, ChartPatternKind::RoundingTop],
        _ => seq![],
    }
}

/// Behaviour of large players that each pattern reveals, if any.
pub open spec fn behavior_of(k: ChartPatternKind) -> Option<MarketMakerBehavior> {
    match k {
        ChartPatternKind::BroadeningTop => Some(MarketMakerBehavior::Washout),
        ChartPatternKind::BroadeningBottom => Some(MarketMakerBehavior::Distribution),
        ChartPatternKind::Rectangle => Some(MarketMakerBehavior::Accumulation),
        ChartPatternKind::RoundingBottom => Some(MarketMakerBehavior::Accumulation),
        ChartPatternKind::RoundingTop => Some(MarketMakerBehavior::Distribution),
        ChartPatternKind::CupWithHandle => Some(MarketMakerBehavior::Accumulation),
        _ => None,
    }
}

impl ChartPatternKind {
    pub fn label(&self) -> (r: &'static str)
        ensures
            r@ == chart_label(*self),
    {
        match self {
            ChartPatternKind::HeadAndShoulders => "头肩顶",
            ChartPatternKind::InverseHeadAndShoulders => "头肩底",
            ChartPatternKind::DoubleTop => "双顶 M",
            ChartPatternKind::DoubleBottom => "双底 W",
            ChartPatternKind::TripleTop => "三重顶",
            ChartPatternKind::TripleBottom => "三重底",
            ChartPatternKind::RoundingTop => "圆弧顶",
            ChartPatternKind::RoundingBottom => "圆弧底",
            ChartPatternKind::VTop => "V 形顶",
            ChartPatternKind::VBottom => "V 形底",
            ChartPatternKind::DiamondTop => "菱形顶",
            ChartPatternKind::DiamondBottom => "菱形底",
            ChartPatternKind::AscendingTriangle => "上升三角形",
            ChartPatternKind::DescendingTriangle => "下降三角形",
            ChartPatternKind::SymmetricalTriangle => "对称三角形",
            ChartPatternKind::RisingWedge => "上升楔形",
            ChartPatternKind::FallingWedge => "下降楔形",
            ChartPatternKind::BullFlag => "多头旗形",
            ChartPatternKind::BearFlag => "空头旗形",
            ChartPatternKind::BullPennant => "多头三角旗",
            ChartPatternKind::BearPennant => "空头三角旗",
            ChartPatternKind::Rectangle => "矩形（箱体）",
            ChartPatternKind::CupWithHandle => "杯柄",
            ChartPatternKind::BroadeningTop => "扩散三角形（顶）",
            ChartPatternKind::BroadeningBottom => "扩散三角形（底）",
        }
    }

    pub fn direction(&self) -> (r: i8)
        ensures
            r == chart_direction(*self),
            -1 <= r <= 1,
    {
        match self {
            ChartPatternKind::HeadAndShoulders
            | ChartPatternKind::DoubleTop
            | ChartPatternKind::TripleTop
            | ChartPatternKind::RoundingTop
            | ChartPatternKind::VTop
            | ChartPatternKind::DiamondTop
            | ChartPatternKind::DescendingTriangle
            | ChartPatternKind::RisingWedge
            | ChartPatternKind::BearFlag
            | ChartPatternKind::BearPennant
            | ChartPatternKind::BroadeningTop => -1,
            ChartPatternKind::InverseHeadAndShoulders
            | ChartPatternKind::DoubleBottom
            | ChartPatternKind::TripleBottom
            | ChartPatternKind::RoundingBottom
            | ChartPatternKind::VBottom
            | ChartPatternKind::DiamondBottom
            | ChartPatternKind::AscendingTriangle
            | ChartPatternKind::FallingWedge
            | ChartPatternKind::BullFlag
            | ChartPatternKind::BullPennant
            | ChartPatternKind::CupWithHandle
            | ChartPatternKind::BroadeningBottom => 1,
            ChartPatternKind::SymmetricalTriangle | ChartPatternKind::Rectangle => 0,
        }
    }

    /// Patterns this one can be read as.
    pub fn equivalent_patterns(&self) -> (r: Vec<ChartPatternKind>)
        ensures
            r@ == equivalents_of(*self),
    {
        let r = match self {
            ChartPatternKind::Rectangle => vec![
                ChartPatternKind::RoundingTop,
                ChartPatternKind::RoundingBottom,
                ChartPatternKind::DoubleTop,
                ChartPatternKind::DoubleBottom,
            ],
            ChartPatternKind::RoundingTop => vec![ChartPatternKind::Rectangle, ChartPatternKind::DoubleTop, ChartPatternKind::TripleTop],
            ChartPatternKind::RoundingBottom => vec![ChartPatternKind::Rectangle, ChartPatternKind::DoubleBottom, ChartPatternKind::TripleBottom],
            ChartPatternKind::DoubleTop => vec![ChartPatternKind::Rectangle, ChartPatternKind::RoundingTop, ChartPatternKind::TripleTop],
            ChartPatternKind::DoubleBottom => vec![ChartPatternKind::Rectangle, ChartPatternKind::RoundingBottom, ChartPatternKind::TripleBottom],
            ChartPatternKind::TripleTop => vec![ChartPatternKind::DoubleTop, ChartPatternKind::HeadAndShoulders],
            ChartPatternKind::TripleBottom => vec![ChartPatternKind::DoubleBottom, ChartPatternKind::InverseHeadAndShoulders],
            ChartPatternKind::VBottom => vec![ChartPatternKind::InverseHeadAndShoulders, ChartPatternKind::RoundingBottom],
            ChartPatternKind::VTop => vec![ChartPatternKind::HeadAndShoulders, ChartPatternKind::RoundingTop],
            _ => vec![],
        };
        assert(r@ =~= equivalents_of(*self));
        r
    }

    /// Behaviour of large players that the pattern reveals, if any.
    pub fn market_maker_behavior(&self) -> (r: Option<MarketMakerBehavior>)
        ensures
            r == behavior_of(*self),
    {
        match self {
            ChartPatternKind::BroadeningTop => Some(MarketMakerBehavior::Washout),
            ChartPatternKind::BroadeningBottom => Some(MarketMakerBehavior::Distribution),
            ChartPatternKind::Rectangle => Some(MarketMakerBehavior::Accumulation),
            ChartPatternKind::RoundingBottom => Some(MarketMakerBehavior::Accumulation),
            ChartPatternKind::RoundingTop => Some(MarketMakerBehavior::Distribution),
            ChartPatternKind::CupWithHandle => Some(MarketMakerBehavior::Accumulation),
            _ => None,
        }
    }

    pub fn strength(&self) -> (r: u8)
        ensures
            r == chart_strength(*self),
            1 <= r <= 6,
    {
        match self {
            ChartPatternKind::DiamondTop | ChartPatternKind::DiamondBottom => 6,
            ChartPatternKind::HeadAndShoulders | ChartPatternKind::InverseHeadAndShoulders
            | ChartPatternKind::TripleTop | ChartPatternKind::TripleBottom
            | ChartPatternKind::RisingWedge | ChartPatternKind::FallingWedge
            | ChartPatternKind::VTop | ChartPatternKind::VBottom => 5,
            ChartPatternKind::CupWithHandle | ChartPatternKind::RoundingTop | ChartPatternKind::RoundingBottom
            | ChartPatternKind::BroadeningTop | ChartPatternKind::BroadeningBottom => 4,
            ChartPatternKind::SymmetricalTriangle | ChartPatternKind::Rectangle => 3,
            ChartPatternKind::DoubleTop | ChartPatternKind::DoubleBottom
            | ChartPatternKind::AscendingTriangle | ChartPatternKind::DescendingTriangle
            | ChartPatternKind::BullFlag | ChartPatternKind::BearFlag | ChartPatternKind::BullPennant | ChartPatternKind::BearPennant => 1,
        }
    }
}

/// An equivalent pattern points the same way, except the neutral rectangle,
/// which is read as a top or a bottom.
pub proof fn lemma_equivalents_keep_direction(k: ChartPatternKind, i: int)
    requires
        0 <= i < equivalents_of(k).len(),
        k != ChartPatternKind::Rectangle,
        equivalents_of(k)[i] != ChartPatternKind::Rectangle,
    ensures
        chart_direction(equivalents_of(k)[i]) == chart_direction(k),
{
}

/// A formation revealing accumulation is never a bearish formation.
pub proof fn lemma_accumulation_not_bearish(k: ChartPatternKind)
    requires
        behavior_of(k) == Some(MarketMakerBehavior::Accumulation),
    ensures
        chart_direction(k) >= 0,
{
}

/// Whether a pattern kind needs no minimum duration to be reliable by default.
pub fn default_book_reliable() -> (r: bool)
    ensures
        r,
{
    true
}

/// Double tops and bottoms are reliable only when they span at least 30 bars;
/// other patterns have no minimum duration.
pub open spec fn meets_time_requirement(kind: ChartPatternKind, span_bars: int) -> bool {
    match kind {
        ChartPatternKind::DoubleTop | ChartPatternKind::DoubleBottom => span_bars >= 30,
        _ => true,
    }
}

/// Does a pattern of `kind` spanning `span_bars` bars meet its minimum duration?
pub fn meets_book_time_requirement(kind: ChartPatternKind, span_bars: usize) -> (r: bool)
    ensures
        r == meets_time_requirement(kind, span_bars as int),
{
    match kind {
        ChartPatternKind::DoubleTop | ChartPatternKind::DoubleBottom => span_bars >= 30,
        _ => true,
    }
}

/// Role of a rectangle once it is broken (or not).
#[derive(Debug, Clone, Copy, PartialEq, Eq, Hash, Structural)]
pub enum RectangleRole {
    Consolidation,
    OverlongConsolidation,
    Continuation,
    Reversal,
}

/// Display name of each rectangle role.
pub open spec fn rectangle_role_label(k: RectangleRole) -> Seq<char> {
    match k {
        RectangleRole::Consolidation => "整理"@,
        RectangleRole::OverlongConsolidation => "过长整理"@,
        RectangleRole::Continuation => "中继"@,
        RectangleRole::Reversal => "反转"@,
    }
}

impl RectangleRole {
    pub fn label(&self) -> (r: &'static str)
        ensures
            r@ == rectangle_role_label(*self),
    {
        match self {
            RectangleRole::Consolidation => "整理",
            RectangleRole::OverlongConsolidation => "过长整理",
            RectangleRole::Continuation => "中继",
            RectangleRole::Reversal => "反转",
        }
    }

    /// Is the rectangle a reversal signal?
    pub fn is_reversal(&self) -> (r: bool)
        ensures
            r == (*self == RectangleRole::Reversal),
    {
        matches!(self, RectangleRole::Reversal)
    }
}

/// Role of a rectangle: without a breakout it is (overlong) consolidation;
/// a breakout with no prior trend or along the prior trend is a continuation;
/// a breakout against the prior trend is a reversal. Other patterns have no role.
pub open spec fn rectangle_role_of(kind: ChartPatternKind, prior_trend: i8, breakout_direction: i8, is_over_long: bool) -> Option<RectangleRole> {
    if kind != ChartPatternKind::Rectangle {
        None
    } else if breakout_direction == 0 {
        Some(if is_over_long { RectangleRole::OverlongConsolidation } else { RectangleRole::Consolidation })
    } else if prior_trend == 0 || prior_trend == breakout_direction {
        Some(RectangleRole::Continuation)
    } else {
        Some(RectangleRole::Reversal)
    }
}

/// Role of a pattern of `kind` after a breakout in `breakout_direction`
/// (0: none yet) following a trend in `prior_trend` (0: none).
pub fn rectangle_role(kind: ChartPatternKind, prior_trend: i8, breakout_direction: i8, is_over_long: bool) -> (r: Option<RectangleRole>)
    ensures
        r == rectangle_role_of(kind, prior_trend, breakout_direction, is_over_long),
{
    if kind != ChartPatternKind::Rectangle {
        return None;
    }
    if breakout_direction == 0 {
        return Some(if is_over_long { RectangleRole::OverlongConsolidation } else { RectangleRole::Consolidation });
    }
    if prior_trend == 0 {
        return Some(RectangleRole::Continuation);
    }
    if prior_trend == breakout_direction {
        return Some(RectangleRole::Continuation);
    }
    Some(RectangleRole::Reversal)
}


/// A rectangle's role after a breakout: a breakout against a prior trend
/// reverses it, one along the prior trend (or with no prior trend) continues,
/// whichever the direction; mirroring both the prior trend and the breakout
/// leaves the role unchanged; without a breakout it is still consolidating.
pub proof fn lemma_rectangle_role_by_breakout(prior_trend: i8, breakout_direction: i8, is_over_long: bool)
    ensures
        (prior_trend != 0 && breakout_direction != 0 && prior_trend != breakout_direction)
            ==> rectangle_role_of(ChartPatternKind::Rectangle, prior_trend, breakout_direction, is_over_long) == Some(RectangleRole::Reversal),
        (breakout_direction != 0 && (prior_trend == 0 || prior_trend == breakout_direction))
            ==> rectangle_role_of(ChartPatternKind::Rectangle, prior_trend, breakout_direction, is_over_long) == Some(RectangleRole::Continuation),
        breakout_direction == 0 ==> (rectangle_role_of(ChartPatternKind::Rectangle, prior_trend, breakout_direction, is_over_long) matches Some(role)
            && (role == RectangleRole::Consolidation || role == RectangleRole::OverlongConsolidation)),
        (prior_trend > i8::MIN && breakout_direction > i8::MIN) ==> rectangle_role_of(
            ChartPatternKind::Rectangle,
            (-prior_trend) as i8,
            (-breakout_direction) as i8,
            is_over_long,
        ) == rectangle_role_of(ChartPatternKind::Rectangle, prior_trend, breakout_direction, is_over_long),
{
}

} // verus!
