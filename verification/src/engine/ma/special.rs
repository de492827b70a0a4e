//! The seventeen special moving-average formations: names, directions,
//! weights, sources, and how a hit is recorded.

use vstd::prelude::*;
use crate::text::owned;

verus! {

/// Special moving-average formations.
#[derive(Debug, Clone, Copy, PartialEq, Eq, Hash, Structural)]
pub enum MaSpecialKind {
    UphillClimb,
    AcceleratingUp,
    DownhillSlide,
    AcceleratingDown,
    WaveUp,
    WaveDown,
    RapidUp,
    RapidDown,
    MaBond,
    SilverValley,
    GoldenValley,
    DeathValley,
    Mire,
    BullArrangement,
    BearArrangement,
    BullBearBoundary,
    CycleSwap,
}

/// Display name of each formation.
pub open spec fn special_label(k: MaSpecialKind) -> Seq<char> {
    match k {
        MaSpecialKind::UphillClimb => "上山爬坡"@,
        MaSpecialKind::AcceleratingUp => "加速上行"@,
        MaSpecialKind::DownhillSlide => "下山滑坡"@,
        MaSpecialKind::AcceleratingDown => "加速下行"@,
        MaSpecialKind::WaveUp => "逐浪上升"@,
        MaSpecialKind::WaveDown => "逐浪下降"@,
        MaSpecialKind::RapidUp => "快速上升"@,
        MaSpecialKind::RapidDown => "快速下降"@,
        MaSpecialKind::MaBond => "均线粘合"@,
        MaSpecialKind::SilverValley => "银山谷"@,
        MaSpecialKind::GoldenValley => "金山谷"@,
        MaSpecialKind::DeathValley => "死亡谷"@,
        MaSpecialKind::Mire => "烂泥潭"@,
        MaSpecialKind::BullArrangement => "多头排列"@,
        MaSpecialKind::BearArrangement => "空头排列"@,
        MaSpecialKind::BullBearBoundary => "牛熊分界"@,
        MaSpecialKind::CycleSwap => "周期轮换"@,
    }
}

/// Direction of each formation.
pub open spec fn special_direction(k: MaSpecialKind) -> int {
    match k {
        MaSpecialKind::UphillClimb | MaSpecialKind::AcceleratingUp | MaSpecialKind::WaveUp | MaSpecialKind::RapidUp | MaSpecialKind::SilverValley | MaSpecialKind::GoldenValley | MaSpecialKind::BullArrangement => 1,
        MaSpecialKind::DownhillSlide | MaSpecialKind::AcceleratingDown | MaSpecialKind::WaveDown | MaSpecialKind::RapidDown | MaSpecialKind::DeathValley | MaSpecialKind::BearArrangement => -1,
        MaSpecialKind::MaBond | MaSpecialKind::Mire | MaSpecialKind::BullBearBoundary | MaSpecialKind::CycleSwap => 0,
    }
}

/// Weight (1 to 5) of each formation.
pub open spec fn special_weight(k: MaSpecialKind) -> int {
    match k {
        MaSpecialKind::BullArrangement | MaSpecialKind::BearArrangement => 5,
        MaSpecialKind::GoldenValley | MaSpecialKind::DeathValley => 5,
        MaSpecialKind::AcceleratingUp | MaSpecialKind::AcceleratingDown => 4,
        MaSpecialKind::UphillClimb | MaSpecialKind::DownhillSlide => 4,
        MaSpecialKind::SilverValley => 4,
        MaSpecialKind::WaveUp | MaSpecialKind::WaveDown => 3,
        MaSpecialKind::MaBond => 3,
        MaSpecialKind::RapidUp | MaSpecialKind::RapidDown => 3,
        MaSpecialKind::BullBearBoundary => 2,
        MaSpecialKind::CycleSwap => 2,
        MaSpecialKind::Mire => 1,
    }
}

/// Where each formation is described; none for derived formations.
pub open spec fn special_source(k: MaSpecialKind) -> Option<Seq<char>> {
    match k {
        MaSpecialKind::BullArrangement => Some("ma p.196 Ch3·3·1 / p.204 形态原文"@),
        MaSpecialKind::BearArrangement => Some("ma p.204 Ch3·3·2 形态原文"@),
        MaSpecialKind::UphillClimb => Some("ma Ch3·3·1 上山爬坡（慢牛）"@),
        MaSpecialKind::DownhillSlide => Some("ma Ch3·3·2 下山滑坡（慢熊）"@),
        MaSpecialKind::WaveUp => Some("ma Ch3·3·3 逐浪上升"@),
        MaSpecialKind::WaveDown => Some("ma Ch3·3·4 逐浪下降"@),
        MaSpecialKind::MaBond => Some("ma Ch3·3·5 均线粘合"@),
        MaSpecialKind::AcceleratingUp => Some("ma p.165 Ch4·1·1 加速上行"@),
        MaSpecialKind::AcceleratingDown => Some("ma Ch4·1·2 加速下行"@),
        MaSpecialKind::SilverValley => Some("ma Ch4·1·7 银山谷"@),
        MaSpecialKind::GoldenValley => Some("ma Ch4·1·8 金山谷"@),
        MaSpecialKind::DeathValley => Some("ma Ch4·1·9 死亡谷"@),
        MaSpecialKind::RapidUp | MaSpecialKind::RapidDown => None,
        MaSpecialKind::Mire => None,
        MaSpecialKind::BullBearBoundary => None,
        MaSpecialKind::CycleSwap => None,
    }
}

/// The formations stressed as strong signals.
pub open spec fn special_severe(k: MaSpecialKind) -> bool {
    k == MaSpecialKind::BullArrangement || k == MaSpecialKind::BearArrangement
        || k == MaSpecialKind::GoldenValley || k == MaSpecialKind::DeathValley
        || k == MaSpecialKind::AcceleratingUp || k == MaSpecialKind::AcceleratingDown
}

impl MaSpecialKind {
    pub fn label(&self) -> (r: &'static str)
        ensures
            r@ == special_label(*self),
    {
        match self {
            MaSpecialKind::UphillClimb => "上山爬坡",
            MaSpecialKind::AcceleratingUp => "加速上行",
            MaSpecialKind::DownhillSlide => "下山滑坡",
            MaSpecialKind::AcceleratingDown => "加速下行",
            MaSpecialKind::WaveUp => "逐浪上升",
            MaSpecialKind::WaveDown => "逐浪下降",
            MaSpecialKind::RapidUp => "快速上升",
            MaSpecialKind::RapidDown => "快速下降",
            MaSpecialKind::MaBond => "均线粘合",
            MaSpecialKind::SilverValley => "银山谷",
            MaSpecialKind::GoldenValley => "金山谷",
            MaSpecialKind::DeathValley => "死亡谷",
            MaSpecialKind::Mire => "烂泥潭",
            MaSpecialKind::BullArrangement => "多头排列",
            MaSpecialKind::BearArrangement => "空头排列",
            MaSpecialKind::BullBearBoundary => "牛熊分界",
            MaSpecialKind::CycleSwap => "周期轮换",
        }
    }

    pub fn direction(&self) -> (r: i8)
        ensures
            r == special_direction(*self),
            -1 <= r <= 1,
    {
        match self {
            MaSpecialKind::UphillClimb | MaSpecialKind::AcceleratingUp | MaSpecialKind::WaveUp | MaSpecialKind::RapidUp | MaSpecialKind::SilverValley | MaSpecialKind::GoldenValley | MaSpecialKind::BullArrangement => 1,
            MaSpecialKind::DownhillSlide | MaSpecialKind::AcceleratingDown | MaSpecialKind::WaveDown | MaSpecialKind::RapidDown | MaSpecialKind::DeathValley | MaSpecialKind::BearArrangement => -1,
            MaSpecialKind::MaBond | MaSpecialKind::Mire | MaSpecialKind::BullBearBoundary | MaSpecialKind::CycleSwap => 0,
        }
    }

    pub fn weight(&self) -> (r: u8)
        ensures
            r == special_weight(*self),
            1 <= r <= 5,
    {
        match self {
            MaSpecialKind::BullArrangement | MaSpecialKind::BearArrangement => 5,
            MaSpecialKind::GoldenValley | MaSpecialKind::DeathValley => 5,
            MaSpecialKind::AcceleratingUp | MaSpecialKind::AcceleratingDown => 4,
            MaSpecialKind::UphillClimb | MaSpecialKind::DownhillSlide => 4,
            MaSpecialKind::SilverValley => 4,
            MaSpecialKind::WaveUp | MaSpecialKind::WaveDown => 3,
            MaSpecialKind::MaBond => 3,
            MaSpecialKind::RapidUp | MaSpecialKind::RapidDown => 3,
            MaSpecialKind::BullBearBoundary => 2,
            MaSpecialKind::CycleSwap => 2,
            MaSpecialKind::Mire => 1,
        }
    }

    pub fn book_source(&self) -> (r: Option<&'static str>)
        ensures
            (match r { Some(s) => special_source(*self) == Some(s@), None => special_source(*self) is None }),
    {
        match self {
            MaSpecialKind::BullArrangement => Some("ma p.196 Ch3·3·1 / p.204 形态原文"),
            MaSpecialKind::BearArrangement => Some("ma p.204 Ch3·3·2 形态原文"),
            MaSpecialKind::UphillClimb => Some("ma Ch3·3·1 上山爬坡（慢牛）"),
            MaSpecialKind::DownhillSlide => Some("ma Ch3·3·2 下山滑坡（慢熊）"),
            MaSpecialKind::WaveUp => Some("ma Ch3·3·3 逐浪上升"),
            MaSpecialKind::WaveDown => Some("ma Ch3·3·4 逐浪下降"),
            MaSpecialKind::MaBond => Some("ma Ch3·3·5 均线粘合"),
            MaSpecialKind::AcceleratingUp => Some("ma p.165 Ch4·1·1 加速上行"),
            MaSpecialKind::AcceleratingDown => Some("ma Ch4·1·2 加速下行"),
            MaSpecialKind::SilverValley => Some("ma Ch4·1·7 银山谷"),
            MaSpecialKind::GoldenValley => Some("ma Ch4·1·8 金山谷"),
            MaSpecialKind::DeathValley => Some("ma Ch4·1·9 死亡谷"),
            MaSpecialKind::RapidUp | MaSpecialKind::RapidDown => None,
            MaSpecialKind::Mire => None,
            MaSpecialKind::BullBearBoundary => None,
            MaSpecialKind::CycleSwap => None,
        }
    }

    /// Is the formation described in the source (not a derived one)?
    pub fn is_book_direct(&self) -> (r: bool)
        ensures
            r == special_source(*self) is Some,
    {
        self.book_source().is_some()
    }

    /// Is the formation one of the strong signals?
    pub fn severe_signal(&self) -> (r: bool)
        ensures
            r == special_severe(*self),
    {
        matches!(
            self,
            MaSpecialKind::BullArrangement
                | MaSpecialKind::BearArrangement
                | MaSpecialKind::GoldenValley
                | MaSpecialKind::DeathValley
                | MaSpecialKind::AcceleratingUp
                | MaSpecialKind::AcceleratingDown
        )
    }
}

/// Strong signals are directional, described in the source, and weigh at least 4.
pub proof fn lemma_severe_signals(k: MaSpecialKind)
    requires
        special_severe(k),
    ensures
        special_direction(k) != 0,
        special_source(k) is Some,
        special_weight(k) >= 4,
{
}

/// A formation found at bar `bar_index`, with its name, direction, weight and a description.
#[derive(Debug, Clone)]
pub struct MaSpecialHit {
    pub kind: MaSpecialKind,
    pub label: String,
    pub direction: i8,
    pub weight: u8,
    pub bar_index: usize,
    pub description: String,
}

/// Records a hit of `kind` at `bar_index`, filling in the kind's name, direction and weight.
pub fn make(kind: MaSpecialKind, bar_index: usize, description: String) -> (r: MaSpecialHit)
    ensures
        r.kind == kind,
        r.label@ == special_label(kind),
        r.direction == special_direction(kind),
        r.weight == special_weight(kind),
        r.bar_index == bar_index,
        r.description@ == description@,
{
    MaSpecialHit {
        kind,
        label: owned(kind.label()),
        direction: kind.direction(),
        weight: kind.weight(),
        bar_index,
        description,
    }
}

/// A cross at bar `idx` is recent at bar `last` when fewer than `window` bars
/// separate them; a cross after `last` counts as recent.
pub open spec fn cross_is_recent(idx: usize, last: usize, window: usize) -> bool {
    (if idx >= last { 0 } else { last - idx }) < window
}

/// How many of the crosses in `bars` are recent at `last`.
pub open spec fn recent_cross_count(bars: Seq<usize>, last: usize, window: usize) -> nat
    decreases bars.len(),
{
    if bars.len() == 0 {
        0
    } else {
        recent_cross_count(bars.drop_last(), last, window) + (if cross_is_recent(bars.last(), last, window) { 1nat } else { 0nat })
    }
}

/// Number of crosses recent at `last` (the test of a mire of averages).
pub fn count_recent_crosses(cross_bars: &[usize], last: usize, window: usize) -> (r: usize)
    ensures
        r == recent_cross_count(cross_bars@, last, window),
{
    let mut count: usize = 0;
    let mut i: usize = 0;
    while i < cross_bars.len()
        invariant
            i <= cross_bars@.len(),
            count == recent_cross_count(cross_bars@.subrange(0, i as int), last, window),
            count <= i,
        decreases cross_bars@.len() - i,
    {
        proof {
            assert(cross_bars@.subrange(0, i + 1).drop_last() =~= cross_bars@.subrange(0, i as int));
        }
        let idx = cross_bars[i];
        let gap: usize = if idx >= last { 0 } else { last - idx };
        if gap < window {
            count = count + 1;
        }
        i = i + 1;
    }
    proof {
        assert(cross_bars@.subrange(0, cross_bars@.len() as int) =~= cross_bars@);
    }
    count
}

/// A cross at `idx` happened at most `window - 1` bars before `last`.
pub open spec fn cross_within(idx: usize, last: usize, window: usize) -> bool {
    last >= idx && last - idx < window
}

/// The cross listed last among those that happened within `window` bars up to `last`.
pub fn latest_cross_within(cross_bars: &[usize], last: usize, window: usize) -> (r: Option<usize>)
    ensures
        r is None <==> forall|k: int| 0 <= k < cross_bars@.len() ==> !cross_within(#[trigger] cross_bars@[k], last, window),
        r matches Some(b) ==> exists|k: int|
            0 <= k < cross_bars@.len() && cross_bars@[k] == b && cross_within(b, last, window)
                && forall|j: int| k < j < cross_bars@.len() ==> !cross_within(#[trigger] cross_bars@[j], last, window),
{
    let mut i: usize = cross_bars.len();
    while i > 0
        invariant
            i <= cross_bars@.len(),
            forall|j: int| i <= j < cross_bars@.len() ==> !cross_within(#[trigger] cross_bars@[j], last, window),
        decreases i,
    {
        let idx = cross_bars[i - 1];
        if last >= idx && last - idx < window {
            proof {
                assert(cross_bars@[i - 1] == idx);
            }
            return Some(idx);
        }
        i = i - 1;
    }
    None
}

} // verus!
