//! Moving-average stacking states with their alternative names, and the
//! kinds of crossing of two averages.

use vstd::prelude::*;

verus! {

/// Stacking state of a moving-average bundle.
#[derive(Debug, Clone, Copy, PartialEq, Eq, Structural)]
pub enum Alignment {
    Bullish,
    Bearish,
    Stuck,
    Converging,
    Diverging,
    Mixed,
}

/// Alternative names of each stacking state.
pub open spec fn alignment_aliases(a: Alignment) -> Seq<Seq<char>> {
    match a {
        Alignment::Bullish => seq!["多头排列"@, "上山爬坡"@, "逐浪上升"@],
        Alignment::Bearish => seq!["空头排列"@, "下山滑坡"@, "逐浪下降"@],
        Alignment::Stuck => seq!["均线粘合"@],
        Alignment::Converging => seq!["均线收敛"@],
        Alignment::Diverging => seq!["均线发散"@],
        Alignment::Mixed => seq!["交错"@],
    }
}

impl Alignment {
    /// Alternative names of the state.
    pub fn aliases(&self) -> (r: &'static [&'static str])
        ensures
            r@.len() == alignment_aliases(*self).len(),
            forall|i: int| 0 <= i < r@.len() ==> #[trigger] r@[i]@ == alignment_aliases(*self)[i],
    {
        match self {
            Alignment::Bullish => &["多头排列", "上山爬坡", "逐浪上升"],
            Alignment::Bearish => &["空头排列", "下山滑坡", "逐浪下降"],
            Alignment::Stuck => &["均线粘合"],
            Alignment::Converging => &["均线收敛"],
            Alignment::Diverging => &["均线发散"],
            Alignment::Mixed => &["交错"],
        }
    }
}

/// Kinds of crossing of a fast average over a slow one.
#[derive(Debug, Clone, Copy, PartialEq, Eq, Structural)]
pub enum CrossKind {
    Golden,
    Death,
    PlainUp,
    PlainDown,
}

impl CrossKind {
    /// Golden and death crosses are trading signals; plain crosses are not.
    pub fn is_signal(&self) -> (r: bool)
        ensures
            r == (*self == CrossKind::Golden || *self == CrossKind::Death),
    {
        matches!(self, CrossKind::Golden | CrossKind::Death)
    }
}

/// A crossing of the `fast_period` average over the `slow_period` one at bar `index`.
#[derive(Debug, Clone, Copy, PartialEq, Eq, Structural)]
pub struct Cross {
    pub index: usize,
    pub fast_period: usize,
    pub slow_period: usize,
    pub kind: CrossKind,
}

/// Kind of a crossing: upward crosses are golden when both averages rise,
/// downward crosses are death crosses when both fall, else they are plain.
pub open spec fn cross_kind_of(up_cross: bool, down_cross: bool, fast_up: bool, slow_up: bool, fast_down: bool, slow_down: bool) -> Option<CrossKind> {
    if up_cross {
        Some(if fast_up && slow_up { CrossKind::Golden } else { CrossKind::PlainUp })
    } else if down_cross {
        Some(if fast_down && slow_down { CrossKind::Death } else { CrossKind::PlainDown })
    } else {
        None
    }
}

/// Classifies a crossing from the observed crossing and the directions of
/// both averages; `None` when the averages did not cross.
pub fn classify_cross(up_cross: bool, down_cross: bool, fast_up: bool, slow_up: bool, fast_down: bool, slow_down: bool) -> (r: Option<CrossKind>)
    ensures
        r == cross_kind_of(up_cross, down_cross, fast_up, slow_up, fast_down, slow_down),
{
    if up_cross {
        Some(if fast_up && slow_up { CrossKind::Golden } else { CrossKind::PlainUp })
    } else if down_cross {
        Some(if fast_down && slow_down { CrossKind::Death } else { CrossKind::PlainDown })
    } else {
        None
    }
}

} // verus!
