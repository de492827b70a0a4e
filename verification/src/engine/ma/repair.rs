//! Moving-average repair after an overshoot, and the air-flag top.

use vstd::prelude::*;

verus! {

/// How price returns to its moving average.
#[derive(Debug, Clone, Copy, PartialEq, Eq, Hash, Structural)]
pub enum RepairKind {
    Active,
    Passive,
}

/// Display name of each repair.
pub open spec fn repair_label(k: RepairKind) -> Seq<char> {
    match k {
        RepairKind::Active => "主动修复（短期顶部）"@,
        RepairKind::Passive => "被动修复（横盘整理）"@,
    }
}

/// Direction of each repair.
pub open spec fn repair_direction(k: RepairKind) -> int {
    match k {
        RepairKind::Active => -1,
        RepairKind::Passive => 0,
    }
}

impl RepairKind {
    pub fn label(&self) -> (r: &'static str)
        ensures
            r@ == repair_label(*self),
    {
        match self {
            RepairKind::Active => "主动修复（短期顶部）",
            RepairKind::Passive => "被动修复（横盘整理）",
        }
    }

    pub fn direction(&self) -> (r: i8)
        ensures
            r == repair_direction(*self),
    {
        match self {
            RepairKind::Active => -1,
            RepairKind::Passive => 0,
        }
    }
}

/// The three exit criteria after an air-flag candle.
#[derive(Debug, Clone, Copy, PartialEq, Eq, Structural)]
pub struct AirFlagCriteria {
    /// High volume without further gains.
    pub volume_stall: bool,
    /// A topping candle (doji, evening star, ...).
    pub top_pattern: bool,
    /// Close below the 5-day average.
    pub break_5_day: bool,
}

impl AirFlagCriteria {
    /// All three criteria hold.
    pub fn all_met(&self) -> (r: bool)
        ensures
            r == (self.volume_stall && self.top_pattern && self.break_5_day),
    {
        self.volume_stall && self.top_pattern && self.break_5_day
    }
}

/// Kind of a bias repair that took `duration` bars from the bias peak: an
/// active repair is a quick one (at most `active_max_bars` bars) in which the
/// price itself fell back (`price_fell`); any other is passive, the average
/// having caught up with the price.
pub fn classify_repair(duration: usize, active_max_bars: usize, price_fell: bool) -> (r: RepairKind)
    ensures
        r == (if duration <= active_max_bars && price_fell { RepairKind::Active } else { RepairKind::Passive }),
{
    if duration <= active_max_bars && price_fell {
        RepairKind::Active
    } else {
        RepairKind::Passive
    }
}

} // verus!
