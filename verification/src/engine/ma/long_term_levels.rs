//! Events around the 120-day and 240-day moving averages.

use vstd::prelude::*;

verus! {

/// Touches and breaks of the 120-day and 240-day averages.
#[derive(Debug, Clone, Copy, PartialEq, Eq, Hash, Structural)]
pub enum LongTermLevelEvent {
    TouchResistance240,
    TouchSupport240,
    BreakAbove240,
    BreakBelow240,
    Touch120,
    BreakAbove120,
    BreakBelow120,
}

/// Display name of each event.
pub open spec fn long_term_label(k: LongTermLevelEvent) -> Seq<char> {
    match k {
        LongTermLevelEvent::TouchResistance240 => "触及 240 日压力"@,
        LongTermLevelEvent::TouchSupport240 => "触及 240 日支撑"@,
        LongTermLevelEvent::BreakAbove240 => "突破 240 日（长期牛市确认）"@,
        LongTermLevelEvent::BreakBelow240 => "跌破 240 日（长期熊市确认）"@,
        LongTermLevelEvent::Touch120 => "触及 120 日"@,
        LongTermLevelEvent::BreakAbove120 => "突破 120 日"@,
        LongTermLevelEvent::BreakBelow120 => "跌破 120 日"@,
    }
}

/// Direction of each event.
pub open spec fn long_term_direction(k: LongTermLevelEvent) -> int {
    match k {
        LongTermLevelEvent::BreakAbove240 | LongTermLevelEvent::BreakAbove120 | LongTermLevelEvent::TouchSupport240 => 1,
        LongTermLevelEvent::BreakBelow240 | LongTermLevelEvent::BreakBelow120 | LongTermLevelEvent::TouchResistance240 => -1,
        LongTermLevelEvent::Touch120 => 0,
    }
}

/// The four 240-day events are long term.
pub open spec fn long_term_event(e: LongTermLevelEvent) -> bool {
    e == LongTermLevelEvent::TouchResistance240 || e == LongTermLevelEvent::TouchSupport240
        || e == LongTermLevelEvent::BreakAbove240 || e == LongTermLevelEvent::BreakBelow240
}

impl LongTermLevelEvent {
    pub fn label(&self) -> (r: &'static str)
        ensures
            r@ == long_term_label(*self),
    {
        match self {
            LongTermLevelEvent::TouchResistance240 => "触及 240 日压力",
            LongTermLevelEvent::TouchSupport240 => "触及 240 日支撑",
            LongTermLevelEvent::BreakAbove240 => "突破 240 日（长期牛市确认）",
            LongTermLevelEvent::BreakBelow240 => "跌破 240 日（长期熊市确认）",
            LongTermLevelEvent::Touch120 => "触及 120 日",
            LongTermLevelEvent::BreakAbove120 => "突破 120 日",
            LongTermLevelEvent::BreakBelow120 => "跌破 120 日",
        }
    }

    pub fn direction(&self) -> (r: i8)
        ensures
            r == long_term_direction(*self),
            -1 <= r <= 1,
    {
        match self {
            LongTermLevelEvent::BreakAbove240 | LongTermLevelEvent::BreakAbove120 | LongTermLevelEvent::TouchSupport240 => 1,
            LongTermLevelEvent::BreakBelow240 | LongTermLevelEvent::BreakBelow120 | LongTermLevelEvent::TouchResistance240 => -1,
            LongTermLevelEvent::Touch120 => 0,
        }
    }

    /// Does the event concern the 240-day average?
    pub fn is_long_term(&self) -> (r: bool)
        ensures
            r == long_term_event(*self),
    {
        matches!(
            self,
            LongTermLevelEvent::TouchResistance240
                | LongTermLevelEvent::TouchSupport240
                | LongTermLevelEvent::BreakAbove240
                | LongTermLevelEvent::BreakBelow240
        )
    }
}

} // verus!
