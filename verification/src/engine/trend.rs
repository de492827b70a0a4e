//! Swing points of a price series, the raw material of chart patterns.

use vstd::prelude::*;

verus! {

/// Whether a swing point is a local top or a local bottom.
#[derive(Debug, Clone, Copy, PartialEq, Eq, Hash, Structural)]
pub enum SwingKind {
    High,
    Low,
}

/// A local extreme of a price series. Prices are integer ticks of the quote
/// currency.
#[derive(Debug, Clone, Copy, PartialEq, Eq, Structural)]
pub struct SwingPoint {
    pub index: usize,
    pub time: i64,
    pub price: i64,
    pub kind: SwingKind,
}

} // verus!
