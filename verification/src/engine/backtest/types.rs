//! Backtest vocabulary: trade sides, stop algorithms and exit reasons.

use vstd::prelude::*;

verus! {

/// Direction of a trade.
#[derive(Debug, Clone, Copy, PartialEq, Eq, Structural)]
pub enum Side {
    Long,
    Short,
}

/// Stop-loss algorithms.
#[derive(Debug, Clone, Copy, PartialEq, Eq, Structural)]
pub enum StopKind {
    Atr,
    Structure,
    Ma,
    Pattern,
}

/// Why a trade was closed.
#[derive(Debug, Clone, Copy, PartialEq, Eq, Structural)]
pub enum ExitReason {
    StopLoss,
    TakeProfit,
    Reverse,
    EndOfData,
}

} // verus!
