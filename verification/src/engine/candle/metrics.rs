//! Coarse classes of a single candle by body size and shadows.

use vstd::prelude::*;

verus! {

/// Coarse class of one candle (flat, doji, long shadows, small/medium/big bodies, marubozu).
#[derive(Debug, Clone, Copy, PartialEq, Eq, Structural)]
pub enum CandleClass {
    DojiFlat,
    Doji,
    LongUpper,
    LongLower,
    SpinningTop,
    SmallBull,
    SmallBear,
    MediumBull,
    MediumBear,
    BigBull,
    BigBear,
    Marubozu,
}

} // verus!
