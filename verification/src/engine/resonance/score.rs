//! Overall stance of the four-dimension resonance score.

use vstd::prelude::*;

verus! {

/// Seven stances from strongly bullish to strongly bearish.
#[derive(Debug, Clone, Copy, PartialEq, Eq, Structural)]
pub enum Stance {
    StrongBull,
    Bull,
    WeakBull,
    Neutral,
    WeakBear,
    Bear,
    StrongBear,
}

/// Display name of each stance.
pub open spec fn stance_label(k: Stance) -> Seq<char> {
    match k {
        Stance::StrongBull => "强烈看涨"@,
        Stance::Bull => "看涨"@,
        Stance::WeakBull => "偏多"@,
        Stance::Neutral => "中性 / 观望"@,
        Stance::WeakBear => "偏空"@,
        Stance::Bear => "看跌"@,
        Stance::StrongBear => "强烈看跌"@,
    }
}

/// Rank of each stance from strongly bullish (0) to strongly bearish (6).
pub open spec fn stance_rank(s: Stance) -> int {
    match s {
        Stance::StrongBull => 0,
        Stance::Bull => 1,
        Stance::WeakBull => 2,
        Stance::Neutral => 3,
        Stance::WeakBear => 4,
        Stance::Bear => 5,
        Stance::StrongBear => 6,
    }
}

impl Stance {
    pub fn label(&self) -> (r: &'static str)
        ensures
            r@ == stance_label(*self),
    {
        match self {
            Stance::StrongBull => "强烈看涨",
            Stance::Bull => "看涨",
            Stance::WeakBull => "偏多",
            Stance::Neutral => "中性 / 观望",
            Stance::WeakBear => "偏空",
            Stance::Bear => "看跌",
            Stance::StrongBear => "强烈看跌",
        }
    }
}

/// Each stance has a rank of its own, so the ranking orders the seven stances.
pub proof fn lemma_stance_rank_injective(a: Stance, b: Stance)
    ensures
        stance_rank(a) == stance_rank(b) ==> a == b,
        0 <= stance_rank(a) <= 6,
{
}

/// Side a stance leans to: +1 bullish, -1 bearish, 0 neutral.
pub open spec fn stance_direction(s: Stance) -> int {
    if stance_rank(s) < 3 { 1 } else if stance_rank(s) > 3 { -1 } else { 0 }
}

/// Confidence of a stance, in percent: full at the extremes, 70 for a plain
/// bull or bear, 35 for a lean, none when neutral.
pub open spec fn stance_confidence(s: Stance) -> int {
    match s {
        Stance::StrongBull | Stance::StrongBear => 100,
        Stance::Bull | Stance::Bear => 70,
        Stance::WeakBull | Stance::WeakBear => 35,
        Stance::Neutral => 0,
    }
}

impl Stance {
    /// The side this stance leans to.
    pub fn direction(&self) -> (r: i8)
        ensures
            r == stance_direction(*self),
    {
        match self {
            Stance::StrongBull | Stance::Bull | Stance::WeakBull => 1,
            Stance::Neutral => 0,
            Stance::WeakBear | Stance::Bear | Stance::StrongBear => -1,
        }
    }

    /// The confidence of this stance, in percent.
    pub fn confidence_percent(&self) -> (r: u8)
        ensures
            r == stance_confidence(*self),
    {
        match self {
            Stance::StrongBull | Stance::StrongBear => 100,
            Stance::Bull | Stance::Bear => 70,
            Stance::WeakBull | Stance::WeakBear => 35,
            Stance::Neutral => 0,
        }
    }
}

/// How far a stance is from neutral (0 to 3).
pub open spec fn stance_distance(s: Stance) -> int {
    if stance_rank(s) >= 3 { stance_rank(s) - 3 } else { 3 - stance_rank(s) }
}

/// Mirrored stances (same distance from neutral, opposite sides) carry the
/// same confidence and opposite directions, and confidence grows with the
/// distance from neutral.
pub proof fn lemma_stance_confidence_symmetric(a: Stance, b: Stance)
    ensures
        stance_rank(a) + stance_rank(b) == 6 ==> stance_confidence(a) == stance_confidence(b)
            && stance_direction(a) == -stance_direction(b),
        stance_distance(a) < stance_distance(b) ==> stance_confidence(a) < stance_confidence(b),
{
}

} // verus!
