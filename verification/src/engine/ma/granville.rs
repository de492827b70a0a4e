//! Granville's eight rules around a base moving average.

use vstd::prelude::*;

verus! {

/// Granville's four buy rules and four sell rules.
#[derive(Debug, Clone, Copy, PartialEq, Eq, Structural)]
pub enum GranvilleRule {
    B1BreakoutBuy,
    B2PullbackBuy,
    B3FalseBreakBuy,
    B4DivergenceBuy,
    S1BreakdownSell,
    S2ReboundSell,
    S3FalseBreakSell,
    S4DivergenceSell,
}

/// Short code of each rule.
pub open spec fn granville_code(k: GranvilleRule) -> Seq<char> {
    match k {
        GranvilleRule::B1BreakoutBuy => "B1"@,
        GranvilleRule::B2PullbackBuy => "B2"@,
        GranvilleRule::B3FalseBreakBuy => "B3"@,
        GranvilleRule::B4DivergenceBuy => "B4"@,
        GranvilleRule::S1BreakdownSell => "S1"@,
        GranvilleRule::S2ReboundSell => "S2"@,
        GranvilleRule::S3FalseBreakSell => "S3"@,
        GranvilleRule::S4DivergenceSell => "S4"@,
    }
}

/// Display name of each rule.
pub open spec fn granville_label(k: GranvilleRule) -> Seq<char> {
    match k {
        GranvilleRule::B1BreakoutBuy => "突破买入"@,
        GranvilleRule::B2PullbackBuy => "回踩买入"@,
        GranvilleRule::B3FalseBreakBuy => "假跌买入"@,
        GranvilleRule::B4DivergenceBuy => "乖离买入（超跌反弹）"@,
        GranvilleRule::S1BreakdownSell => "跌破卖出"@,
        GranvilleRule::S2ReboundSell => "反弹卖出"@,
        GranvilleRule::S3FalseBreakSell => "假涨卖出"@,
        GranvilleRule::S4DivergenceSell => "乖离卖出（超涨回落）"@,
    }
}

/// The four B rules buy; the four S rules sell.
pub open spec fn granville_buys(r: GranvilleRule) -> bool {
    r == GranvilleRule::B1BreakoutBuy || r == GranvilleRule::B2PullbackBuy
        || r == GranvilleRule::B3FalseBreakBuy || r == GranvilleRule::B4DivergenceBuy
}

impl GranvilleRule {
    pub fn code(&self) -> (r: &'static str)
        ensures
            r@ == granville_code(*self),
    {
        match self {
            GranvilleRule::B1BreakoutBuy => "B1",
            GranvilleRule::B2PullbackBuy => "B2",
            GranvilleRule::B3FalseBreakBuy => "B3",
            GranvilleRule::B4DivergenceBuy => "B4",
            GranvilleRule::S1BreakdownSell => "S1",
            GranvilleRule::S2ReboundSell => "S2",
            GranvilleRule::S3FalseBreakSell => "S3",
            GranvilleRule::S4DivergenceSell => "S4",
        }
    }

    pub fn label(&self) -> (r: &'static str)
        ensures
            r@ == granville_label(*self),
    {
        match self {
            GranvilleRule::B1BreakoutBuy => "突破买入",
            GranvilleRule::B2PullbackBuy => "回踩买入",
            GranvilleRule::B3FalseBreakBuy => "假跌买入",
            GranvilleRule::B4DivergenceBuy => "乖离买入（超跌反弹）",
            GranvilleRule::S1BreakdownSell => "跌破卖出",
            GranvilleRule::S2ReboundSell => "反弹卖出",
            GranvilleRule::S3FalseBreakSell => "假涨卖出",
            GranvilleRule::S4DivergenceSell => "乖离卖出（超涨回落）",
        }
    }

    /// Is this one of the four buy rules?
    pub fn is_buy(&self) -> (r: bool)
        ensures
            r == granville_buys(*self),
    {
        matches!(
            self,
            GranvilleRule::B1BreakoutBuy
                | GranvilleRule::B2PullbackBuy
                | GranvilleRule::B3FalseBreakBuy
                | GranvilleRule::B4DivergenceBuy
        )
    }
}

/// A rule's code starts with B exactly when the rule buys.
pub proof fn lemma_code_tells_side(r: GranvilleRule)
    ensures
        (granville_code(r)[0] == 'B') == granville_buys(r),
        granville_code(r).len() == 2,
{
    reveal_strlit("B1");
    reveal_strlit("B2");
    reveal_strlit("B3");
    reveal_strlit("B4");
    reveal_strlit("S1");
    reveal_strlit("S2");
    reveal_strlit("S3");
    reveal_strlit("S4");
}

/// A rule that fired at bar `index`.
#[derive(Debug, Clone, Copy, PartialEq, Eq, Structural)]
pub struct GranvilleSignal {
    pub index: usize,
    pub rule: GranvilleRule,
}

} // verus!
