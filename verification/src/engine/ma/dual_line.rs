//! The six buy-and-hold rules of the 10/60 moving-average pair.

use vstd::prelude::*;

verus! {

/// The six rules of the quantity (short) and quality (long) average pair.
#[allow(non_camel_case_types)]
#[derive(Debug, Clone, Copy, PartialEq, Eq, Hash, Structural)]
pub enum DualLineRule {
    Rule1_BreakQualityLineUp,
    Rule2_QuantityGoldenCross,
    Rule3_QualityLineSupportRebound,
    Rule4_BreakQuantityAbove,
    Rule5_QuantityDownQualitySupport,
    Rule6_BullArrangement,
}

/// Display name of each rule.
pub open spec fn dual_rule_label(k: DualLineRule) -> Seq<char> {
    match k {
        DualLineRule::Rule1_BreakQualityLineUp => "规则1 股价突破定性线+定性线上行"@,
        DualLineRule::Rule2_QuantityGoldenCross => "规则2 定量线上穿定性线金叉"@,
        DualLineRule::Rule3_QualityLineSupportRebound => "规则3 定性线支撑止跌回升"@,
        DualLineRule::Rule4_BreakQuantityAbove => "规则4 定性线上方突破定量线"@,
        DualLineRule::Rule5_QuantityDownQualitySupport => "规则5 定量线下行遇定性线支撑"@,
        DualLineRule::Rule6_BullArrangement => "规则6 多头排列持股"@,
    }
}

/// Share of the position (in percent) that each rule recommends: the golden
/// cross rules allow 70%, the support rules 30%, the bull arrangement holds 100%.
pub open spec fn dual_rule_position_percent(rule: DualLineRule) -> int {
    match rule {
        DualLineRule::Rule1_BreakQualityLineUp | DualLineRule::Rule2_QuantityGoldenCross => 70,
        DualLineRule::Rule6_BullArrangement => 100,
        DualLineRule::Rule3_QualityLineSupportRebound
        | DualLineRule::Rule4_BreakQuantityAbove
        | DualLineRule::Rule5_QuantityDownQualitySupport => 30,
    }
}

impl DualLineRule {
    pub fn label(&self) -> (r: &'static str)
        ensures
            r@ == dual_rule_label(*self),
    {
        match self {
            DualLineRule::Rule1_BreakQualityLineUp => "规则1 股价突破定性线+定性线上行",
            DualLineRule::Rule2_QuantityGoldenCross => "规则2 定量线上穿定性线金叉",
            DualLineRule::Rule3_QualityLineSupportRebound => "规则3 定性线支撑止跌回升",
            DualLineRule::Rule4_BreakQuantityAbove => "规则4 定性线上方突破定量线",
            DualLineRule::Rule5_QuantityDownQualitySupport => "规则5 定量线下行遇定性线支撑",
            DualLineRule::Rule6_BullArrangement => "规则6 多头排列持股",
        }
    }

    /// Rules 1 to 5 are buy signals; rule 6 means hold.
    pub fn is_buy(&self) -> (r: bool)
        ensures
            r == (*self != DualLineRule::Rule6_BullArrangement),
    {
        !matches!(self, DualLineRule::Rule6_BullArrangement)
    }

    /// Where the six rules are described.
    pub fn book_source(&self) -> (r: &'static str)
        ensures
            r@ == "ma p.200 双线中期组合 6 条买入持仓原则"@,
    {
        "ma p.200 双线中期组合 6 条买入持仓原则"
    }
}

/// Recommended share of the position, in percent, after a signal of `rule`.
pub fn recommended_position_percent(rule: DualLineRule) -> (r: u8)
    ensures
        r == dual_rule_position_percent(rule),
        r <= 100,
{
    match rule {
        DualLineRule::Rule1_BreakQualityLineUp | DualLineRule::Rule2_QuantityGoldenCross => 70,
        DualLineRule::Rule6_BullArrangement => 100,
        DualLineRule::Rule3_QualityLineSupportRebound
        | DualLineRule::Rule4_BreakQuantityAbove
        | DualLineRule::Rule5_QuantityDownQualitySupport => 30,
    }
}

/// A rule that fired at bar `index`.
#[derive(Debug, Clone, Copy, PartialEq, Eq, Structural)]
pub struct DualLineEvent {
    pub index: usize,
    pub rule: DualLineRule,
}

} // verus!
