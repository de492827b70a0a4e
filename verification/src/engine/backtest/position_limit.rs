//! Position limits per Granville rule, in whole percent of the account: the
//! three trend buys (B1 to B3) may go to a full position, the deep-divergence
//! buy B4 only to a light one, and the sell rules call for no position.

use vstd::prelude::*;
use crate::engine::ma::granville::{granville_code, GranvilleRule};
use crate::text::{concat, decimal, owned, u8_decimal};

verus! {

/// Upper bounds of the position, in percent, by kind of Granville rule.
#[derive(Debug, Clone, Copy, PartialEq, Eq, Structural)]
pub struct PositionLimit {
    /// Bound after a B1, B2 or B3 buy.
    pub bull_buy_max: u8,
    /// Bound after a B4 (deep divergence) buy, which must stay light.
    pub l4_buy_max: u8,
    /// Bound after any of the four sell rules.
    pub sell_max_position: u8,
}

impl Default for PositionLimit {
    /// Full position on the trend buys, 30% on B4, none after a sell.
    fn default() -> (r: PositionLimit)
        ensures
            r == (PositionLimit { bull_buy_max: 100, l4_buy_max: 30, sell_max_position: 0 }),
    {
        PositionLimit { bull_buy_max: 100, l4_buy_max: 30, sell_max_position: 0 }
    }
}

/// The bound that `limits` sets after `rule`.
pub open spec fn limit_for(limits: PositionLimit, rule: GranvilleRule) -> u8 {
    match rule {
        GranvilleRule::B1BreakoutBuy | GranvilleRule::B2PullbackBuy | GranvilleRule::B3FalseBreakBuy => limits.bull_buy_max,
        GranvilleRule::B4DivergenceBuy => limits.l4_buy_max,
        _ => limits.sell_max_position,
    }
}

impl PositionLimit {
    /// Cautious bounds: half a position on the trend buys, 20% on B4.
    pub fn conservative() -> (r: PositionLimit)
        ensures
            r == (PositionLimit { bull_buy_max: 50, l4_buy_max: 20, sell_max_position: 0 }),
    {
        PositionLimit { bull_buy_max: 50, l4_buy_max: 20, sell_max_position: 0 }
    }

    /// Aggressive bounds: the defaults, which already allow a full position
    /// everywhere but on B4.
    pub fn aggressive() -> (r: PositionLimit)
        ensures
            r == (PositionLimit { bull_buy_max: 100, l4_buy_max: 30, sell_max_position: 0 }),
    {
        PositionLimit::default()
    }

    /// The bound after `rule`.
    pub fn max_for_rule(&self, rule: GranvilleRule) -> (r: u8)
        ensures
            r == limit_for(*self, rule),
    {
        match rule {
            GranvilleRule::B1BreakoutBuy | GranvilleRule::B2PullbackBuy | GranvilleRule::B3FalseBreakBuy => self.bull_buy_max,
            GranvilleRule::B4DivergenceBuy => self.l4_buy_max,
            _ => self.sell_max_position,
        }
    }
}

/// Verdict on an order.
#[derive(Debug, Clone, PartialEq, Eq)]
pub enum OrderCheckResult {
    /// The target is within the bound of the rule.
    Approved { target_percent: u8 },
    /// The target exceeds the bound of the rule.
    Rejected { original_target: u8, max_allowed: u8, rule: GranvilleRule, reason: String },
    /// No Granville rule is in play; other rules manage the position.
    NoContext,
}

/// The explanation of a rejected order.
pub open spec fn rejection_text(rule: GranvilleRule, max: u8, target: u8, current: u8) -> Seq<char> {
    "葛南维 "@ + granville_code(rule) + " 规则仓位上限 "@ + decimal(max as nat) + "%，目标 "@ + decimal(target as nat)
        + "% 超限（当前 "@ + decimal(current as nat) + "%）"@
}

/// Checks orders against position limits.
pub struct PositionLimitChecker {
    pub limits: PositionLimit,
}

impl Default for PositionLimitChecker {
    fn default() -> (r: PositionLimitChecker)
        ensures
            r.limits == (PositionLimit { bull_buy_max: 100, l4_buy_max: 30, sell_max_position: 0 }),
    {
        PositionLimitChecker { limits: PositionLimit::default() }
    }
}

impl PositionLimitChecker {
    pub fn new(limits: PositionLimit) -> (r: PositionLimitChecker)
        ensures
            r.limits == limits,
    {
        PositionLimitChecker { limits }
    }

    /// Checks a move from `current_percent` to `target_percent` made on the
    /// signal of `rule`: without a rule there is nothing to check; otherwise
    /// the target is approved when it is within the rule's bound and rejected,
    /// with the bound and an explanation, when it is not.
    pub fn check_order(&self, rule: Option<GranvilleRule>, current_percent: u8, target_percent: u8) -> (r: OrderCheckResult)
        ensures
            rule is None ==> r == OrderCheckResult::NoContext,
            rule matches Some(g) ==> (if target_percent <= limit_for(self.limits, g) {
                r == (OrderCheckResult::Approved { target_percent })
            } else {
                r matches OrderCheckResult::Rejected { original_target, max_allowed, rule: rr, reason }
                    && original_target == target_percent && max_allowed == limit_for(self.limits, g) && rr == g
                    && reason@ == rejection_text(g, limit_for(self.limits, g), target_percent, current_percent)
            }),
    {
        let r = match rule {
            None => {
                return OrderCheckResult::NoContext;
            },
            Some(r) => r,
        };
        let max = self.limits.max_for_rule(r);
        if target_percent <= max {
            OrderCheckResult::Approved { target_percent }
        } else {
            let mut reason = concat("葛南维 ", r.code());
            reason = reason.concat(" 规则仓位上限 ");
            reason = reason.concat(u8_decimal(max).as_str());
            reason = reason.concat("%，目标 ");
            reason = reason.concat(u8_decimal(target_percent).as_str());
            reason = reason.concat("% 超限（当前 ");
            reason = reason.concat(u8_decimal(current_percent).as_str());
            reason = reason.concat("%）");
            proof {
                assert(reason@ =~= rejection_text(r, max, target_percent, current_percent));
            }
            OrderCheckResult::Rejected { original_target: target_percent, max_allowed: max, rule: r, reason }
        }
    }

    /// The target cut down to the bound of `rule`; unchanged without a rule.
    pub fn clamp_position(&self, rule: Option<GranvilleRule>, target_percent: u8) -> (r: u8)
        ensures
            r == (match rule {
                Some(g) => if target_percent <= limit_for(self.limits, g) { target_percent } else { limit_for(self.limits, g) },
                None => target_percent,
            }),
    {
        match rule {
            Some(g) => {
                let max = self.limits.max_for_rule(g);
                if target_percent <= max { target_percent } else { max }
            },
            None => target_percent,
        }
    }
}

/// A clamped target always passes the check of the same rule.
pub proof fn lemma_clamped_target_is_approved(limits: PositionLimit, rule: GranvilleRule, target: u8)
    ensures
        ({
            let c = if target <= limit_for(limits, rule) { target } else { limit_for(limits, rule) };
            c <= limit_for(limits, rule) && c <= target
        }),
{
}

} // verus!
