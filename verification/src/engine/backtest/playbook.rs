//! Trading playbooks that turn moving-average formations and the long-term
//! trend into position decisions. Target positions are whole percentages of
//! the account.

use vstd::prelude::*;
use crate::engine::ma::advanced::MaAdvancedKind;
use crate::engine::signal::staged_exit::{
    StagedExitPlanner, ToppingSignalSeverity, remaining_percent_after, severity_name, exit_stages,
};
use crate::text::{owned, u8_decimal, decimal};

verus! {

/// What a playbook decides for the current bar.
#[derive(Debug, Clone, PartialEq, Eq)]
pub enum PlaybookDecision {
    /// Build or add up to `target_percent` of the account.
    Buy { target_percent: u8, reason: String },
    /// Reduce to `target_percent` of the account.
    Sell { target_percent: u8, reason: String },
    /// Keep the position as it is.
    Hold,
    /// Stay out of the market.
    StayOut { reason: String },
}

/// Display name of each kind of decision.
pub open spec fn decision_label(d: PlaybookDecision) -> Seq<char> {
    match d {
        PlaybookDecision::Buy { .. } => "买入/加仓"@,
        PlaybookDecision::Sell { .. } => "减仓/清仓"@,
        PlaybookDecision::Hold => "持有"@,
        PlaybookDecision::StayOut { .. } => "空仓"@,
    }
}

/// Target of a decision; 0 for holding or staying out.
pub open spec fn decision_target(d: PlaybookDecision) -> int {
    match d {
        PlaybookDecision::Buy { target_percent, .. } => target_percent as int,
        PlaybookDecision::Sell { target_percent, .. } => target_percent as int,
        _ => 0,
    }
}

impl PlaybookDecision {
    pub fn label(&self) -> (r: &'static str)
        ensures
            r@ == decision_label(*self),
    {
        match self {
            PlaybookDecision::Buy { .. } => "买入/加仓",
            PlaybookDecision::Sell { .. } => "减仓/清仓",
            PlaybookDecision::Hold => "持有",
            PlaybookDecision::StayOut { .. } => "空仓",
        }
    }

    /// Target position in percent (0 for `Hold` and `StayOut`).
    pub fn target_percent(&self) -> (r: u8)
        ensures
            r == decision_target(*self),
    {
        match self {
            PlaybookDecision::Buy { target_percent, .. } => *target_percent,
            PlaybookDecision::Sell { target_percent, .. } => *target_percent,
            _ => 0,
        }
    }
}

/// The plain-valued facts a playbook reads at one bar.
#[derive(Debug, Clone, Copy, PartialEq, Eq, Structural)]
pub struct PlaybookSignals {
    /// Bar being decided on.
    pub index: usize,
    /// Advanced moving-average formation seen recently, if any.
    pub ma_advanced_kind: Option<MaAdvancedKind>,
    /// Severity of a topping signal at this bar, if any.
    pub topping_severity: Option<ToppingSignalSeverity>,
    /// Long-term trend: +1 up, -1 down, 0 none.
    pub long_trend: i8,
}

/// Maximum position after an early-stage (L4) buy signal, in percent.
pub open spec fn light_entry_percent() -> int {
    30
}

/// Guillotine exit: a guillotine formation clears the position.
pub struct GuillotineExitPlaybook;

impl GuillotineExitPlaybook {
    pub fn name(&self) -> (r: &'static str)
        ensures
            r@ == "断头铡刀清仓"@,
    {
        "断头铡刀清仓"
    }

    pub fn book_source(&self) -> (r: &'static str)
        ensures
            r@ == "ma p.380"@,
    {
        "ma p.380"
    }

    /// Sells everything on a guillotine formation, holds otherwise.
    pub fn decide(&mut self, ctx: &PlaybookSignals) -> (r: PlaybookDecision)
        ensures
            ctx.ma_advanced_kind == Some(MaAdvancedKind::Guillotine) ==> (r matches PlaybookDecision::Sell { target_percent, reason } && target_percent == 0
                && reason@ == "断头铡刀触发 → 清仓（ma p.380）"@),
            ctx.ma_advanced_kind != Some(MaAdvancedKind::Guillotine) ==> r == PlaybookDecision::Hold,
    {
        if matches!(ctx.ma_advanced_kind, Some(MaAdvancedKind::Guillotine)) {
            return PlaybookDecision::Sell {
                target_percent: 0,
                reason: owned("断头铡刀触发 → 清仓（ma p.380）"),
            };
        }
        PlaybookDecision::Hold
    }
}

/// Hanging-scallions entry: the earliest bullish formation opens a light position.
pub struct HangingScallionsEntryPlaybook;

impl HangingScallionsEntryPlaybook {
    pub fn name(&self) -> (r: &'static str)
        ensures
            r@ == "旱地拔葱轻仓入场"@,
    {
        "旱地拔葱轻仓入场"
    }

    pub fn book_source(&self) -> (r: &'static str)
        ensures
            r@ == "ma p.340"@,
    {
        "ma p.340"
    }

    /// Buys a light position (30%) on a hanging-scallions formation, holds otherwise.
    pub fn decide(&mut self, ctx: &PlaybookSignals) -> (r: PlaybookDecision)
        ensures
            ctx.ma_advanced_kind == Some(MaAdvancedKind::HangingScallions) ==> (r matches PlaybookDecision::Buy { target_percent, reason } && target_percent == light_entry_percent()
                && reason@ == "旱地拔葱（最早期看涨）→ 轻仓入场 30%（ma p.340）"@),
            ctx.ma_advanced_kind != Some(MaAdvancedKind::HangingScallions) ==> r == PlaybookDecision::Hold,
    {
        if matches!(ctx.ma_advanced_kind, Some(MaAdvancedKind::HangingScallions)) {
            return PlaybookDecision::Buy {
                target_percent: 30,
                reason: owned("旱地拔葱（最早期看涨）→ 轻仓入场 30%（ma p.340）"),
            };
        }
        PlaybookDecision::Hold
    }
}

/// Staged exit: reduces the position in three steps on topping signals.
pub struct StagedExitPlaybook {
    pub planner: StagedExitPlanner,
}

/// Reason given for the `stage`-th reduction, made on a signal of the given
/// severity name, down to `target` percent.
pub open spec fn staged_exit_reason(stage: nat, severity: Seq<char>, target: nat) -> Seq<char> {
    "三次减仓第 "@ + decimal(stage) + " 次（"@ + severity + "）→ 减至 "@ + decimal(target) + "%（candle p.605）"@
}

impl StagedExitPlaybook {
    pub fn new() -> (r: StagedExitPlaybook)
        ensures
            r.planner.triggered == 0,
    {
        StagedExitPlaybook { planner: StagedExitPlanner::default() }
    }

    pub fn name(&self) -> (r: &'static str)
        ensures
            r@ == "三次减仓"@,
    {
        "三次减仓"
    }

    pub fn book_source(&self) -> (r: &'static str)
        ensures
            r@ == "candle p.605"@,
    {
        "candle p.605"
    }

    /// On a topping signal, while fewer than three reductions have been made,
    /// sells down to the next stage (70%, 50%, then 0%); holds otherwise.
    pub fn decide(&mut self, ctx: &PlaybookSignals) -> (r: PlaybookDecision)
        ensures
            (ctx.topping_severity is Some && old(self).planner.triggered < exit_stages())
                ==> final(self).planner.triggered == old(self).planner.triggered + 1,
            (ctx.topping_severity is Some && old(self).planner.triggered < exit_stages())
                ==> (r matches PlaybookDecision::Sell { target_percent, reason }
                && target_percent == remaining_percent_after(final(self).planner.triggered as nat)
                && reason@ == staged_exit_reason(
                    final(self).planner.triggered as nat,
                    severity_name(ctx.topping_severity->0),
                    target_percent as nat,
                )),
            !(ctx.topping_severity is Some && old(self).planner.triggered < exit_stages())
                ==> (final(self).planner == old(self).planner && r == PlaybookDecision::Hold),
    {
        if let Some(sev) = ctx.topping_severity {
            let ev = self.planner.on_topping_signal(ctx.index, sev, owned(sev.name()));
            if let Some(ev) = ev {
                let target = self.planner.current_position_percent();
                let mut msg = owned("三次减仓第 ");
                let count = u8_decimal(self.planner.triggered_count());
                msg = msg.concat(count.as_str());
                msg = msg.concat(" 次（");
                msg = msg.concat(ev.reason.as_str());
                msg = msg.concat("）→ 减至 ");
                let pct = u8_decimal(target);
                msg = msg.concat(pct.as_str());
                msg = msg.concat("%（candle p.605）");
                return PlaybookDecision::Sell { target_percent: target, reason: msg };
            }
        }
        PlaybookDecision::Hold
    }
}

/// The trend-matrix decision: a long-term downtrend means staying out; in a
/// long-term uptrend a guillotine clears the position, a second upward bonding
/// buys in full, a hanging scallions buys 30%; everything else holds.
pub open spec fn trend_matrix_kind(long_trend: i8, kind: Option<MaAdvancedKind>) -> int {
    if long_trend < 0 {
        3
    } else if long_trend > 0 && kind == Some(MaAdvancedKind::Guillotine) {
        0
    } else if long_trend > 0 && kind == Some(MaAdvancedKind::BondUpwardDiverge) {
        1
    } else if long_trend > 0 && kind == Some(MaAdvancedKind::HangingScallions) {
        2
    } else {
        4
    }
}

/// Multi-level trend-line matrix.
pub struct TrendMatrixPlaybook;

impl TrendMatrixPlaybook {
    pub fn name(&self) -> (r: &'static str)
        ensures
            r@ == "多级趋势线矩阵"@,
    {
        "多级趋势线矩阵"
    }

    pub fn book_source(&self) -> (r: &'static str)
        ensures
            r@ == "trend p.216"@,
    {
        "trend p.216"
    }

    /// Applies the trend matrix (see `trend_matrix_kind`).
    pub fn decide(&mut self, ctx: &PlaybookSignals) -> (r: PlaybookDecision)
        ensures
            trend_matrix_kind(ctx.long_trend, ctx.ma_advanced_kind) == 3 ==> (r matches PlaybookDecision::StayOut { reason }
                && reason@ == "SELL-5 长期下降 → 非牛市空仓（trend p.225）"@),
            trend_matrix_kind(ctx.long_trend, ctx.ma_advanced_kind) == 0 ==> (r matches PlaybookDecision::Sell { target_percent, reason } && target_percent == 0
                && reason@ == "SELL-1 跌破长期上升 → 清仓（trend p.221）"@),
            trend_matrix_kind(ctx.long_trend, ctx.ma_advanced_kind) == 1 ==> (r matches PlaybookDecision::Buy { target_percent, reason } && target_percent == 100
                && reason@ == "BUY-2 长期上升 + 再次粘合向上 → 满仓（第三浪主升）"@),
            trend_matrix_kind(ctx.long_trend, ctx.ma_advanced_kind) == 2 ==> (r matches PlaybookDecision::Buy { target_percent, reason } && target_percent == 30
                && reason@ == "BUY-3 长期上升 + 旱地拔葱 → 轻仓"@),
            trend_matrix_kind(ctx.long_trend, ctx.ma_advanced_kind) == 4 ==> r == PlaybookDecision::Hold,
    {
        if ctx.long_trend < 0 {
            return PlaybookDecision::StayOut { reason: owned("SELL-5 长期下降 → 非牛市空仓（trend p.225）") };
        }
        if ctx.long_trend > 0 {
            if let Some(kind) = ctx.ma_advanced_kind {
                match kind {
                    MaAdvancedKind::Guillotine => {
                        return PlaybookDecision::Sell {
                            target_percent: 0,
                            reason: owned("SELL-1 跌破长期上升 → 清仓（trend p.221）"),
                        };
                    },
                    MaAdvancedKind::BondUpwardDiverge => {
                        return PlaybookDecision::Buy {
                            target_percent: 100,
                            reason: owned("BUY-2 长期上升 + 再次粘合向上 → 满仓（第三浪主升）"),
                        };
                    },
                    MaAdvancedKind::HangingScallions => {
                        return PlaybookDecision::Buy {
                            target_percent: 30,
                            reason: owned("BUY-3 长期上升 + 旱地拔葱 → 轻仓"),
                        };
                    },
                    _ => {},
                }
            }
        }
        PlaybookDecision::Hold
    }
}

/// In a long-term downtrend the trend matrix never buys.
pub proof fn lemma_trend_matrix_no_buy_in_downtrend(long_trend: i8, kind: Option<MaAdvancedKind>)
    requires
        long_trend < 0,
    ensures
        trend_matrix_kind(long_trend, kind) == 3,
{
}

/// The trend matrix buys (in full or lightly) and clears only inside a
/// long-term uptrend; without a long-term trend it always holds, whatever the
/// formation, and it stays out exactly in a long-term downtrend.
pub proof fn lemma_trend_matrix_acts_only_on_a_trend(long_trend: i8, kind: Option<MaAdvancedKind>)
    ensures
        (trend_matrix_kind(long_trend, kind) == 0 || trend_matrix_kind(long_trend, kind) == 1
            || trend_matrix_kind(long_trend, kind) == 2) ==> long_trend > 0,
        long_trend == 0 ==> trend_matrix_kind(long_trend, kind) == 4,
        trend_matrix_kind(long_trend, kind) == 3 <==> long_trend < 0,
{
}

} // verus!
