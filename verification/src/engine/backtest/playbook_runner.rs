//! Carrying out playbook decisions: the position, in whole percent of the
//! account, and what becomes of the tracked trade. Fills, fees and equity
//! are worked out by the caller.

use vstd::prelude::*;
use crate::engine::backtest::playbook::PlaybookDecision;
use crate::engine::backtest::types::ExitReason;

verus! {

/// What a carried-out decision does to the tracked trade.
#[derive(Debug, Clone, Copy, PartialEq, Eq, Structural)]
pub enum TradeAction {
    /// Nothing changes.
    Keep,
    /// A new trade starts.
    Open,
    /// The open trade grows.
    Add,
    /// The open trade is closed for `reason`; with `reopen_rest` the part of
    /// the position still held is tracked as a new trade.
    Close { reason: ExitReason, reopen_rest: bool },
}

/// Position and trade action after carrying out a decision.
#[derive(Debug, Clone, Copy, PartialEq, Eq, Structural)]
pub struct PositionStep {
    pub position_percent: u8,
    pub action: TradeAction,
}

/// The step a decision makes from position `pos` with (`trade_open`) or
/// without a tracked trade. A buy only ever raises the position and a sell
/// only ever lowers it; anything else keeps it. A sell to zero closes the
/// trade as taken profit, a partial sell as a reversal.
pub open spec fn decision_step(pos: u8, trade_open: bool, d: PlaybookDecision) -> PositionStep {
    match d {
        PlaybookDecision::Buy { target_percent, .. } => if target_percent > pos {
            PositionStep {
                position_percent: target_percent,
                action: if trade_open { TradeAction::Add } else { TradeAction::Open },
            }
        } else {
            PositionStep { position_percent: pos, action: TradeAction::Keep }
        },
        PlaybookDecision::Sell { target_percent, .. } => if target_percent < pos {
            PositionStep {
                position_percent: target_percent,
                action: if trade_open {
                    TradeAction::Close {
                        reason: if target_percent == 0 { ExitReason::TakeProfit } else { ExitReason::Reverse },
                        reopen_rest: target_percent > 0,
                    }
                } else {
                    TradeAction::Keep
                },
            }
        } else {
            PositionStep { position_percent: pos, action: TradeAction::Keep }
        },
        _ => PositionStep { position_percent: pos, action: TradeAction::Keep },
    }
}

/// Carries out `decision` from position `pos` (see `decision_step`).
pub fn apply_decision(pos: u8, trade_open: bool, decision: &PlaybookDecision) -> (r: PositionStep)
    ensures
        r == decision_step(pos, trade_open, *decision),
{
    match decision {
        PlaybookDecision::Buy { target_percent, .. } => {
            let t = *target_percent;
            if t > pos {
                let action = if trade_open { TradeAction::Add } else { TradeAction::Open };
                PositionStep { position_percent: t, action }
            } else {
                PositionStep { position_percent: pos, action: TradeAction::Keep }
            }
        },
        PlaybookDecision::Sell { target_percent, .. } => {
            let t = *target_percent;
            if t < pos {
                let action = if trade_open {
                    let reason = if t == 0 { ExitReason::TakeProfit } else { ExitReason::Reverse };
                    TradeAction::Close { reason, reopen_rest: t > 0 }
                } else {
                    TradeAction::Keep
                };
                PositionStep { position_percent: t, action }
            } else {
                PositionStep { position_percent: pos, action: TradeAction::Keep }
            }
        },
        _ => PositionStep { position_percent: pos, action: TradeAction::Keep },
    }
}

/// A buy never lowers the position and a sell never raises it.
pub proof fn lemma_decisions_move_one_way(pos: u8, trade_open: bool, d: PlaybookDecision)
    ensures
        d is Buy ==> decision_step(pos, trade_open, d).position_percent >= pos,
        d is Sell ==> decision_step(pos, trade_open, d).position_percent <= pos,
        (d is Hold || d is StayOut) ==> decision_step(pos, trade_open, d) == (PositionStep { position_percent: pos, action: TradeAction::Keep }),
{
}

/// A trade is closed for good exactly when a sell empties the position.
pub proof fn lemma_flat_after_full_close(pos: u8, d: PlaybookDecision)
    ensures
        decision_step(pos, true, d).action matches TradeAction::Close { reopen_rest, .. } ==>
            (reopen_rest <==> decision_step(pos, true, d).position_percent > 0),
{
}

} // verus!
