//! Staged exit at a top: three short-term topping signals reduce the position
//! in three steps, to 70%, to 50% and then to nothing (candle p.605).

use vstd::prelude::*;
use crate::engine::ma::advanced::MaAdvancedKind;

verus! {

/// How severe a topping signal is.
#[derive(Debug, Clone, Copy, PartialEq, Eq, Hash, Structural)]
pub enum ToppingSignalSeverity {
    Early,
    Intermediate,
    Severe,
}

/// Name of each severity.
pub open spec fn severity_name(s: ToppingSignalSeverity) -> Seq<char> {
    match s {
        ToppingSignalSeverity::Early => "Early"@,
        ToppingSignalSeverity::Intermediate => "Intermediate"@,
        ToppingSignalSeverity::Severe => "Severe"@,
    }
}

impl ToppingSignalSeverity {
    pub fn name(&self) -> (r: &'static str)
        ensures
            r@ == severity_name(*self),
    {
        match self {
            ToppingSignalSeverity::Early => "Early",
            ToppingSignalSeverity::Intermediate => "Intermediate",
            ToppingSignalSeverity::Severe => "Severe",
        }
    }
}

/// Number of reductions that make a full exit.
pub open spec fn exit_stages() -> nat {
    3
}

/// Position left after `stages` reductions, in percent of the starting
/// position: 100, then 70, 50 and 0 (reductions of 30%, 50% and 100% in all).
pub open spec fn remaining_percent_after(stages: nat) -> nat {
    if stages == 0 {
        100
    } else if stages == 1 {
        70
    } else if stages == 2 {
        50
    } else {
        0
    }
}

/// Severity that an advanced moving-average formation carries as a topping
/// signal: a guillotine is severe, a poisonous spider intermediate; other
/// formations are no topping signal.
pub open spec fn topping_severity_spec(kind: Option<MaAdvancedKind>) -> Option<ToppingSignalSeverity> {
    match kind {
        Some(MaAdvancedKind::Guillotine) => Some(ToppingSignalSeverity::Severe),
        Some(MaAdvancedKind::PoissonSpider) => Some(ToppingSignalSeverity::Intermediate),
        _ => None,
    }
}

/// The topping-signal severity of an advanced formation (see `topping_severity_spec`).
pub fn topping_severity_of(kind: Option<MaAdvancedKind>) -> (r: Option<ToppingSignalSeverity>)
    ensures
        r == topping_severity_spec(kind),
{
    match kind {
        Some(MaAdvancedKind::Guillotine) => Some(ToppingSignalSeverity::Severe),
        Some(MaAdvancedKind::PoissonSpider) => Some(ToppingSignalSeverity::Intermediate),
        _ => None,
    }
}

/// One reduction made by the planner.
#[derive(Debug, Clone, PartialEq, Eq)]
pub struct StagedExitEvent {
    /// Bar of the topping signal.
    pub index: usize,
    /// Which reduction this is (1, 2 or 3).
    pub stage: u8,
    pub severity: ToppingSignalSeverity,
    pub reason: String,
    /// Position left after this reduction, in percent.
    pub remaining_percent: u8,
}

/// Counts topping signals and reduces the position on each of the first three.
#[derive(Debug, Clone, Copy, PartialEq, Eq, Structural)]
pub struct StagedExitPlanner {
    /// Reductions made so far.
    pub triggered: u8,
}

impl Default for StagedExitPlanner {
    fn default() -> (r: StagedExitPlanner)
        ensures
            r.triggered == 0,
    {
        StagedExitPlanner { triggered: 0 }
    }
}

impl StagedExitPlanner {
    /// Records a topping signal. While fewer than three reductions have been
    /// made, the next one is made and reported; afterwards signals are ignored.
    pub fn on_topping_signal(&mut self, index: usize, severity: ToppingSignalSeverity, reason: String) -> (r: Option<
        StagedExitEvent,
    >)
        ensures
            old(self).triggered < exit_stages() ==> final(self).triggered == old(self).triggered + 1,
            old(self).triggered < exit_stages() ==> (r matches Some(ev)
                && ev.index == index && ev.stage == final(self).triggered && ev.severity == severity
                && ev.reason@ == reason@ && ev.remaining_percent == remaining_percent_after(final(self).triggered as nat)),
            old(self).triggered >= exit_stages() ==> (final(self).triggered == old(self).triggered && r is None),
    {
        if self.triggered >= 3 {
            return None;
        }
        self.triggered = self.triggered + 1;
        let remaining = self.current_position_percent();
        Some(StagedExitEvent { index, stage: self.triggered, severity, reason, remaining_percent: remaining })
    }

    /// Position left, in percent of the starting position.
    pub fn current_position_percent(&self) -> (r: u8)
        ensures
            r == remaining_percent_after(self.triggered as nat),
    {
        if self.triggered == 0 {
            100
        } else if self.triggered == 1 {
            70
        } else if self.triggered == 2 {
            50
        } else {
            0
        }
    }

    /// Reductions made so far.
    pub fn triggered_count(&self) -> (r: u8)
        ensures
            r == self.triggered,
    {
        self.triggered
    }

    /// Whether all three reductions have been made.
    pub fn is_fully_exited(&self) -> (r: bool)
        ensures
            r == (self.triggered >= exit_stages()),
    {
        self.triggered >= 3
    }

    /// Starts over with the full position.
    pub fn reset(&mut self)
        ensures
            final(self).triggered == 0,
    {
        self.triggered = 0;
    }
}

/// Each reduction leaves no more than the one before, and after the third
/// nothing is left.
pub proof fn lemma_staged_exit_only_reduces(a: nat, b: nat)
    requires
        a <= b,
    ensures
        remaining_percent_after(b) <= remaining_percent_after(a),
        b >= exit_stages() ==> remaining_percent_after(b) == 0,
{
}

} // verus!
