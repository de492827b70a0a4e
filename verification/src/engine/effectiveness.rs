//! Naming of the signal "arms" whose effectiveness is evaluated, and which
//! playbook decisions count as triggers.

use vstd::prelude::*;
use crate::engine::ma::advanced::MaAdvancedKind;
use crate::engine::backtest::playbook::PlaybookDecision;

verus! {

/// Number of bars after a trigger over which its outcome is measured.
pub const DEFAULT_HORIZON: usize = 10;

/// Category of an evaluated arm.
#[derive(Debug, Clone, Copy, PartialEq, Eq, Structural)]
pub enum ArmCategory {
    Signal,
    Playbook,
}

/// Name of each arm category.
pub open spec fn arm_category_name(k: ArmCategory) -> Seq<char> {
    match k {
        ArmCategory::Signal => "Signal"@,
        ArmCategory::Playbook => "Playbook"@,
    }
}

impl ArmCategory {
    pub fn as_str(&self) -> (r: &'static str)
        ensures
            r@ == arm_category_name(*self),
    {
        match self {
            ArmCategory::Signal => "Signal",
            ArmCategory::Playbook => "Playbook",
        }
    }
}

/// Arm identifier of each advanced moving-average formation.
pub open spec fn arm_name_of(k: MaAdvancedKind) -> Seq<char> {
    match k {
        MaAdvancedKind::HangingScallions => "signal.ma.scallions"@,
        MaAdvancedKind::PoissonSpider => "signal.ma.poisson_spider"@,
        MaAdvancedKind::Guillotine => "signal.ma.guillotine"@,
        MaAdvancedKind::BondUpwardDiverge => "signal.ma.bond_upward"@,
    }
}

/// Display label of each advanced-formation arm.
pub open spec fn arm_label_of(k: MaAdvancedKind) -> Seq<char> {
    match k {
        MaAdvancedKind::HangingScallions => "旱地拔葱（早期看涨）"@,
        MaAdvancedKind::PoissonSpider => "毒蜘蛛（首次向下）"@,
        MaAdvancedKind::Guillotine => "断头铡刀（再次向下）"@,
        MaAdvancedKind::BondUpwardDiverge => "主升浪（再次向上）"@,
    }
}

/// Arm identifier of an advanced formation.
pub fn ma_arm_name(kind: MaAdvancedKind) -> (r: &'static str)
    ensures
        r@ == arm_name_of(kind),
{
    match kind {
        MaAdvancedKind::HangingScallions => "signal.ma.scallions",
        MaAdvancedKind::PoissonSpider => "signal.ma.poisson_spider",
        MaAdvancedKind::Guillotine => "signal.ma.guillotine",
        MaAdvancedKind::BondUpwardDiverge => "signal.ma.bond_upward",
    }
}

/// Display label of an advanced-formation arm.
pub fn ma_arm_label(kind: MaAdvancedKind) -> (r: &'static str)
    ensures
        r@ == arm_label_of(kind),
{
    match kind {
        MaAdvancedKind::HangingScallions => "旱地拔葱（早期看涨）",
        MaAdvancedKind::PoissonSpider => "毒蜘蛛（首次向下）",
        MaAdvancedKind::Guillotine => "断头铡刀（再次向下）",
        MaAdvancedKind::BondUpwardDiverge => "主升浪（再次向上）",
    }
}

/// Every formation arm is named under the `signal.ma.` namespace.
pub proof fn lemma_arm_names_namespaced(k: MaAdvancedKind)
    ensures
        arm_name_of(k).subrange(0, 10) == "signal.ma."@,
        arm_name_of(k).len() > 10,
{
    reveal_strlit("signal.ma.");
    reveal_strlit("signal.ma.scallions");
    reveal_strlit("signal.ma.poisson_spider");
    reveal_strlit("signal.ma.guillotine");
    reveal_strlit("signal.ma.bond_upward");
    assert(arm_name_of(k).subrange(0, 10) =~= "signal.ma."@);
}

/// The signal category, for arms that come from signal scans.
pub fn signal_category() -> (r: ArmCategory)
    ensures
        r == ArmCategory::Signal,
{
    ArmCategory::Signal
}

/// Direction of the trigger that a playbook decision makes: a buy is bullish,
/// a sale below half the account is bearish, anything else is no trigger.
pub open spec fn trigger_direction_of(d: PlaybookDecision) -> Option<i8> {
    match d {
        PlaybookDecision::Buy { .. } => Some(1i8),
        PlaybookDecision::Sell { target_percent, .. } => if target_percent < 50 { Some(-1i8) } else { None },
        _ => None,
    }
}

/// Direction of the trigger that a playbook decision makes, if it makes one.
pub fn trigger_direction(d: &PlaybookDecision) -> (r: Option<i8>)
    ensures
        r == trigger_direction_of(*d),
{
    match d {
        PlaybookDecision::Buy { .. } => Some(1),
        PlaybookDecision::Sell { target_percent, .. } => if *target_percent < 50 { Some(-1) } else { None },
        _ => None,
    }
}

} // verus!
