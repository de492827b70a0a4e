//! Advanced moving-average formations: the bonding of several averages and
//! the direction in which they part.

use vstd::prelude::*;

verus! {

/// Advanced moving-average formations.
#[derive(Debug, Clone, Copy, PartialEq, Eq, Hash, Structural)]
pub enum MaAdvancedKind {
    HangingScallions,
    PoissonSpider,
    Guillotine,
    BondUpwardDiverge,
}

/// Display name of each formation.
pub open spec fn advanced_label(k: MaAdvancedKind) -> Seq<char> {
    match k {
        MaAdvancedKind::HangingScallions => "旱地拔葱"@,
        MaAdvancedKind::PoissonSpider => "毒蜘蛛（首次粘合向下）"@,
        MaAdvancedKind::Guillotine => "断头铡刀（再次粘合向下）"@,
        MaAdvancedKind::BondUpwardDiverge => "再次粘合向上发散（主升浪）"@,
    }
}

/// Direction of each formation.
pub open spec fn advanced_direction(k: MaAdvancedKind) -> int {
    match k {
        MaAdvancedKind::HangingScallions | MaAdvancedKind::BondUpwardDiverge => 1,
        MaAdvancedKind::PoissonSpider | MaAdvancedKind::Guillotine => -1,
    }
}

/// Weight (1 to 6) of each formation.
pub open spec fn advanced_weight(k: MaAdvancedKind) -> int {
    match k {
        MaAdvancedKind::Guillotine => 6,
        MaAdvancedKind::BondUpwardDiverge => 6,
        MaAdvancedKind::PoissonSpider => 5,
        MaAdvancedKind::HangingScallions => 4,
    }
}

/// Where each formation is described.
pub open spec fn advanced_source(k: MaAdvancedKind) -> Seq<char> {
    match k {
        MaAdvancedKind::HangingScallions => "ma p.340"@,
        MaAdvancedKind::PoissonSpider => "ma p.360"@,
        MaAdvancedKind::Guillotine => "ma p.380"@,
        MaAdvancedKind::BondUpwardDiverge => "ma p.354"@,
    }
}

impl MaAdvancedKind {
    pub fn label(&self) -> (r: &'static str)
        ensures
            r@ == advanced_label(*self),
    {
        match self {
            MaAdvancedKind::HangingScallions => "旱地拔葱",
            MaAdvancedKind::PoissonSpider => "毒蜘蛛（首次粘合向下）",
            MaAdvancedKind::Guillotine => "断头铡刀（再次粘合向下）",
            MaAdvancedKind::BondUpwardDiverge => "再次粘合向上发散（主升浪）",
        }
    }

    pub fn direction(&self) -> (r: i8)
        ensures
            r == advanced_direction(*self),
            -1 <= r <= 1,
    {
        match self {
            MaAdvancedKind::HangingScallions | MaAdvancedKind::BondUpwardDiverge => 1,
            MaAdvancedKind::PoissonSpider | MaAdvancedKind::Guillotine => -1,
        }
    }

    pub fn weight(&self) -> (r: u8)
        ensures
            r == advanced_weight(*self),
            1 <= r <= 6,
    {
        match self {
            MaAdvancedKind::Guillotine => 6,
            MaAdvancedKind::BondUpwardDiverge => 6,
            MaAdvancedKind::PoissonSpider => 5,
            MaAdvancedKind::HangingScallions => 4,
        }
    }

    pub fn book_source(&self) -> (r: &'static str)
        ensures
            r@ == advanced_source(*self),
    {
        match self {
            MaAdvancedKind::HangingScallions => "ma p.340",
            MaAdvancedKind::PoissonSpider => "ma p.360",
            MaAdvancedKind::Guillotine => "ma p.380",
            MaAdvancedKind::BondUpwardDiverge => "ma p.354",
        }
    }
}

/// A formation found at bar `index`, with the periods of the averages involved.
#[derive(Debug, Clone)]
pub struct MaAdvancedEvent {
    pub index: usize,
    pub kind: MaAdvancedKind,
    pub ma_periods: Vec<usize>,
}

/// The strongest formations (weight 6) are the second bonding of the averages,
/// whichever way they part.
pub proof fn lemma_strongest_are_second_bondings(k: MaAdvancedKind)
    ensures
        advanced_weight(k) == 6 <==> (k == MaAdvancedKind::Guillotine || k == MaAdvancedKind::BondUpwardDiverge),
{
}

/// Bonding episodes of the averages seen so far, by the way they parted.
#[derive(Debug, Clone, Copy, PartialEq, Eq, Structural)]
pub struct BondEpisodes {
    pub down: usize,
    pub up: usize,
}

/// Counts one more episode of bonded averages that parted downwards
/// (`bearish`) or upwards, and names the formation it makes: parting down is
/// a guillotine from the second time on when the 60-period average takes
/// part (`has_60`), a poisson spider otherwise; parting up is an upward bond
/// divergence from the second time on, and no formation the first time.
pub fn record_bond_episode(counts: &mut BondEpisodes, bearish: bool, has_60: bool) -> (r: Option<MaAdvancedKind>)
    requires
        old(counts).down < usize::MAX,
        old(counts).up < usize::MAX,
    ensures
        bearish ==> final(counts).down == old(counts).down + 1 && final(counts).up == old(counts).up
            && r == Some(if final(counts).down >= 2 && has_60 { MaAdvancedKind::Guillotine } else { MaAdvancedKind::PoissonSpider }),
        !bearish ==> final(counts).up == old(counts).up + 1 && final(counts).down == old(counts).down
            && r == (if final(counts).up >= 2 { Some(MaAdvancedKind::BondUpwardDiverge) } else { None }),
{
    if bearish {
        counts.down = counts.down + 1;
        if counts.down >= 2 && has_60 {
            Some(MaAdvancedKind::Guillotine)
        } else {
            Some(MaAdvancedKind::PoissonSpider)
        }
    } else {
        counts.up = counts.up + 1;
        if counts.up >= 2 {
            Some(MaAdvancedKind::BondUpwardDiverge)
        } else {
            None
        }
    }
}

} // verus!
