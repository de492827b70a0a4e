//! Vocabulary of the multi-timeframe analysis: chart timeframes, moving
//! average stacking and moving average convergence states.

use vstd::prelude::*;

verus! {

/// Chart timeframe of an aggregated series.
#[derive(Debug, Clone, Copy, PartialEq, Eq, Hash, Structural)]
pub enum Timeframe {
    Daily,
    Weekly,
    Monthly,
}

/// Display name of each chart timeframe.
pub open spec fn chart_timeframe_label(k: Timeframe) -> Seq<char> {
    match k {
        Timeframe::Daily => "日线"@,
        Timeframe::Weekly => "周线"@,
        Timeframe::Monthly => "月线"@,
    }
}

impl Timeframe {
    pub fn label(&self) -> (r: &'static str)
        ensures
            r@ == chart_timeframe_label(*self),
    {
        match self {
            Timeframe::Daily => "日线",
            Timeframe::Weekly => "周线",
            Timeframe::Monthly => "月线",
        }
    }
}

/// Stacking of price and moving averages.
#[derive(Debug, Clone, Copy, PartialEq, Eq, Hash, Structural)]
pub enum AlignmentKind {
    Bullish,
    Bearish,
    Unaligned,
}

/// Display name of each stacking.
pub open spec fn alignment_kind_label(k: AlignmentKind) -> Seq<char> {
    match k {
        AlignmentKind::Bullish => "多头排列"@,
        AlignmentKind::Bearish => "空头排列"@,
        AlignmentKind::Unaligned => "无明确排列"@,
    }
}

/// Direction of each stacking.
pub open spec fn alignment_kind_direction(k: AlignmentKind) -> int {
    match k {
        AlignmentKind::Bullish => 1,
        AlignmentKind::Bearish => -1,
        AlignmentKind::Unaligned => 0,
    }
}

impl AlignmentKind {
    pub fn label(&self) -> (r: &'static str)
        ensures
            r@ == alignment_kind_label(*self),
    {
        match self {
            AlignmentKind::Bullish => "多头排列",
            AlignmentKind::Bearish => "空头排列",
            AlignmentKind::Unaligned => "无明确排列",
        }
    }

    pub fn direction(&self) -> (r: i8)
        ensures
            r == alignment_kind_direction(*self),
    {
        match self {
            AlignmentKind::Bullish => 1,
            AlignmentKind::Bearish => -1,
            AlignmentKind::Unaligned => 0,
        }
    }
}

/// How the spread of a moving-average bundle evolves.
#[derive(Debug, Clone, Copy, PartialEq, Eq, Hash, Structural)]
pub enum MaRelationState {
    Converging,
    Diverging,
    Bonded,
    Stable,
}

/// Display name of each spread state.
pub open spec fn ma_relation_label(k: MaRelationState) -> Seq<char> {
    match k {
        MaRelationState::Converging => "收敛"@,
        MaRelationState::Diverging => "发散"@,
        MaRelationState::Bonded => "粘合"@,
        MaRelationState::Stable => "稳定"@,
    }
}

impl MaRelationState {
    pub fn label(&self) -> (r: &'static str)
        ensures
            r@ == ma_relation_label(*self),
    {
        match self {
            MaRelationState::Converging => "收敛",
            MaRelationState::Diverging => "发散",
            MaRelationState::Bonded => "粘合",
            MaRelationState::Stable => "稳定",
        }
    }
}

/// Bar `i` (counted from the first scanned bar) enters a stacking: it has one,
/// and a different one from the bar before (before the first bar there is none).
pub open spec fn alignment_entered(kinds: Seq<AlignmentKind>, i: int) -> bool {
    kinds[i] != AlignmentKind::Unaligned && (i == 0 || kinds[i] != kinds[i - 1])
}

/// The entries among the first `n` scanned bars, as (bar index, stacking),
/// the first scanned bar having index `first`.
pub open spec fn alignment_events_of(kinds: Seq<AlignmentKind>, first: int, n: int) -> Seq<(usize, AlignmentKind)>
    decreases n,
{
    if n <= 0 {
        seq![]
    } else {
        let before = alignment_events_of(kinds, first, n - 1);
        if alignment_entered(kinds, n - 1) {
            before.push(((first + n - 1) as usize, kinds[n - 1]))
        } else {
            before
        }
    }
}

/// The bars, of those scanned from `first` on with stackings `kinds`, at which
/// a stacking begins; a stacking lasting several bars is reported once.
pub fn alignment_events(kinds: &[AlignmentKind], first: usize) -> (r: Vec<(usize, AlignmentKind)>)
    requires
        first + kinds@.len() <= usize::MAX,
    ensures
        r@ == alignment_events_of(kinds@, first as int, kinds@.len() as int),
{
    let mut out: Vec<(usize, AlignmentKind)> = Vec::new();
    let mut i: usize = 0;
    while i < kinds.len()
        invariant
            i <= kinds@.len(),
            first + kinds@.len() <= usize::MAX,
            out@ == alignment_events_of(kinds@, first as int, i as int),
        decreases kinds@.len() - i,
    {
        let k = kinds[i];
        if k != AlignmentKind::Unaligned && (i == 0 || k != kinds[i - 1]) {
            out.push((first + i, k));
        }
        i = i + 1;
    }
    out
}

/// Bar `i` enters a spread state other than stable, different from the bar
/// before (before the first bar the state is stable).
pub open spec fn relation_entered(states: Seq<MaRelationState>, i: int) -> bool {
    states[i] != MaRelationState::Stable && (i == 0 || states[i] != states[i - 1])
}

/// The entries among the first `n` scanned bars, as (bar index, state).
pub open spec fn relation_events_of(states: Seq<MaRelationState>, first: int, n: int) -> Seq<(usize, MaRelationState)>
    decreases n,
{
    if n <= 0 {
        seq![]
    } else {
        let before = relation_events_of(states, first, n - 1);
        if relation_entered(states, n - 1) {
            before.push(((first + n - 1) as usize, states[n - 1]))
        } else {
            before
        }
    }
}

/// The bars, of those scanned from `first` on with spread states `states`, at
/// which a converging, diverging or bonded spell begins.
pub fn relation_events(states: &[MaRelationState], first: usize) -> (r: Vec<(usize, MaRelationState)>)
    requires
        first + states@.len() <= usize::MAX,
    ensures
        r@ == relation_events_of(states@, first as int, states@.len() as int),
{
    let mut out: Vec<(usize, MaRelationState)> = Vec::new();
    let mut i: usize = 0;
    while i < states.len()
        invariant
            i <= states@.len(),
            first + states@.len() <= usize::MAX,
            out@ == relation_events_of(states@, first as int, i as int),
        decreases states@.len() - i,
    {
        let k = states[i];
        if k != MaRelationState::Stable && (i == 0 || k != states[i - 1]) {
            out.push((first + i, k));
        }
        i = i + 1;
    }
    out
}

/// Entries are reported in the order of their bars, at most one per bar, and
/// only at scanned bars.
pub proof fn lemma_alignment_events_in_bar_order(kinds: Seq<AlignmentKind>, first: int, n: int)
    requires
        0 <= n <= kinds.len(),
        0 <= first,
        first + n <= usize::MAX,
    ensures
        forall|j: int|
            0 <= j < alignment_events_of(kinds, first, n).len() ==> first <= #[trigger] alignment_events_of(kinds, first, n)[j].0
                < first + n,
        forall|j: int, k: int|
            0 <= j < k < alignment_events_of(kinds, first, n).len() ==> #[trigger] alignment_events_of(kinds, first, n)[j].0
                < #[trigger] alignment_events_of(kinds, first, n)[k].0,
    decreases n,
{
    if n > 0 {
        lemma_alignment_events_in_bar_order(kinds, first, n - 1);
        let before = alignment_events_of(kinds, first, n - 1);
        let ev = alignment_events_of(kinds, first, n);
        if alignment_entered(kinds, n - 1) {
            let x = ((first + n - 1) as usize, kinds[n - 1]);
            assert(ev == before.push(x));
            assert(x.0 == first + n - 1);
            assert forall|j: int| 0 <= j < ev.len() implies first <= #[trigger] ev[j].0 < first + n by {
                if j < before.len() {
                    assert(ev[j] == before[j]);
                }
            }
            assert forall|j: int, k: int| 0 <= j < k < ev.len() implies #[trigger] ev[j].0 < #[trigger] ev[k].0 by {
                assert(ev[j] == before[j]);
                if k < before.len() {
                    assert(ev[k] == before[k]);
                }
            }
        }
    }
}

} // verus!
