//! Parts of the performance report that are counts: winning and losing
//! streaks, and the number of bars in a year for each interval.

use vstd::prelude::*;
use crate::text::str_eq;

verus! {

/// Length of the run of `v` that ends just before position `k` of `s`.
pub open spec fn run_ending_at(s: Seq<bool>, v: bool, k: int) -> int
    decreases k,
{
    if k <= 0 {
        0
    } else if s[k - 1] == v {
        run_ending_at(s, v, k - 1) + 1
    } else {
        0
    }
}

/// Longest run of `v` within the first `k` items of `s`.
pub open spec fn longest_run(s: Seq<bool>, v: bool, k: int) -> int
    decreases k,
{
    if k <= 0 {
        0
    } else {
        let prev = longest_run(s, v, k - 1);
        let cur = run_ending_at(s, v, k);
        if cur > prev { cur } else { prev }
    }
}

/// Every item of `s[i..j]` equals `v`.
pub open spec fn is_run(s: Seq<bool>, v: bool, i: int, j: int) -> bool {
    forall|t: int| i <= t < j ==> s[t] == v
}

proof fn lemma_run_ending_bounds(s: Seq<bool>, v: bool, k: int)
    requires
        0 <= k <= s.len(),
    ensures
        0 <= run_ending_at(s, v, k) <= k,
        is_run(s, v, k - run_ending_at(s, v, k), k),
        forall|i: int| 0 <= i <= k && is_run(s, v, i, k) ==> k - i <= run_ending_at(s, v, k),
    decreases k,
{
    if k > 0 {
        lemma_run_ending_bounds(s, v, k - 1);
        if s[k - 1] == v {
            assert forall|i: int| 0 <= i <= k && is_run(s, v, i, k) implies k - i <= run_ending_at(s, v, k) by {
                if i < k {
                    assert(is_run(s, v, i, k - 1));
                }
            }
        } else {
            assert forall|i: int| 0 <= i <= k && is_run(s, v, i, k) implies k - i <= run_ending_at(s, v, k) by {
                if i < k {
                    assert(s[k - 1] == v);
                }
            }
        }
    }
}

/// `longest_run` is the length of the longest block of equal items `v`: some
/// block has that length and no block is longer.
pub proof fn lemma_longest_run_is_longest(s: Seq<bool>, v: bool, k: int)
    requires
        0 <= k <= s.len(),
    ensures
        forall|i: int, j: int| 0 <= i <= j <= k && is_run(s, v, i, j) ==> j - i <= longest_run(s, v, k),
        exists|i: int, j: int| 0 <= i <= j <= k && j - i == longest_run(s, v, k) && #[trigger] is_run(s, v, i, j),
    decreases k,
{
    if k == 0 {
        assert(is_run(s, v, 0, 0));
        assert(0 <= 0 <= 0int <= k && 0 - 0 == longest_run(s, v, k));
    } else {
        lemma_longest_run_is_longest(s, v, k - 1);
        lemma_run_ending_bounds(s, v, k);
        assert forall|i: int, j: int| 0 <= i <= j <= k && is_run(s, v, i, j) implies j - i <= longest_run(s, v, k) by {
            if j < k {
            } else {
            }
        }
        if run_ending_at(s, v, k) > longest_run(s, v, k - 1) {
            let i = k - run_ending_at(s, v, k);
            assert(is_run(s, v, i, k));
        } else {
            let (i, j) = choose|i: int, j: int| 0 <= i <= j <= k - 1 && j - i == longest_run(s, v, k - 1) && #[trigger] is_run(s, v, i, j);
            assert(is_run(s, v, i, j));
        }
    }
}

/// Longest streaks of winning and of losing trades, given whether each closed
/// trade (in order) won.
pub fn consec_streaks(wins: &[bool]) -> (r: (usize, usize))
    ensures
        r.0 == longest_run(wins@, true, wins@.len() as int),
        r.1 == longest_run(wins@, false, wins@.len() as int),
{
    let mut max_w: usize = 0;
    let mut max_l: usize = 0;
    let mut cur_w: usize = 0;
    let mut cur_l: usize = 0;
    let mut i: usize = 0;
    while i < wins.len()
        invariant
            i <= wins.len(),
            cur_w == run_ending_at(wins@, true, i as int),
            cur_l == run_ending_at(wins@, false, i as int),
            max_w == longest_run(wins@, true, i as int),
            max_l == longest_run(wins@, false, i as int),
            cur_w <= i,
            cur_l <= i,
            max_w <= i,
            max_l <= i,
        decreases wins.len() - i,
    {
        if wins[i] {
            cur_w = cur_w + 1;
            cur_l = 0;
            if cur_w > max_w {
                max_w = cur_w;
            }
        } else {
            cur_l = cur_l + 1;
            cur_w = 0;
            if cur_l > max_l {
                max_l = cur_l;
            }
        }
        i = i + 1;
    }
    (max_w, max_l)
}

/// Bars per year of each interval code; unknown codes count as daily.
pub open spec fn bars_per_year_of(interval: Seq<char>) -> int {
    if interval == "1m"@ {
        525_600
    } else if interval == "5m"@ {
        105_120
    } else if interval == "15m"@ {
        35_040
    } else if interval == "30m"@ {
        17_520
    } else if interval == "1h"@ {
        8_760
    } else if interval == "4h"@ {
        2_190
    } else if interval == "1d"@ {
        365
    } else if interval == "1w"@ {
        52
    } else if interval == "1M"@ {
        12
    } else {
        365
    }
}

/// Number of bars of `interval` in a year (used to annualise returns).
pub fn bars_per_year(interval: &str) -> (r: u32)
    ensures
        r == bars_per_year_of(interval@),
{
    if str_eq(interval, "1m") {
        525_600
    } else if str_eq(interval, "5m") {
        105_120
    } else if str_eq(interval, "15m") {
        35_040
    } else if str_eq(interval, "30m") {
        17_520
    } else if str_eq(interval, "1h") {
        8_760
    } else if str_eq(interval, "4h") {
        2_190
    } else if str_eq(interval, "1d") {
        365
    } else if str_eq(interval, "1w") {
        52
    } else if str_eq(interval, "1M") {
        12
    } else {
        365
    }
}

} // verus!
