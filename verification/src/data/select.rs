//! Clean-up of a paged candle download: candles of the requested window,
//! ordered by open time, one per open time.

use vstd::prelude::*;

verus! {

/// `t` lies in the closed window `[start, end]`.
pub open spec fn in_window(t: i64, start: i64, end: i64) -> bool {
    start <= t <= end
}

/// Position `i` holds the first occurrence of its open time.
pub open spec fn first_of_its_time(times: Seq<i64>, i: int) -> bool {
    forall|j: int| 0 <= j < i ==> times[j] != times[i]
}

/// `r` selects, among the first `n` candles, the first candle of each open time
/// in the window, in increasing open-time order, and misses no such time.
pub open spec fn window_selection(times: Seq<i64>, start: i64, end: i64, n: int, r: Seq<usize>) -> bool {
    &&& forall|k: int|
        0 <= k < r.len() ==> (#[trigger] r[k]) < n && in_window(times[r[k] as int], start, end)
            && first_of_its_time(times, r[k] as int)
    &&& forall|k: int, l: int| 0 <= k < l < r.len() ==> times[(#[trigger] r[k]) as int] < times[(#[trigger] r[l]) as int]
    &&& forall|i: int|
        0 <= i < n && in_window(#[trigger] times[i], start, end) ==> exists|k: int|
            0 <= k < r.len() && times[(#[trigger] r[k]) as int] == times[i]
}

proof fn lemma_selection_skip(times: Seq<i64>, start: i64, end: i64, i: int, r: Seq<usize>)
    requires
        0 <= i < times.len(),
        window_selection(times, start, end, i, r),
        !in_window(times[i], start, end) || exists|k: int| 0 <= k < r.len() && times[(#[trigger] r[k]) as int] == times[i],
    ensures
        window_selection(times, start, end, i + 1, r),
{
}

proof fn lemma_selection_insert(times: Seq<i64>, start: i64, end: i64, i: int, r: Seq<usize>, pos: int)
    requires
        0 <= i < times.len(),
        i <= usize::MAX,
        window_selection(times, start, end, i, r),
        in_window(times[i], start, end),
        0 <= pos <= r.len(),
        forall|k: int| 0 <= k < pos ==> times[(#[trigger] r[k]) as int] < times[i],
        forall|k: int| pos <= k < r.len() ==> times[(#[trigger] r[k]) as int] > times[i],
    ensures
        window_selection(times, start, end, i + 1, r.insert(pos, i as usize)),
{
    let r2 = r.insert(pos, i as usize);
    assert forall|k: int| 0 <= k < r2.len() implies (#[trigger] r2[k]) < i + 1 && in_window(times[r2[k] as int], start, end)
        && first_of_its_time(times, r2[k] as int) by {
        if k < pos {
            assert(r2[k] == r[k]);
        } else if k == pos {
            assert forall|j: int| 0 <= j < i implies times[j] != times[i] by {
                if times[j] == times[i] {
                    assert(in_window(times[j], start, end));
                    let kk = choose|kk: int| 0 <= kk < r.len() && times[(#[trigger] r[kk]) as int] == times[j];
                    if kk < pos {
                    } else {
                    }
                }
            }
        } else {
            assert(r2[k] == r[k - 1]);
        }
    }
    assert forall|k: int, l: int| 0 <= k < l < r2.len() implies times[(#[trigger] r2[k]) as int] < times[(#[trigger] r2[l]) as int] by {
        if l < pos {
            assert(r2[k] == r[k] && r2[l] == r[l]);
        } else if l == pos {
            assert(r2[k] == r[k]);
        } else if k < pos {
            assert(r2[k] == r[k] && r2[l] == r[l - 1]);
        } else if k == pos {
            assert(r2[l] == r[l - 1]);
        } else {
            assert(r2[k] == r[k - 1] && r2[l] == r[l - 1]);
        }
    }
    assert forall|j: int| 0 <= j < i + 1 && in_window(#[trigger] times[j], start, end) implies exists|k: int|
        0 <= k < r2.len() && times[(#[trigger] r2[k]) as int] == times[j] by {
        if j == i {
            assert(r2[pos] == i);
        } else {
            let kk = choose|kk: int| 0 <= kk < r.len() && times[(#[trigger] r[kk]) as int] == times[j];
            if kk < pos {
                assert(r2[kk] == r[kk]);
            } else {
                assert(r2[kk + 1] == r[kk]);
            }
        }
    }
}

fn place_candle(times: &[i64], start: i64, end: i64, out: &mut Vec<usize>, i: usize)
    requires
        i < times.len(),
        window_selection(times@, start, end, i as int, old(out)@),
    ensures
        window_selection(times@, start, end, i + 1, final(out)@),
{
    let t = times[i];
    let ghost r = out@;
    if !(start <= t && t <= end) {
        proof {
            lemma_selection_skip(times@, start, end, i as int, r);
        }
        return;
    }
    let mut pos: usize = out.len();
    while pos > 0 && times[out[pos - 1]] > t
        invariant
            out@ == r,
            pos <= r.len(),
            window_selection(times@, start, end, i as int, r),
            i < times@.len(),
            t == times@[i as int],
            forall|k: int| pos <= k < r.len() ==> times@[(#[trigger] r[k]) as int] > t,
        decreases pos,
    {
        pos = pos - 1;
    }
    if pos > 0 && times[out[pos - 1]] == t {
        proof {
            assert(times@[(r[pos - 1]) as int] == times@[i as int]);
            lemma_selection_skip(times@, start, end, i as int, r);
        }
        return;
    }
    proof {
        assert forall|k: int| 0 <= k < pos implies times@[(#[trigger] r[k]) as int] < t by {
            if k < pos - 1 {
                assert(times@[r[k] as int] < times@[r[pos - 1] as int]);
            }
        }
        lemma_selection_insert(times@, start, end, i as int, r, pos as int);
    }
    out.insert(pos, i);
}

/// Positions of the candles to keep out of `times` (the open times of the
/// collected candles, in collection order): every candle that opens within
/// `[start, end]`, ordered by open time, and of candles sharing an open time
/// only the one collected first.
pub fn select_window(times: &[i64], start: i64, end: i64) -> (r: Vec<usize>)
    ensures
        window_selection(times@, start, end, times@.len() as int, r@),
{
    let mut out: Vec<usize> = Vec::new();
    let mut i: usize = 0;
    while i < times.len()
        invariant
            i <= times.len(),
            window_selection(times@, start, end, i as int, out@),
        decreases times.len() - i,
    {
        place_candle(times, start, end, &mut out, i);
        i = i + 1;
    }
    out
}

} // verus!
