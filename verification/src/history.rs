//! Bounded sample histories, as shown in the monitor's charts.
use std::collections::VecDeque;
use vstd::prelude::*;

verus! {

/// Number of samples that `push_value` keeps.
pub const SHORT_HISTORY_LEN: usize = 10;

/// Number of samples that a chart of the monitor keeps (one per second).
pub const CHART_HISTORY_LEN: usize = 60;

/// The last `cap` elements of `s`, or all of `s` when it is no longer than `cap`.
pub open spec fn keep_last<T>(s: Seq<T>, cap: nat) -> Seq<T> {
    if s.len() > cap {
        s.subrange(s.len() - cap, s.len() as int)
    } else {
        s
    }
}

/// What `push_value` makes of a history: the value is appended, and when the
/// result is longer than ten samples, the oldest one is dropped (once).
pub open spec fn pushed_short(s: Seq<u64>, value: u64) -> Seq<u64> {
    if s.len() + 1 > SHORT_HISTORY_LEN {
        s.push(value).drop_first()
    } else {
        s.push(value)
    }
}

/// What a run of `push_value` calls makes of a history: `values` pushed one
/// after the other, first to last.
pub open spec fn pushed_all(s: Seq<u64>, values: Seq<u64>) -> Seq<u64>
    decreases values.len(),
{
    if values.len() == 0 {
        s
    } else {
        pushed_short(pushed_all(s, values.drop_last()), values.last())
    }
}

/// Appends `value` to `history` and drops the oldest sample when the history
/// then holds more than ten.
pub fn push_value(history: &mut VecDeque<u64>, value: u64)
    ensures
        final(history)@ == pushed_short(old(history)@, value),
{
    history.push_back(value);
    if history.len() > SHORT_HISTORY_LEN {
        history.pop_front();
    }
}

/// Appends `value` to `history`, then drops the oldest samples until at most
/// `cap` remain.
pub fn push_bounded(history: &mut VecDeque<u64>, value: u64, cap: usize)
    ensures
        final(history)@ == keep_last(old(history)@.push(value), cap as nat),
{
    let ghost full = old(history)@.push(value);
    history.push_back(value);
    while history.len() > cap
        invariant
            full == old(history)@.push(value),
            old(history)@.len() + 1 > cap ==> history@.len() >= cap,
            old(history)@.len() + 1 <= cap ==> history@ == full,
            history@ == full.subrange(full.len() - history@.len(), full.len() as int),
            history@.len() <= full.len(),
        decreases history@.len(),
    {
        history.pop_front();
    }
    proof {
        if full.len() <= cap {
            assert(history@ =~= full);
        } else {
            assert(history@ =~= full.subrange(full.len() - cap, full.len() as int));
        }
    }
}

/// The newest sample of a history, or 0 when it is empty.
pub open spec fn latest_of(s: Seq<u64>) -> u64 {
    if s.len() == 0 {
        0
    } else {
        s.last()
    }
}

/// Returns the newest sample of `history`, or 0 when there is none.
pub fn latest(history: &VecDeque<u64>) -> (r: u64)
    ensures
        r == latest_of(history@),
{
    let n = history.len();
    if n == 0 {
        0
    } else {
        history[n - 1]
    }
}

/// The points of a chart over the last `CHART_HISTORY_LEN` seconds: sample
/// `i` of `n` stands at x = 60 - n + i, so the newest at x = 59 and the
/// older ones one apart to its left.
pub open spec fn chart_points_of(s: Seq<u64>) -> Seq<(u64, u64)> {
    Seq::new(s.len(), |i: int| ((CHART_HISTORY_LEN - s.len() + i) as u64, s[i]))
}

/// Returns the chart points of `history`: sample `i` of `n` stands at
/// x = 60 - n + i, its value at y.
pub fn chart_points(history: &VecDeque<u64>) -> (points: Vec<(u64, u64)>)
    requires
        history@.len() <= CHART_HISTORY_LEN,
    ensures
        points@ == chart_points_of(history@),
{
    let n = history.len();
    let offset: usize = CHART_HISTORY_LEN - n;
    let mut points: Vec<(u64, u64)> = Vec::new();
    let mut i: usize = 0;
    while i < n
        invariant
            n == history@.len(),
            n <= CHART_HISTORY_LEN,
            offset == CHART_HISTORY_LEN - n,
            i <= n,
            points@ == chart_points_of(history@).take(i as int),
        decreases n - i,
    {
        let x: u64 = (offset + i) as u64;
        points.push((x, history[i]));
        i = i + 1;
        proof {
            assert(points@ =~= chart_points_of(history@).take(i as int));
        }
    }
    proof {
        assert(points@ =~= chart_points_of(history@));
    }
    points
}

} // verus!
