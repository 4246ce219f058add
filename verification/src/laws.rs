//! What holds of the monitor over any sequence of events.
use vstd::prelude::*;
use crate::history::{keep_last, pushed_short, pushed_all, latest_of, chart_points_of, SHORT_HISTORY_LEN, CHART_HISTORY_LEN};
use crate::dashboard::{
    Action, AppView, EventView, GpuBrand, event_ok, step_action, loop_step, run_events, GpuMemory, Key, inv, initial, step, with_disk_percent, apply_key, logged, lemma_logged_inv, max_u64,
};
use crate::monitor::{disk_sample_view};

verus! {

/// Keeping the last `cap` elements leaves at most `cap` and ends with the
/// same element.
proof fn lemma_keep_last(s: Seq<u64>, x: u64, cap: nat)
    requires
        cap > 0,
    ensures
        keep_last(s.push(x), cap).len() <= cap,
        keep_last(s.push(x), cap).last() == x,
        s.len() < cap ==> keep_last(s.push(x), cap) == s.push(x),
{
}

/// A freshly started monitor satisfies the invariant.
pub proof fn lemma_initial_inv()
    ensures
        inv(initial()),
{
}

/// Every event keeps the invariant: a valid tab, charts of at most sixty
/// samples, and at most ten distinct error messages.
pub proof fn lemma_step_keeps_inv(v: AppView, e: EventView)
    requires
        inv(v),
    ensures
        inv(step(v, e)),
{
    match e {
        EventView::CpuProgress(p) => lemma_keep_last(v.cpu, p, CHART_HISTORY_LEN as nat),
        EventView::RamProgress(p) => lemma_keep_last(v.ram, p, CHART_HISTORY_LEN as nat),
        EventView::GpuProgress { utilization, .. } =>
            lemma_keep_last(v.gpu, utilization as u64, CHART_HISTORY_LEN as nat),
        EventView::Error(msg) => lemma_logged_inv(v.errors, msg),
        _ => {},
    }
}

/// A disk percentage keeps the invariant.
pub proof fn lemma_disk_percent_keeps_inv(v: AppView, percent: u64)
    requires
        inv(v),
    ensures
        inv(with_disk_percent(v, percent)),
{
    lemma_keep_last(v.disk, percent, CHART_HISTORY_LEN as nat);
}

/// Moving one tab to the right and then one to the left, or the other way
/// round, comes back to the same state.
pub proof fn lemma_tab_round_trip(v: AppView)
    requires
        inv(v),
    ensures
        apply_key(apply_key(v, Key::Right), Key::Left) == v,
        apply_key(apply_key(v, Key::Left), Key::Right) == v,
        apply_key(apply_key(v, Key::Char('l')), Key::Char('h')) == v,
        apply_key(apply_key(v, Key::Char('h')), Key::Char('l')) == v,
{
}

/// A disk sample asks for its throughput to be scaled against a number at
/// least as large and at least 1: the new running maximum, or 1 when that
/// is 0. So the disk activity it stands for is a fraction of at most one.
pub proof fn lemma_disk_scale_bounds(v: AppView, e: EventView)
    requires
        event_ok(e),
    ensures
        match step_action(v, e) {
            Action::ScaleDisk { throughput, scale } => {
                &&& throughput <= scale
                &&& scale >= 1
                &&& scale == max_u64(step(v, e).disk_max, 1)
            },
            Action::Redraw => true,
        },
{
}

/// All samples of a history are at most 100.
pub open spec fn within_100(s: Seq<u64>) -> bool {
    forall|i: int| 0 <= i < s.len() ==> s[i] <= 100
}

/// Keeping the last samples after a push keeps the bound of 100.
proof fn lemma_keep_last_within_100(s: Seq<u64>, x: u64, cap: nat)
    requires
        within_100(s),
        x <= 100,
    ensures
        within_100(keep_last(s.push(x), cap)),
{
    let t = s.push(x);
    let r = keep_last(t, cap);
    assert forall|i: int| 0 <= i < r.len() implies r[i] <= 100 by {
        if t.len() > cap {
            assert(r[i] == t[i + t.len() - cap]);
        }
    }
}

/// Over any run of the event loop from a valid state: every state is valid
/// (tab, charts of at most sixty samples, at most ten distinct errors), the
/// largest disk throughput never decreases, and the disk chart stays within
/// 100 as long as each percentage handed back is.
pub proof fn lemma_run_events(v: AppView, rounds: Seq<(EventView, u64)>)
    requires
        inv(v),
    ensures
        inv(run_events(v, rounds)),
        run_events(v, rounds).disk_max >= v.disk_max,
        within_100(v.disk) && (forall|i: int| 0 <= i < rounds.len() ==> #[trigger] rounds[i].1 <= 100)
            ==> within_100(run_events(v, rounds).disk),
    decreases rounds.len(),
{
    if rounds.len() > 0 {
        let init = rounds.drop_last();
        lemma_run_events(v, init);
        let w = run_events(v, init);
        let (e, p) = rounds.last();
        lemma_step_keeps_inv(w, e);
        lemma_disk_percent_keeps_inv(step(w, e), p);
        lemma_disk_max_monotone(w, e);
        if within_100(v.disk) && (forall|i: int| 0 <= i < rounds.len() ==> #[trigger] rounds[i].1 <= 100) {
            assert forall|i: int| 0 <= i < init.len() implies #[trigger] init[i].1 <= 100 by {
                assert(init[i] == rounds[i]);
            }
            assert(rounds[rounds.len() - 1].1 <= 100);
            assert(step(w, e).disk == w.disk);
            lemma_keep_last_within_100(w.disk, p, CHART_HISTORY_LEN as nat);
        }
    }
}

/// Three steps to the right, or three to the left, come back to the same tab.
pub proof fn lemma_three_tabs_cycle(v: AppView)
    requires
        inv(v),
    ensures
        apply_key(apply_key(apply_key(v, Key::Right), Key::Right), Key::Right) == v,
        apply_key(apply_key(apply_key(v, Key::Left), Key::Left), Key::Left) == v,
{
}

/// Toggling the chart colour twice restores it.
pub proof fn lemma_color_toggle_twice(v: AppView)
    ensures
        apply_key(apply_key(v, Key::Char('c')), Key::Char('c')) == v,
{
}

/// Once a quit key was pressed, the monitor stays set to quit, whatever
/// comes next.
pub proof fn lemma_exit_is_final(v: AppView, e: EventView, percent: u64)
    requires
        v.exit,
    ensures
        step(v, e).exit,
        with_disk_percent(v, percent).exit,
{
}

/// Key releases and repeats, and reports that no GPU is available, change
/// nothing.
pub proof fn lemma_ignored_events(v: AppView, key: Key, b: bool)
    ensures
        step(v, EventView::Input { key, press: false }) == v,
        step(v, EventView::GpuNotAvailable(b)) == v,
{
}

/// After an error is reported it is in the log, and reporting it again
/// changes nothing.
pub proof fn lemma_error_report_idempotent(v: AppView, msg: Seq<char>)
    ensures
        step(v, EventView::Error(msg)).errors.contains(msg),
        step(step(v, EventView::Error(msg)), EventView::Error(msg)) == step(v, EventView::Error(msg)),
{
    let r = logged(v.errors, msg);
    if !v.errors.contains(msg) {
        assert(r[r.len() - 1] == msg);
    }
}

/// The largest disk throughput seen never decreases.
pub proof fn lemma_disk_max_monotone(v: AppView, e: EventView)
    ensures
        step(v, e).disk_max >= v.disk_max,
{
}

/// After a CPU, RAM, GPU or disk sample, the chart's newest value is that
/// sample.
pub proof fn lemma_newest_sample_shown(
    v: AppView,
    p: u64,
    u: u32,
    brand: GpuBrand,
    fan_speed: u32,
    power_limit: u32,
    memory_info: GpuMemory,
)
    ensures
        latest_of(step(v, EventView::CpuProgress(p)).cpu) == p,
        latest_of(
            step(v, EventView::GpuProgress { utilization: u, brand, fan_speed, power_limit, memory_info }).gpu,
        ) == u as u64,
        latest_of(step(v, EventView::RamProgress(p)).ram) == p,
        latest_of(with_disk_percent(v, p).disk) == p,
{
    lemma_keep_last(v.cpu, p, CHART_HISTORY_LEN as nat);
    lemma_keep_last(v.ram, p, CHART_HISTORY_LEN as nat);
    lemma_keep_last(v.gpu, u as u64, CHART_HISTORY_LEN as nat);
    lemma_keep_last(v.disk, p, CHART_HISTORY_LEN as nat);
}

/// `push_value` keeps a history of at most ten samples within ten, and the
/// pushed value is the newest.
pub proof fn lemma_push_value_bounded(s: Seq<u64>, value: u64)
    requires
        s.len() <= SHORT_HISTORY_LEN,
    ensures
        pushed_short(s, value).len() <= SHORT_HISTORY_LEN,
        pushed_short(s, value).last() == value,
{
}

/// Pushing values one after the other with `push_value` into an empty
/// history leaves exactly the last ten of them (all of them when there are
/// fewer), oldest first.
pub proof fn lemma_push_value_run(values: Seq<u64>)
    ensures
        pushed_all(Seq::empty(), values) == values.subrange(
            values.len() - (if values.len() < SHORT_HISTORY_LEN { values.len() as int } else { SHORT_HISTORY_LEN as int }),
            values.len() as int,
        ),
    decreases values.len(),
{
    let n = values.len() as int;
    if n > 0 {
        let init = values.drop_last();
        lemma_push_value_run(init);
        let prev = pushed_all(Seq::empty(), init);
        if n - 1 >= SHORT_HISTORY_LEN {
            assert(prev =~= values.subrange(n - 1 - SHORT_HISTORY_LEN, n - 1));
            assert(prev.push(values.last()).drop_first() =~= values.subrange(n - SHORT_HISTORY_LEN, n));
        } else {
            assert(prev =~= values.subrange(0, n - 1));
            assert(prev.push(values.last()) =~= values.subrange(0, n));
        }
    } else {
        assert(values.subrange(0, 0) =~= Seq::<u64>::empty());
    }
}

/// In a chart the newest point stands at x = 59 and the points are one
/// apart.
pub proof fn lemma_chart_layout(s: Seq<u64>)
    requires
        0 < s.len() <= CHART_HISTORY_LEN,
    ensures
        chart_points_of(s).last().0 == 59,
        forall|i: int| 0 < i < s.len() ==> #[trigger] chart_points_of(s)[i].0 == chart_points_of(s)[i - 1].0 + 1,
{
}

/// When no process read or wrote since the previous reading, the disk
/// sample reports no activity; its used space never exceeds its total.
pub proof fn lemma_disk_idle(prev: (u64, u64), disk: Option<(Seq<char>, u64, u64)>, read: u64, written: u64)
    ensures
        match disk_sample_view(prev, disk, prev.0, prev.1) {
            EventView::DiskProgress { read_bytes_per_sec, write_bytes_per_sec, .. } =>
                read_bytes_per_sec == 0 && write_bytes_per_sec == 0,
            _ => false,
        },
        match disk_sample_view(prev, disk, read, written) {
            EventView::DiskProgress { total_disk_space, used_disk_space, .. } =>
                used_disk_space <= total_disk_space,
            _ => false,
        },
{
}

} // verus!
