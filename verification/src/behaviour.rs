//! What each operation of the monitor does, stated over its inputs and
//! results.
use vstd::prelude::*;
use crate::history::{pushed_short, latest_of, chart_points_of};
use crate::monitor::{
    disk_sample_view, gpu_sample_view, setup_prefix, total_read, total_written, GpuSetupFailure, ProcessIo,
};
use crate::dashboard::{
    AppView, ChartColor, EventView, GpuBrand, GpuMemory, Key, Tab, step, with_disk_percent,
    apply_key, logged, brand_label, tab_of, error_lines_of,
};

verus! {

/// A chart keeps sixty samples: a sample reaching a CPU, RAM, GPU or disk
/// chart of fewer than sixty samples is appended and none is dropped; one
/// reaching a chart of sixty drops the oldest. Nothing else changes.
pub proof fn lemma_chart_keeps_sixty(
    v: AppView,
    p: u64,
    u: u32,
    brand: GpuBrand,
    fan_speed: u32,
    power_limit: u32,
    memory_info: GpuMemory,
)
    ensures
        v.cpu.len() < 60 ==> step(v, EventView::CpuProgress(p)).cpu == v.cpu.push(p),
        v.cpu.len() == 60 ==> step(v, EventView::CpuProgress(p)).cpu == v.cpu.drop_first().push(p),
        (AppView { cpu: v.cpu, ..step(v, EventView::CpuProgress(p)) }) == v,
        v.ram.len() < 60 ==> step(v, EventView::RamProgress(p)).ram == v.ram.push(p),
        v.ram.len() == 60 ==> step(v, EventView::RamProgress(p)).ram == v.ram.drop_first().push(p),
        (AppView { ram: v.ram, ..step(v, EventView::RamProgress(p)) }) == v,
        v.gpu.len() < 60 ==> step(v, (EventView::GpuProgress { utilization: u, brand, fan_speed, power_limit, memory_info })).gpu
            == v.gpu.push(u as u64),
        v.gpu.len() == 60 ==> step(v, (EventView::GpuProgress { utilization: u, brand, fan_speed, power_limit, memory_info })).gpu
            == v.gpu.drop_first().push(u as u64),
        v.disk.len() < 60 ==> with_disk_percent(v, p).disk == v.disk.push(p),
        v.disk.len() == 60 ==> with_disk_percent(v, p).disk == v.disk.drop_first().push(p),
        (AppView { disk: v.disk, ..with_disk_percent(v, p) }) == v,
{
    if v.cpu.len() == 60 {
        assert(v.cpu.push(p).subrange(1, 61) =~= v.cpu.drop_first().push(p));
    }
    if v.ram.len() == 60 {
        assert(v.ram.push(p).subrange(1, 61) =~= v.ram.drop_first().push(p));
    }
    if v.gpu.len() == 60 {
        assert(v.gpu.push(u as u64).subrange(1, 61) =~= v.gpu.drop_first().push(u as u64));
    }
    if v.disk.len() == 60 {
        assert(v.disk.push(p).subrange(1, 61) =~= v.disk.drop_first().push(p));
    }
}

/// A GPU sample keeps its fan speed and memory, its power limit in whole
/// watts (the milliwatts divided by 1000, rounded down) and its brand's
/// label; the rest of the state stays, but for the GPU chart.
pub proof fn lemma_gpu_sample_kept(
    v: AppView,
    u: u32,
    brand: GpuBrand,
    fan_speed: u32,
    power_limit: u32,
    memory_info: GpuMemory,
)
    ensures ({
        let w = step(v, (EventView::GpuProgress { utilization: u, brand, fan_speed, power_limit, memory_info }));
        &&& w.fan_speed == fan_speed
        &&& w.memory_info == Some(memory_info)
        &&& w.power_limit * 1000 <= power_limit < (w.power_limit + 1) * 1000
        &&& w.gpu_brand == brand_label(brand)
        &&& AppView { gpu: v.gpu, fan_speed: v.fan_speed, memory_info: v.memory_info, power_limit: v.power_limit, gpu_brand: v.gpu_brand, ..w } == v
    }),
{
}

/// The labels of the GPU brands.
pub proof fn lemma_brand_labels()
    ensures
        brand_label(GpuBrand::Nvidia) == "NVIDIA"@,
        brand_label(GpuBrand::GeForce) == "GeForce"@,
        brand_label(GpuBrand::Tesla) == "Tesla"@,
        brand_label(GpuBrand::Quadro) == "Quadro"@,
        brand_label(GpuBrand::Other) == "Unknown GPU"@,
{
}

/// A disk sample raises the largest throughput seen to its read plus write
/// rate when that is larger, keeps the disk's name and space, and changes
/// nothing else.
pub proof fn lemma_disk_sample_kept(
    v: AppView,
    name: Seq<char>,
    total: u64,
    available: u64,
    used: u64,
    read: u64,
    write: u64,
)
    requires
        read + write <= u64::MAX,
    ensures ({
        let w = step(v, EventView::DiskProgress {
            disk_name: name,
            total_disk_space: total,
            available_disk_space: available,
            used_disk_space: used,
            read_bytes_per_sec: read,
            write_bytes_per_sec: write,
        });
        &&& w.disk_max >= v.disk_max
        &&& w.disk_max >= read + write
        &&& (w.disk_max == v.disk_max || w.disk_max == read + write)
        &&& w.disk_name == name
        &&& w.total_disk_space == total
        &&& w.available_disk_space == available
        &&& AppView { disk_max: v.disk_max, disk_name: v.disk_name, total_disk_space: v.total_disk_space,
                available_disk_space: v.available_disk_space, ..w } == v
    }),
{
}

/// Logging a message: one already in the log changes nothing; a new one
/// goes last, the log then holds min(old length + 1, 10) messages, and the
/// messages before it are the newest of the old log in their order.
pub proof fn lemma_error_log(errors: Seq<Seq<char>>, msg: Seq<char>)
    requires
        errors.len() <= 10,
    ensures
        errors.contains(msg) ==> logged(errors, msg) == errors,
        !errors.contains(msg) ==> {
            let r = logged(errors, msg);
            &&& r.len() == if errors.len() + 1 <= 10 { errors.len() + 1 } else { 10 }
            &&& r.last() == msg
            &&& forall|i: int| 0 <= i < r.len() - 1 ==> r[i] == errors[i + errors.len() + 1 - r.len()]
        },
{
}

/// An error event changes nothing but the error log.
pub proof fn lemma_error_event_only_logs(v: AppView, msg: Seq<char>)
    ensures
        (AppView { errors: v.errors, ..step(v, EventView::Error(msg)) }) == v,
{
}

/// The keys: `q` and Esc set the monitor to quit from any state and change
/// nothing else; `c` switches the chart colour between green and yellow;
/// `l` and Right move to the next tab (the last wraps to the first), `h` and
/// Left to the previous one; any other key changes nothing.
pub proof fn lemma_keys(v: AppView, c: char)
    requires
        0 <= v.tab < 3,
    ensures
        apply_key(v, Key::Char('q')) == (AppView { exit: true, ..v }),
        apply_key(v, Key::Esc) == (AppView { exit: true, ..v }),
        apply_key(v, Key::Char('c')).color != v.color,
        (AppView { color: v.color, ..apply_key(v, Key::Char('c')) }) == v,
        v.color == ChartColor::Green ==> apply_key(v, Key::Char('c')).color == ChartColor::Yellow,
        v.color == ChartColor::Yellow ==> apply_key(v, Key::Char('c')).color == ChartColor::Green,
        apply_key(v, Key::Right) == apply_key(v, Key::Char('l')),
        apply_key(v, Key::Left) == apply_key(v, Key::Char('h')),
        (AppView { tab: v.tab, ..apply_key(v, Key::Right) }) == v,
        (AppView { tab: v.tab, ..apply_key(v, Key::Left) }) == v,
        v.tab == 0 ==> apply_key(v, Key::Right).tab == 1 && apply_key(v, Key::Left).tab == 2,
        v.tab == 1 ==> apply_key(v, Key::Right).tab == 2 && apply_key(v, Key::Left).tab == 0,
        v.tab == 2 ==> apply_key(v, Key::Right).tab == 0 && apply_key(v, Key::Left).tab == 1,
        c != 'q' && c != 'c' && c != 'l' && c != 'h' ==> apply_key(v, Key::Char(c)) == v,
        apply_key(v, Key::Other) == v,
{
}

/// A pressed key acts as the key says; a released or repeated one does
/// nothing.
pub proof fn lemma_key_events(v: AppView, key: Key)
    ensures
        step(v, (EventView::Input { key, press: true })) == apply_key(v, key),
        step(v, (EventView::Input { key, press: false })) == v,
{
}

/// The tab numbers: 0 is Resources, 1 Containers, 2 Network.
pub proof fn lemma_tabs()
    ensures
        tab_of(0) == Tab::Resources,
        tab_of(1) == Tab::Containers,
        tab_of(2) == Tab::Network,
{
}

/// `push_value` appends the value; only when the history then holds more
/// than ten samples is its oldest one dropped.
pub proof fn lemma_push_value(s: Seq<u64>, x: u64)
    ensures
        s.len() < 10 ==> pushed_short(s, x) == s.push(x),
        s.len() >= 10 ==> pushed_short(s, x).len() == s.len()
            && pushed_short(s, x).last() == x
            && forall|i: int| 0 <= i < s.len() - 1 ==> pushed_short(s, x)[i] == s[i + 1],
{
}

/// The newest sample of a chart is its last one, or 0 when it has none.
pub proof fn lemma_latest(s: Seq<u64>, x: u64)
    ensures
        latest_of(Seq::<u64>::empty()) == 0,
        latest_of(s.push(x)) == x,
{
}

/// A chart of n samples has n points; point i holds sample i at x = 60 - n + i.
pub proof fn lemma_chart_points(s: Seq<u64>)
    requires
        s.len() <= 60,
    ensures
        chart_points_of(s).len() == s.len(),
        forall|i: int| 0 <= i < s.len() ==> #[trigger] chart_points_of(s)[i].1 == s[i]
            && chart_points_of(s)[i].0 + s.len() == 60 + i,
{
}

/// The error panel: without errors a single line saying all runs smoothly;
/// otherwise one line per message, the message behind a bullet.
pub proof fn lemma_error_lines(errors: Seq<Seq<char>>)
    ensures
        errors.len() == 0 ==> error_lines_of(errors) == seq!["• Running smooth"@],
        errors.len() > 0 ==> error_lines_of(errors).len() == errors.len()
            && forall|i: int| 0 <= i < errors.len() ==> #[trigger] error_lines_of(errors)[i] == "• "@ + errors[i],
{
}

/// A disk sample: the first disk's name and space (empty and zero without a
/// disk), its used space as total minus available (0 when available
/// exceeds total), the read rate as the growth of the read total alone and
/// the write rate as the growth of the written total alone (0 where a total
/// fell).
pub proof fn lemma_disk_sample(prev: (u64, u64), disk: Option<(Seq<char>, u64, u64)>, read: u64, written: u64)
    ensures ({
        match disk_sample_view(prev, disk, read, written) {
            EventView::DiskProgress {
                disk_name,
                total_disk_space,
                available_disk_space,
                used_disk_space,
                read_bytes_per_sec,
                write_bytes_per_sec,
            } => {
                &&& (read >= prev.0 ==> read_bytes_per_sec == read - prev.0)
                &&& (read < prev.0 ==> read_bytes_per_sec == 0)
                &&& (written >= prev.1 ==> write_bytes_per_sec == written - prev.1)
                &&& (written < prev.1 ==> write_bytes_per_sec == 0)
                &&& (total_disk_space >= available_disk_space ==> used_disk_space + available_disk_space == total_disk_space)
                &&& (total_disk_space < available_disk_space ==> used_disk_space == 0)
                &&& match disk {
                    Some((n, t, a)) => disk_name == n && total_disk_space == t && available_disk_space == a,
                    None => disk_name.len() == 0 && total_disk_space == 0 && available_disk_space == 0,
                }
            },
            _ => false,
        }
    }),
{
}

/// The bytes read and written by all processes add up over any split of the
/// processes, and one process's total is its own count.
pub proof fn lemma_process_totals(s: Seq<ProcessIo>, t: Seq<ProcessIo>, x: ProcessIo)
    ensures
        total_read(seq![x]) == x.read_bytes,
        total_written(seq![x]) == x.written_bytes,
        total_read(s + t) == total_read(s) + total_read(t),
        total_written(s + t) == total_written(s) + total_written(t),
    decreases t.len(),
{
    assert(seq![x].drop_last() =~= Seq::<ProcessIo>::empty());
    assert(total_read(Seq::<ProcessIo>::empty()) == 0);
    assert(total_written(Seq::<ProcessIo>::empty()) == 0);
    assert(seq![x].last() == x);
    if t.len() == 0 {
        assert(s + t =~= s);
    } else {
        lemma_process_totals(s, t.drop_last(), x);
        assert((s + t).drop_last() =~= s + t.drop_last());
    }
}

/// The start of the message when the GPU cannot be reached.
pub proof fn lemma_setup_messages()
    ensures
        setup_prefix(GpuSetupFailure::Init) == "NVML Init Fehler: "@,
        setup_prefix(GpuSetupFailure::Device) == "GPU Device 0 nicht gefunden: "@,
{
}

/// One GPU reading: one error per failed query, in the order utilization,
/// brand, fan speed, power limit, each with its query's message and cause;
/// then, when the memory query succeeded, the GPU sample, whose every field
/// is its own query's value when that query succeeded (0, or an unknown
/// brand, when it failed), whatever the other queries returned; else the
/// memory query's error.
pub proof fn lemma_gpu_sample(
    u: Result<u32, String>,
    b: Result<GpuBrand, String>,
    f: Result<u32, String>,
    p: Result<u32, String>,
    m: Result<GpuMemory, String>,
)
    ensures ({
        let evs = gpu_sample_view(u, b, f, p, m);
        let cu: int = if u is Err { 1 } else { 0 };
        let cb: int = if b is Err { 1 } else { 0 };
        let cf: int = if f is Err { 1 } else { 0 };
        let cp: int = if p is Err { 1 } else { 0 };
        &&& evs.len() == cu + cb + cf + cp + 1
        &&& (u matches Err(e) ==> evs[0] == EventView::Error("GPU Auslastung Fehler: "@ + e@))
        &&& (b matches Err(e) ==> evs[cu] == EventView::Error("GPU Marken Fehler: "@ + e@))
        &&& (f matches Err(e) ==> evs[cu + cb] == EventView::Error("GPU Lüftergeschwindigkeit Fehler: "@ + e@))
        &&& (p matches Err(e) ==> evs[cu + cb + cf] == EventView::Error("GPU Power Limit Fehler: "@ + e@))
        &&& match m {
            Err(e) => evs.last() == EventView::Error("GPU Memory Info Fehler: "@ + e@),
            Ok(mem) => match evs.last() {
                EventView::GpuProgress { utilization, brand, fan_speed, power_limit, memory_info } => {
                    &&& memory_info == mem
                    &&& match u { Ok(x) => utilization == x, Err(_) => utilization == 0 }
                    &&& match b { Ok(x) => brand == x, Err(_) => brand == GpuBrand::Other }
                    &&& match f { Ok(x) => fan_speed == x, Err(_) => fan_speed == 0 }
                    &&& match p { Ok(x) => power_limit == x, Err(_) => power_limit == 0 }
                },
                _ => false,
            },
        }
    }),
{
}

} // verus!
