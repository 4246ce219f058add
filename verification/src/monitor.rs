//! The decisions of the sampling loops: which events a GPU reading or a disk
//! reading turns into.
use vstd::prelude::*;
use crate::dashboard::{Event, EventView, GpuBrand, GpuMemory};

verus! {

/// The event sequences, each event taken by its view.
pub open spec fn events_view(s: Seq<Event>) -> Seq<EventView> {
    s.map_values(|e: Event| e@)
}

/// The step at which the GPU could not be reached.
#[derive(Clone, Copy, Debug, PartialEq, Eq, Structural)]
pub enum GpuSetupFailure {
    /// The NVML library could not be loaded.
    Init,
    /// There is no GPU with index 0.
    Device,
}

/// The start of the message for a failed GPU setup step.
pub open spec fn setup_prefix(stage: GpuSetupFailure) -> Seq<char> {
    match stage {
        GpuSetupFailure::Init => "NVML Init Fehler: "@,
        GpuSetupFailure::Device => "GPU Device 0 nicht gefunden: "@,
    }
}

/// Returns the events sent when the GPU cannot be reached: that no GPU is
/// available, then an error naming the step and the cause `detail`.
pub fn gpu_unavailable_events(stage: GpuSetupFailure, detail: &str) -> (events: Vec<Event>)
    ensures
        events_view(events@) == seq![
            EventView::GpuNotAvailable(true),
            EventView::Error(setup_prefix(stage) + detail@),
        ],
{
    let prefix = match stage {
        GpuSetupFailure::Init => String::from_str("NVML Init Fehler: "),
        GpuSetupFailure::Device => String::from_str("GPU Device 0 nicht gefunden: "),
    };
    let mut events: Vec<Event> = Vec::new();
    events.push(Event::GpuNotAvailable(true));
    events.push(Event::Error(prefix.concat(detail)));
    proof {
        assert(events_view(events@) =~= seq![
            EventView::GpuNotAvailable(true),
            EventView::Error(setup_prefix(stage) + detail@),
        ]);
    }
    events
}

/// The error event for a failed GPU query, or nothing when it succeeded.
pub open spec fn query_error<T>(prefix: Seq<char>, r: Result<T, String>) -> Seq<EventView> {
    match r {
        Ok(_) => Seq::empty(),
        Err(e) => seq![EventView::Error(prefix + e@)],
    }
}

/// A query's value, or `fallback` when it failed.
pub open spec fn or_fallback<T>(r: Result<T, String>, fallback: T) -> T {
    match r {
        Ok(v) => v,
        Err(_) => fallback,
    }
}

/// The events of one GPU reading: an error for each failed query, in the
/// order utilization, brand, fan speed, power limit; then the GPU sample,
/// with 0 (or an unknown brand) for each failed query, when the memory
/// query succeeded, or else an error for the memory query.
pub open spec fn gpu_sample_view(
    utilization: Result<u32, String>,
    brand: Result<GpuBrand, String>,
    fan_speed: Result<u32, String>,
    power_limit: Result<u32, String>,
    memory_info: Result<GpuMemory, String>,
) -> Seq<EventView> {
    query_error("GPU Auslastung Fehler: "@, utilization)
        + query_error("GPU Marken Fehler: "@, brand)
        + query_error("GPU Lüftergeschwindigkeit Fehler: "@, fan_speed)
        + query_error("GPU Power Limit Fehler: "@, power_limit)
        + match memory_info {
            Ok(m) => seq![EventView::GpuProgress {
                utilization: or_fallback(utilization, 0u32),
                brand: or_fallback(brand, GpuBrand::Other),
                fan_speed: or_fallback(fan_speed, 0u32),
                power_limit: or_fallback(power_limit, 0u32),
                memory_info: m,
            }],
            Err(e) => seq![EventView::Error("GPU Memory Info Fehler: "@ + e@)],
        }
}

/// Appends the error event for a failed query to `events`.
fn push_query_error<T>(events: &mut Vec<Event>, prefix: &str, r: &Result<T, String>)
    ensures
        events_view(final(events)@) == events_view(old(events)@) + query_error(prefix@, *r),
{
    let ghost before = events@;
    match r {
        Ok(_) => {},
        Err(e) => {
            events.push(Event::Error(String::from_str(prefix).concat(e.as_str())));
        },
    }
    proof {
        assert(events_view(events@) =~= events_view(before) + query_error(prefix@, *r));
    }
}

/// Returns the events of one GPU reading, given the result of each query
/// (see `gpu_sample_view`).
pub fn gpu_sample_events(
    utilization: Result<u32, String>,
    brand: Result<GpuBrand, String>,
    fan_speed: Result<u32, String>,
    power_limit: Result<u32, String>,
    memory_info: Result<GpuMemory, String>,
) -> (events: Vec<Event>)
    ensures
        events_view(events@) == gpu_sample_view(utilization, brand, fan_speed, power_limit, memory_info),
{
    let mut events: Vec<Event> = Vec::new();
    push_query_error(&mut events, "GPU Auslastung Fehler: ", &utilization);
    push_query_error(&mut events, "GPU Marken Fehler: ", &brand);
    push_query_error(&mut events, "GPU Lüftergeschwindigkeit Fehler: ", &fan_speed);
    push_query_error(&mut events, "GPU Power Limit Fehler: ", &power_limit);
    let ghost before = events@;
    let u = match utilization { Ok(v) => v, Err(_) => 0 };
    let b = match brand { Ok(v) => v, Err(_) => GpuBrand::Other };
    let f = match fan_speed { Ok(v) => v, Err(_) => 0 };
    let p = match power_limit { Ok(v) => v, Err(_) => 0 };
    match memory_info {
        Ok(m) => {
            events.push(Event::GpuProgress { utilization: u, brand: b, fan_speed: f, power_limit: p, memory_info: m });
        },
        Err(e) => {
            events.push(Event::Error(String::from_str("GPU Memory Info Fehler: ").concat(e.as_str())));
        },
    }
    proof {
        assert(events_view(events@) =~= events_view(before) + match memory_info {
            Ok(m) => seq![EventView::GpuProgress {
                utilization: or_fallback(utilization, 0u32),
                brand: or_fallback(brand, GpuBrand::Other),
                fan_speed: or_fallback(fan_speed, 0u32),
                power_limit: or_fallback(power_limit, 0u32),
                memory_info: m,
            }],
            Err(e) => seq![EventView::Error("GPU Memory Info Fehler: "@ + e@)],
        });
    }
    events
}

/// The first disk's name and space, in bytes.
#[derive(Debug)]
pub struct DiskInfo {
    pub name: String,
    pub total_space: u64,
    pub available_space: u64,
}

/// The bytes that one process read and wrote since the previous reading.
#[derive(Clone, Copy, Debug, PartialEq, Eq, Structural)]
pub struct ProcessIo {
    pub read_bytes: u64,
    pub written_bytes: u64,
}

/// The bytes that all processes read.
pub open spec fn total_read(s: Seq<ProcessIo>) -> nat
    decreases s.len(),
{
    if s.len() == 0 {
        0
    } else {
        total_read(s.drop_last()) + s.last().read_bytes as nat
    }
}

/// The bytes that all processes wrote.
pub open spec fn total_written(s: Seq<ProcessIo>) -> nat
    decreases s.len(),
{
    if s.len() == 0 {
        0
    } else {
        total_written(s.drop_last()) + s.last().written_bytes as nat
    }
}

/// A prefix reads and writes no more than the whole.
proof fn lemma_totals_prefix(s: Seq<ProcessIo>, i: int)
    requires
        0 <= i <= s.len(),
    ensures
        total_read(s.take(i)) <= total_read(s),
        total_written(s.take(i)) <= total_written(s),
    decreases s.len() - i,
{
    if i < s.len() {
        lemma_totals_prefix(s, i + 1);
        assert(s.take(i + 1).drop_last() =~= s.take(i));
    } else {
        assert(s.take(i) =~= s);
    }
}

/// `a - b`, or 0 when `b` exceeds `a`.
pub open spec fn sat_sub(a: u64, b: u64) -> u64 {
    if a >= b { (a - b) as u64 } else { 0 }
}

/// The disk sample of a reading: the first disk's name and space (empty and
/// zero when there is no disk), its used space, and the bytes read and
/// written per second as the growth of the process totals since the
/// previous reading (0 where a total fell).
pub open spec fn disk_sample_view(
    prev: (u64, u64),
    disk: Option<(Seq<char>, u64, u64)>,
    read: u64,
    written: u64,
) -> EventView {
    let (name, total, available) = match disk {
        Some(d) => d,
        None => (Seq::<char>::empty(), 0u64, 0u64),
    };
    EventView::DiskProgress {
        disk_name: name,
        total_disk_space: total,
        available_disk_space: available,
        used_disk_space: sat_sub(total, available),
        read_bytes_per_sec: sat_sub(read, prev.0),
        write_bytes_per_sec: sat_sub(written, prev.1),
    }
}

/// The disk as a plain tuple.
pub open spec fn disk_view(disk: Option<DiskInfo>) -> Option<(Seq<char>, u64, u64)> {
    match disk {
        Some(d) => Some((d.name@, d.total_space, d.available_space)),
        None => None,
    }
}

/// The process byte totals of the previous disk reading.
pub struct DiskMeter {
    prev_read_bytes: u64,
    prev_write_bytes: u64,
}

impl View for DiskMeter {
    type V = (u64, u64);

    closed spec fn view(&self) -> (u64, u64) {
        (self.prev_read_bytes, self.prev_write_bytes)
    }
}

impl DiskMeter {
    /// A meter that has seen no reading: both totals are 0.
    pub fn new() -> (m: Self)
        ensures
            m@ == (0u64, 0u64),
    {
        DiskMeter { prev_read_bytes: 0, prev_write_bytes: 0 }
    }

    /// Turns one reading (the first disk, if any, and the bytes that each
    /// process read and wrote) into a disk sample, and keeps the process
    /// totals for the next reading.
    pub fn step(&mut self, disk: Option<DiskInfo>, processes: &Vec<ProcessIo>) -> (event: Event)
        requires
            total_read(processes@) <= u64::MAX,
            total_written(processes@) <= u64::MAX,
        ensures
            event@ == disk_sample_view(
                old(self)@,
                disk_view(disk),
                total_read(processes@) as u64,
                total_written(processes@) as u64,
            ),
            final(self)@ == (total_read(processes@) as u64, total_written(processes@) as u64),
    {
        let (disk_name, total_disk_space, available_disk_space) = match disk {
            Some(d) => (d.name, d.total_space, d.available_space),
            None => (String::new(), 0, 0),
        };
        let used_disk_space = total_disk_space.saturating_sub(available_disk_space);
        let mut total_read_bytes: u64 = 0;
        let mut total_write_bytes: u64 = 0;
        let n = processes.len();
        let mut i: usize = 0;
        while i < n
            invariant
                n == processes@.len(),
                i <= n,
                total_read(processes@) <= u64::MAX,
                total_written(processes@) <= u64::MAX,
                total_read_bytes == total_read(processes@.take(i as int)),
                total_write_bytes == total_written(processes@.take(i as int)),
            decreases n - i,
        {
            proof {
                lemma_totals_prefix(processes@, i + 1);
                assert(processes@.take(i + 1).drop_last() =~= processes@.take(i as int));
            }
            total_read_bytes = total_read_bytes + processes[i].read_bytes;
            total_write_bytes = total_write_bytes + processes[i].written_bytes;
            i = i + 1;
        }
        proof {
            assert(processes@.take(n as int) =~= processes@);
        }
        let read_bytes_per_sec = total_read_bytes.saturating_sub(self.prev_read_bytes);
        let write_bytes_per_sec = total_write_bytes.saturating_sub(self.prev_write_bytes);
        self.prev_read_bytes = total_read_bytes;
        self.prev_write_bytes = total_write_bytes;
        Event::DiskProgress {
            disk_name,
            total_disk_space,
            available_disk_space,
            used_disk_space,
            read_bytes_per_sec,
            write_bytes_per_sec,
        }
    }
}

} // verus!
