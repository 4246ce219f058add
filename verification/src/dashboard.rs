//! The monitor's state and how each event changes it.
use std::collections::VecDeque;
use vstd::prelude::*;
use crate::history::{keep_last, push_bounded, latest, latest_of, chart_points, chart_points_of, CHART_HISTORY_LEN};

verus! {

/// Number of distinct error messages that the error panel keeps.
pub const ERROR_LOG_LEN: usize = 10;

/// A key of the keyboard, as far as the monitor tells keys apart.
#[derive(Clone, Copy, Debug, PartialEq, Eq, Structural)]
pub enum Key {
    Char(char),
    Esc,
    Left,
    Right,
    Other,
}

/// The colour of the progress charts, toggled with `c`.
#[derive(Clone, Copy, Debug, PartialEq, Eq, Structural)]
pub enum ChartColor {
    Green,
    Yellow,
}

/// The three tabs of the monitor.
#[derive(Clone, Copy, Debug, PartialEq, Eq, Structural)]
pub enum Tab {
    Resources,
    Containers,
    Network,
}

/// The GPU brands that the monitor names; every other brand is `Other`.
#[derive(Clone, Copy, Debug, PartialEq, Eq, Structural)]
pub enum GpuBrand {
    Nvidia,
    GeForce,
    Tesla,
    Quadro,
    Other,
}

/// Memory of a GPU, in bytes.
#[derive(Clone, Copy, Debug, PartialEq, Eq, Structural)]
pub struct GpuMemory {
    pub free: u64,
    pub total: u64,
    pub used: u64,
}

/// The four charts of the resources tab.
#[derive(Clone, Copy, Debug, PartialEq, Eq, Structural)]
pub enum Series {
    Cpu,
    Ram,
    Gpu,
    Disk,
}

/// What the monitor is told: a key, a new sample of a resource, or an error.
#[derive(Debug)]
pub enum Event {
    /// A key event; `press` is false for a release or a repeat.
    Input { key: Key, press: bool },
    /// CPU load in percent.
    CpuProgress(u64),
    /// Used RAM in whole gigabytes.
    RamProgress(u64),
    /// A GPU sample; `power_limit` is in milliwatts.
    GpuProgress {
        utilization: u32,
        brand: GpuBrand,
        fan_speed: u32,
        power_limit: u32,
        memory_info: GpuMemory,
    },
    GpuNotAvailable(bool),
    /// A disk sample; the rates are in bytes per second.
    DiskProgress {
        disk_name: String,
        total_disk_space: u64,
        available_disk_space: u64,
        used_disk_space: u64,
        read_bytes_per_sec: u64,
        write_bytes_per_sec: u64,
    },
    Error(String),
}

/// An event with its strings taken as sequences of characters.
pub enum EventView {
    Input { key: Key, press: bool },
    CpuProgress(u64),
    RamProgress(u64),
    GpuProgress {
        utilization: u32,
        brand: GpuBrand,
        fan_speed: u32,
        power_limit: u32,
        memory_info: GpuMemory,
    },
    GpuNotAvailable(bool),
    DiskProgress {
        disk_name: Seq<char>,
        total_disk_space: u64,
        available_disk_space: u64,
        used_disk_space: u64,
        read_bytes_per_sec: u64,
        write_bytes_per_sec: u64,
    },
    Error(Seq<char>),
}

impl View for Event {
    type V = EventView;

    open spec fn view(&self) -> EventView {
        match self {
            Event::Input { key, press } => EventView::Input { key: *key, press: *press },
            Event::CpuProgress(p) => EventView::CpuProgress(*p),
            Event::RamProgress(p) => EventView::RamProgress(*p),
            Event::GpuProgress { utilization, brand, fan_speed, power_limit, memory_info } =>
                EventView::GpuProgress {
                    utilization: *utilization,
                    brand: *brand,
                    fan_speed: *fan_speed,
                    power_limit: *power_limit,
                    memory_info: *memory_info,
                },
            Event::GpuNotAvailable(b) => EventView::GpuNotAvailable(*b),
            Event::DiskProgress {
                disk_name,
                total_disk_space,
                available_disk_space,
                used_disk_space,
                read_bytes_per_sec,
                write_bytes_per_sec,
            } => EventView::DiskProgress {
                disk_name: disk_name@,
                total_disk_space: *total_disk_space,
                available_disk_space: *available_disk_space,
                used_disk_space: *used_disk_space,
                read_bytes_per_sec: *read_bytes_per_sec,
                write_bytes_per_sec: *write_bytes_per_sec,
            },
            Event::Error(msg) => EventView::Error(msg@),
        }
    }
}

/// What the caller does after an event: redraw, or first work out the disk
/// activity as the percentage `throughput / scale` and hand it back with
/// `App::push_disk_percent`.
#[derive(Clone, Copy, Debug, PartialEq, Eq, Structural)]
pub enum Action {
    Redraw,
    ScaleDisk { throughput: u64, scale: u64 },
}

/// The monitor's state.
pub struct App {
    exit: bool,
    progress_bar_color: ChartColor,
    tab_selection: i16,
    cpu_history: VecDeque<u64>,
    ram_history: VecDeque<u64>,
    gpu_history: VecDeque<u64>,
    gpu_brand: String,
    fan_speed: u32,
    power_limit: u32,
    memory_info: Option<GpuMemory>,
    gpu_not_available: bool,
    disk_history: VecDeque<u64>,
    disk_name: String,
    total_disk_space: u64,
    available_disk_space: u64,
    disk_max_bytes_per_sec: u64,
    errors: VecDeque<String>,
}

/// The monitor's state as mathematical values.
pub struct AppView {
    pub exit: bool,
    pub color: ChartColor,
    pub tab: int,
    pub cpu: Seq<u64>,
    pub ram: Seq<u64>,
    pub gpu: Seq<u64>,
    pub gpu_brand: Seq<char>,
    pub fan_speed: u32,
    pub power_limit: u32,
    pub memory_info: Option<GpuMemory>,
    pub gpu_not_available: bool,
    pub disk: Seq<u64>,
    pub disk_name: Seq<char>,
    pub total_disk_space: u64,
    pub available_disk_space: u64,
    pub disk_max: u64,
    pub errors: Seq<Seq<char>>,
}

/// The strings of a sequence, each as a sequence of characters.
pub open spec fn strings_view(s: Seq<String>) -> Seq<Seq<char>> {
    s.map_values(|x: String| x@)
}

impl View for App {
    type V = AppView;

    closed spec fn view(&self) -> AppView {
        AppView {
            exit: self.exit,
            color: self.progress_bar_color,
            tab: self.tab_selection as int,
            cpu: self.cpu_history@,
            ram: self.ram_history@,
            gpu: self.gpu_history@,
            gpu_brand: self.gpu_brand@,
            fan_speed: self.fan_speed,
            power_limit: self.power_limit,
            memory_info: self.memory_info,
            gpu_not_available: self.gpu_not_available,
            disk: self.disk_history@,
            disk_name: self.disk_name@,
            total_disk_space: self.total_disk_space,
            available_disk_space: self.available_disk_space,
            disk_max: self.disk_max_bytes_per_sec,
            errors: strings_view(self.errors@),
        }
    }
}

/// No message occurs twice in `s`.
pub open spec fn distinct(s: Seq<Seq<char>>) -> bool {
    forall|i: int, j: int| 0 <= i < j < s.len() ==> s[i] != s[j]
}

/// What holds of every state of the monitor: a valid tab, charts of at most
/// sixty samples, and an error log of at most ten distinct messages.
pub open spec fn inv(v: AppView) -> bool {
    &&& 0 <= v.tab < 3
    &&& v.cpu.len() <= CHART_HISTORY_LEN
    &&& v.ram.len() <= CHART_HISTORY_LEN
    &&& v.gpu.len() <= CHART_HISTORY_LEN
    &&& v.disk.len() <= CHART_HISTORY_LEN
    &&& v.errors.len() <= ERROR_LOG_LEN
    &&& distinct(v.errors)
}

/// The other chart colour.
pub open spec fn toggled(c: ChartColor) -> ChartColor {
    match c {
        ChartColor::Green => ChartColor::Yellow,
        ChartColor::Yellow => ChartColor::Green,
    }
}

/// The tab to the right, wrapping around.
pub open spec fn next_tab(t: int) -> int {
    (t + 1) % 3
}

/// The tab to the left, wrapping around.
pub open spec fn prev_tab(t: int) -> int {
    (t + 2) % 3
}

/// What a pressed key does: `q` and Esc quit, `c` toggles the chart colour,
/// `l` and Right go to the next tab, `h` and Left to the previous one.
pub open spec fn apply_key(v: AppView, key: Key) -> AppView {
    match key {
        Key::Esc => AppView { exit: true, ..v },
        Key::Right => AppView { tab: next_tab(v.tab), ..v },
        Key::Left => AppView { tab: prev_tab(v.tab), ..v },
        Key::Char(c) => {
            if c == 'q' {
                AppView { exit: true, ..v }
            } else if c == 'c' {
                AppView { color: toggled(v.color), ..v }
            } else if c == 'l' {
                AppView { tab: next_tab(v.tab), ..v }
            } else if c == 'h' {
                AppView { tab: prev_tab(v.tab), ..v }
            } else {
                v
            }
        },
        Key::Other => v,
    }
}

/// The label under which a GPU brand is shown.
pub open spec fn brand_label(b: GpuBrand) -> Seq<char> {
    match b {
        GpuBrand::Nvidia => "NVIDIA"@,
        GpuBrand::GeForce => "GeForce"@,
        GpuBrand::Tesla => "Tesla"@,
        GpuBrand::Quadro => "Quadro"@,
        GpuBrand::Other => "Unknown GPU"@,
    }
}

/// The error log after `msg` is reported: a message already in the log
/// leaves it unchanged; a new one is appended, and when the log already held
/// ten messages, the oldest one is dropped first.
pub open spec fn logged(errors: Seq<Seq<char>>, msg: Seq<char>) -> Seq<Seq<char>> {
    if errors.contains(msg) {
        errors
    } else if errors.len() >= ERROR_LOG_LEN {
        errors.drop_first().push(msg)
    } else {
        errors.push(msg)
    }
}

/// The larger of two numbers.
pub open spec fn max_u64(a: u64, b: u64) -> u64 {
    if a >= b { a } else { b }
}

/// An event that the monitor can take: the two disk rates of a disk sample
/// add up to a number that fits in 64 bits.
pub open spec fn event_ok(e: EventView) -> bool {
    match e {
        EventView::DiskProgress { read_bytes_per_sec, write_bytes_per_sec, .. } =>
            read_bytes_per_sec + write_bytes_per_sec <= u64::MAX,
        _ => true,
    }
}

/// The state after an event (a disk sample updates the disk figures; its
/// activity percentage reaches the disk chart through `push_disk_percent`).
pub open spec fn step(v: AppView, e: EventView) -> AppView {
    match e {
        EventView::Input { key, press } => if press { apply_key(v, key) } else { v },
        EventView::CpuProgress(p) => AppView { cpu: keep_last(v.cpu.push(p), CHART_HISTORY_LEN as nat), ..v },
        EventView::RamProgress(p) => AppView { ram: keep_last(v.ram.push(p), CHART_HISTORY_LEN as nat), ..v },
        EventView::GpuProgress { utilization, brand, fan_speed, power_limit, memory_info } => AppView {
            gpu: keep_last(v.gpu.push(utilization as u64), CHART_HISTORY_LEN as nat),
            fan_speed: fan_speed,
            power_limit: (power_limit / 1000) as u32,
            memory_info: Some(memory_info),
            gpu_brand: brand_label(brand),
            ..v
        },
        EventView::GpuNotAvailable(_) => v,
        EventView::DiskProgress {
            disk_name,
            total_disk_space,
            available_disk_space,
            read_bytes_per_sec,
            write_bytes_per_sec,
            ..
        } => AppView {
            disk_max: max_u64(v.disk_max, (read_bytes_per_sec + write_bytes_per_sec) as u64),
            disk_name: disk_name,
            total_disk_space: total_disk_space,
            available_disk_space: available_disk_space,
            ..v
        },
        EventView::Error(msg) => AppView { errors: logged(v.errors, msg), ..v },
    }
}

/// What the caller does after an event: for a disk sample, scale its total
/// throughput against the largest throughput seen so far (at least 1).
pub open spec fn step_action(v: AppView, e: EventView) -> Action {
    match e {
        EventView::DiskProgress { read_bytes_per_sec, write_bytes_per_sec, .. } => {
            let throughput = (read_bytes_per_sec + write_bytes_per_sec) as u64;
            Action::ScaleDisk { throughput, scale: max_u64(max_u64(v.disk_max, throughput), 1) }
        },
        _ => Action::Redraw,
    }
}

/// The state after the disk chart receives a percentage.
pub open spec fn with_disk_percent(v: AppView, percent: u64) -> AppView {
    AppView { disk: keep_last(v.disk.push(percent), CHART_HISTORY_LEN as nat), ..v }
}

/// One round of the event loop: the state after the event and, for a disk
/// sample, after the disk chart receives `percent`.
pub open spec fn loop_step(v: AppView, e: EventView, percent: u64) -> AppView {
    match step_action(v, e) {
        Action::ScaleDisk { .. } => with_disk_percent(step(v, e), percent),
        Action::Redraw => step(v, e),
    }
}

/// The state after the event loop took `rounds` in order, each an event
/// and the disk percentage handed back for it.
pub open spec fn run_events(v: AppView, rounds: Seq<(EventView, u64)>) -> AppView
    decreases rounds.len(),
{
    if rounds.len() == 0 {
        v
    } else {
        loop_step(run_events(v, rounds.drop_last()), rounds.last().0, rounds.last().1)
    }
}

/// The history behind a chart.
pub open spec fn series_of(v: AppView, s: Series) -> Seq<u64> {
    match s {
        Series::Cpu => v.cpu,
        Series::Ram => v.ram,
        Series::Gpu => v.gpu,
        Series::Disk => v.disk,
    }
}

/// The tab shown for a tab number.
pub open spec fn tab_of(t: int) -> Tab {
    if t == 0 {
        Tab::Resources
    } else if t == 1 {
        Tab::Containers
    } else {
        Tab::Network
    }
}

/// The lines of the error panel.
pub open spec fn error_lines_of(errors: Seq<Seq<char>>) -> Seq<Seq<char>> {
    if errors.len() == 0 {
        seq!["• Running smooth"@]
    } else {
        errors.map_values(|e: Seq<char>| "• "@ + e)
    }
}

/// The state of a freshly started monitor.
pub open spec fn initial() -> AppView {
    AppView {
        exit: false,
        color: ChartColor::Green,
        tab: 0,
        cpu: Seq::empty(),
        ram: Seq::empty(),
        gpu: Seq::empty(),
        gpu_brand: Seq::empty(),
        fan_speed: 0,
        power_limit: 0,
        memory_info: None,
        gpu_not_available: false,
        disk: Seq::empty(),
        disk_name: Seq::empty(),
        total_disk_space: 0,
        available_disk_space: 0,
        disk_max: 0,
        errors: Seq::empty(),
    }
}

/// Returns the label under which a GPU brand is shown.
pub fn brand_name(brand: GpuBrand) -> (name: String)
    ensures
        name@ == brand_label(brand),
{
    match brand {
        GpuBrand::Nvidia => String::from_str("NVIDIA"),
        GpuBrand::GeForce => String::from_str("GeForce"),
        GpuBrand::Tesla => String::from_str("Tesla"),
        GpuBrand::Quadro => String::from_str("Quadro"),
        GpuBrand::Other => String::from_str("Unknown GPU"),
    }
}

/// Reports `msg` to the error log (see `logged`).
fn log_error(errors: &mut VecDeque<String>, msg: String)
    ensures
        strings_view(final(errors)@) == logged(strings_view(old(errors)@), msg@),
{
    let ghost before = strings_view(errors@);
    let mut found = false;
    let mut i: usize = 0;
    while i < errors.len()
        invariant
            before == strings_view(errors@),
            i <= errors@.len(),
            found <==> exists|j: int| 0 <= j < i && before[j] == msg@,
        decreases errors@.len() - i,
    {
        proof {
            assert(before[i as int] == errors@[i as int]@);
        }
        if errors[i] == msg {
            found = true;
        }
        i = i + 1;
        proof {
            if found && !(exists|j: int| 0 <= j < i - 1 && before[j] == msg@) {
                assert(before[i - 1] == msg@);
            }
        }
    }
    proof {
        if before.contains(msg@) {
            let j = choose|j: int| 0 <= j < before.len() && before[j] == msg@;
            assert(found);
        }
    }
    if !found {
        if errors.len() >= ERROR_LOG_LEN {
            errors.pop_front();
        }
        errors.push_back(msg);
    }
    proof {
        if !found {
            if before.len() >= ERROR_LOG_LEN {
                assert(strings_view(errors@) =~= before.drop_first().push(msg@));
            } else {
                assert(strings_view(errors@) =~= before.push(msg@));
            }
        }
    }
}

/// Reporting an error keeps the log within ten distinct messages.
pub proof fn lemma_logged_inv(errors: Seq<Seq<char>>, msg: Seq<char>)
    requires
        errors.len() <= ERROR_LOG_LEN,
        distinct(errors),
    ensures
        logged(errors, msg).len() <= ERROR_LOG_LEN,
        distinct(logged(errors, msg)),
{
    if !errors.contains(msg) {
        let r = logged(errors, msg);
        assert forall|i: int, j: int| 0 <= i < j < r.len() implies r[i] != r[j] by {
            if errors.len() >= ERROR_LOG_LEN {
                if j == r.len() - 1 {
                    assert(r[i] == errors[i + 1]);
                } else {
                    assert(r[i] == errors[i + 1] && r[j] == errors[j + 1]);
                }
            } else {
                if j == r.len() - 1 {
                    assert(r[i] == errors[i]);
                }
            }
        }
    }
}

impl App {
    #[verifier::type_invariant]
    closed spec fn app_inv(self) -> bool {
        inv(self@)
    }

    /// Every monitor satisfies `inv`: a valid tab, charts of at most sixty
    /// samples and at most ten distinct error messages.
    pub fn lemma_valid(&self)
        ensures
            inv(self@),
    {
        proof { use_type_invariant(self); }
    }

    /// A monitor on the resources tab, with green charts and nothing recorded.
    pub fn new() -> (app: Self)
        ensures
            app@ == initial(),
            inv(app@),
    {
        let app = App {
            exit: false,
            progress_bar_color: ChartColor::Green,
            tab_selection: 0,
            cpu_history: VecDeque::new(),
            ram_history: VecDeque::new(),
            gpu_history: VecDeque::new(),
            gpu_brand: String::new(),
            fan_speed: 0,
            power_limit: 0,
            memory_info: None,
            gpu_not_available: false,
            disk_history: VecDeque::new(),
            disk_name: String::new(),
            total_disk_space: 0,
            available_disk_space: 0,
            disk_max_bytes_per_sec: 0,
            errors: VecDeque::new(),
        };
        proof {
            assert(strings_view(app.errors@) =~= Seq::<Seq<char>>::empty());
        }
        app
    }

    /// Handles a pressed key.
    pub fn handle_key_event(&mut self, key: Key)
        ensures
            final(self)@ == apply_key(old(self)@, key),
            inv(final(self)@),
    {
        proof { use_type_invariant(&*self); }
        match key {
            Key::Char('q') | Key::Esc => {
                self.exit = true;
            },
            Key::Char('c') => {
                if self.progress_bar_color == ChartColor::Green {
                    self.progress_bar_color = ChartColor::Yellow;
                } else {
                    self.progress_bar_color = ChartColor::Green;
                }
            },
            Key::Char('l') | Key::Right => {
                self.tab_selection = (self.tab_selection + 1) % 3;
            },
            Key::Char('h') | Key::Left => {
                self.tab_selection = (self.tab_selection + 2) % 3;
            },
            _ => {},
        }
    }
    /// Handles an event and says what the caller does next (see `step` and
    /// `step_action`).
    pub fn handle_event(&mut self, event: Event) -> (action: Action)
        requires
            event_ok(event@),
        ensures
            final(self)@ == step(old(self)@, event@),
            action == step_action(old(self)@, event@),
            inv(final(self)@),
    {
        proof { use_type_invariant(&*self); }
        let ghost old_errors = strings_view(self.errors@);
        match event {
            Event::Input { key, press } => {
                if press {
                    self.handle_key_event(key);
                }
                Action::Redraw
            },
            Event::CpuProgress(progress) => {
                let mut h = VecDeque::new();
                std::mem::swap(&mut h, &mut self.cpu_history);
                push_bounded(&mut h, progress, CHART_HISTORY_LEN);
                self.cpu_history = h;
                Action::Redraw
            },
            Event::RamProgress(progress) => {
                let mut h = VecDeque::new();
                std::mem::swap(&mut h, &mut self.ram_history);
                push_bounded(&mut h, progress, CHART_HISTORY_LEN);
                self.ram_history = h;
                Action::Redraw
            },
            Event::GpuProgress { utilization, brand, fan_speed, power_limit, memory_info } => {
                let mut h = VecDeque::new();
                std::mem::swap(&mut h, &mut self.gpu_history);
                push_bounded(&mut h, utilization as u64, CHART_HISTORY_LEN);
                self.gpu_history = h;
                self.fan_speed = fan_speed;
                self.power_limit = power_limit / 1000;
                self.memory_info = Some(memory_info);
                self.gpu_brand = brand_name(brand);
                Action::Redraw
            },
            Event::GpuNotAvailable(_) => {
                if self.gpu_not_available == true {
                    self.gpu_not_available = true;
                } else {
                    self.gpu_not_available = false;
                }
                Action::Redraw
            },
            Event::DiskProgress {
                disk_name,
                total_disk_space,
                available_disk_space,
                used_disk_space: _,
                read_bytes_per_sec,
                write_bytes_per_sec,
            } => {
                let total_bytes_per_sec = read_bytes_per_sec + write_bytes_per_sec;
                if total_bytes_per_sec > self.disk_max_bytes_per_sec {
                    self.disk_max_bytes_per_sec = total_bytes_per_sec;
                }
                let scale = if self.disk_max_bytes_per_sec >= 1 { self.disk_max_bytes_per_sec } else { 1 };
                self.disk_name = disk_name;
                self.total_disk_space = total_disk_space;
                self.available_disk_space = available_disk_space;
                Action::ScaleDisk { throughput: total_bytes_per_sec, scale }
            },
            Event::Error(error) => {
                proof { lemma_logged_inv(old_errors, error@); }
                let mut errors = VecDeque::new();
                std::mem::swap(&mut errors, &mut self.errors);
                log_error(&mut errors, error);
                self.errors = errors;
                Action::Redraw
            },
        }
    }

    /// Appends the disk activity percentage that the caller worked out after
    /// `Action::ScaleDisk` to the disk chart.
    pub fn push_disk_percent(&mut self, percent: u64)
        ensures
            final(self)@ == with_disk_percent(old(self)@, percent),
            inv(final(self)@),
    {
        proof { use_type_invariant(&*self); }
        let mut h = VecDeque::new();
        std::mem::swap(&mut h, &mut self.disk_history);
        push_bounded(&mut h, percent, CHART_HISTORY_LEN);
        self.disk_history = h;
    }
    /// The history behind a chart.
    fn history(&self, series: Series) -> (h: &VecDeque<u64>)
        ensures
            h@ == series_of(self@, series),
    {
        match series {
            Series::Cpu => &self.cpu_history,
            Series::Ram => &self.ram_history,
            Series::Gpu => &self.gpu_history,
            Series::Disk => &self.disk_history,
        }
    }

    /// The newest sample of a chart, or 0 when it has none.
    pub fn current(&self, series: Series) -> (r: u64)
        ensures
            r == latest_of(series_of(self@, series)),
    {
        latest(self.history(series))
    }

    /// The points of a chart (see `chart_points_of`).
    pub fn chart(&self, series: Series) -> (points: Vec<(u64, u64)>)
        ensures
            points@ == chart_points_of(series_of(self@, series)),
    {
        proof { use_type_invariant(self); }
        chart_points(self.history(series))
    }

    /// The tab on show.
    pub fn current_tab(&self) -> (t: Tab)
        ensures
            t == tab_of(self@.tab),
    {
        proof { use_type_invariant(self); }
        if self.tab_selection == 0 {
            Tab::Resources
        } else if self.tab_selection == 1 {
            Tab::Containers
        } else {
            Tab::Network
        }
    }

    /// The lines of the error panel: one bulleted line per message, or a
    /// single line saying that all runs smoothly.
    pub fn error_lines(&self) -> (lines: Vec<String>)
        ensures
            strings_view(lines@) == error_lines_of(self@.errors),
    {
        let mut lines: Vec<String> = Vec::new();
        let n = self.errors.len();
        if n == 0 {
            lines.push(String::from_str("• Running smooth"));
            proof {
                assert(strings_view(lines@) =~= error_lines_of(self@.errors));
            }
            return lines;
        }
        let ghost target = error_lines_of(self@.errors);
        let mut i: usize = 0;
        while i < n
            invariant
                n == self.errors@.len(),
                n > 0,
                target == error_lines_of(self@.errors),
                i <= n,
                strings_view(lines@) == target.take(i as int),
            decreases n - i,
        {
            let line = String::from_str("• ").concat(self.errors[i].as_str());
            proof {
                assert(self@.errors[i as int] == self.errors@[i as int]@);
                assert(target[i as int] == "• "@ + self@.errors[i as int]);
                assert(line@ == target[i as int]);
            }
            let ghost before = lines@;
            lines.push(line);
            i = i + 1;
            proof {
                assert(strings_view(lines@) =~= strings_view(before).push(target[i - 1]));
                assert(strings_view(lines@) =~= target.take(i as int));
            }
        }
        proof {
            assert(strings_view(lines@) =~= target);
        }
        lines
    }

    /// Whether a quit key was pressed.
    pub fn exit(&self) -> (r: bool)
        ensures
            r == self@.exit,
    {
        self.exit
    }

    /// The colour of the charts.
    pub fn chart_color(&self) -> (r: ChartColor)
        ensures
            r == self@.color,
    {
        self.progress_bar_color
    }

    /// Whether the GPU chart gives way to the logo.
    pub fn gpu_not_available(&self) -> (r: bool)
        ensures
            r == self@.gpu_not_available,
    {
        self.gpu_not_available
    }
    /// The label of the GPU's brand (empty before the first GPU sample).
    pub fn gpu_brand(&self) -> (r: &String)
        ensures
            r@ == self@.gpu_brand,
    {
        &self.gpu_brand
    }

    /// The GPU's fan speed of the last GPU sample.
    pub fn fan_speed(&self) -> (r: u32)
        ensures
            r == self@.fan_speed,
    {
        self.fan_speed
    }

    /// The GPU's power limit of the last GPU sample, in watts.
    pub fn power_limit(&self) -> (r: u32)
        ensures
            r == self@.power_limit,
    {
        self.power_limit
    }

    /// The GPU memory of the last GPU sample.
    pub fn memory_info(&self) -> (r: Option<GpuMemory>)
        ensures
            r == self@.memory_info,
    {
        self.memory_info
    }

    /// The name of the disk of the last disk sample.
    pub fn disk_name(&self) -> (r: &String)
        ensures
            r@ == self@.disk_name,
    {
        &self.disk_name
    }

    /// The total and available space of the disk of the last disk sample.
    pub fn disk_space(&self) -> (r: (u64, u64))
        ensures
            r == (self@.total_disk_space, self@.available_disk_space),
    {
        (self.total_disk_space, self.available_disk_space)
    }

    /// The largest disk throughput seen so far, in bytes per second.
    pub fn disk_max_bytes_per_sec(&self) -> (r: u64)
        ensures
            r == self@.disk_max,
    {
        self.disk_max_bytes_per_sec
    }
}

} // verus!
