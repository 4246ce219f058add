use system_overview::dashboard::{
    brand_name, Action, App, ChartColor, Event, GpuBrand, GpuMemory, Key, Series, Tab,
};

fn press(app: &mut App, key: Key) -> Action {
    app.handle_event(Event::Input { key, press: true })
}

fn disk(read: u64, write: u64) -> Event {
    Event::DiskProgress {
        disk_name: "sda".to_string(),
        total_disk_space: 1000,
        available_disk_space: 400,
        used_disk_space: 600,
        read_bytes_per_sec: read,
        write_bytes_per_sec: write,
    }
}

#[test]
fn new_app_starts_on_resources() {
    let app = App::new();
    assert!(!app.exit());
    assert_eq!(app.chart_color(), ChartColor::Green);
    assert_eq!(app.current_tab(), Tab::Resources);
    assert!(!app.gpu_not_available());
    for s in [Series::Cpu, Series::Ram, Series::Gpu, Series::Disk] {
        assert_eq!(app.current(s), 0);
        assert!(app.chart(s).is_empty());
    }
    assert_eq!(app.error_lines(), vec!["• Running smooth".to_string()]);
}

#[test]
fn quit_keys_set_exit() {
    let mut a = App::new();
    assert_eq!(press(&mut a, Key::Char('q')), Action::Redraw);
    assert!(a.exit());
    let mut b = App::new();
    press(&mut b, Key::Esc);
    assert!(b.exit());
}

#[test]
fn exit_stays_set() {
    let mut a = App::new();
    press(&mut a, Key::Esc);
    press(&mut a, Key::Char('c'));
    a.handle_event(Event::CpuProgress(3));
    assert!(a.exit());
}

#[test]
fn color_toggles_and_back() {
    let mut a = App::new();
    press(&mut a, Key::Char('c'));
    assert_eq!(a.chart_color(), ChartColor::Yellow);
    press(&mut a, Key::Char('c'));
    assert_eq!(a.chart_color(), ChartColor::Green);
}

#[test]
fn tabs_cycle_right() {
    let mut a = App::new();
    press(&mut a, Key::Right);
    assert_eq!(a.current_tab(), Tab::Containers);
    press(&mut a, Key::Char('l'));
    assert_eq!(a.current_tab(), Tab::Network);
    press(&mut a, Key::Right);
    assert_eq!(a.current_tab(), Tab::Resources);
}

#[test]
fn tabs_cycle_left() {
    let mut a = App::new();
    press(&mut a, Key::Left);
    assert_eq!(a.current_tab(), Tab::Network);
    press(&mut a, Key::Char('h'));
    assert_eq!(a.current_tab(), Tab::Containers);
}

#[test]
fn tab_round_trip() {
    let mut a = App::new();
    press(&mut a, Key::Right);
    press(&mut a, Key::Left);
    assert_eq!(a.current_tab(), Tab::Resources);
}

#[test]
fn released_and_other_keys_do_nothing() {
    let mut a = App::new();
    a.handle_event(Event::Input { key: Key::Char('q'), press: false });
    assert!(!a.exit());
    press(&mut a, Key::Char('x'));
    press(&mut a, Key::Other);
    assert!(!a.exit());
    assert_eq!(a.current_tab(), Tab::Resources);
    assert_eq!(a.chart_color(), ChartColor::Green);
}

#[test]
fn cpu_chart_keeps_sixty_newest() {
    let mut a = App::new();
    for i in 0..75u64 {
        a.handle_event(Event::CpuProgress(i));
    }
    let pts = a.chart(Series::Cpu);
    assert_eq!(pts.len(), 60);
    assert_eq!(pts[0], (0, 15));
    assert_eq!(pts[59], (59, 74));
    assert_eq!(a.current(Series::Cpu), 74);
}

#[test]
fn ram_sample_shown() {
    let mut a = App::new();
    a.handle_event(Event::RamProgress(12));
    assert_eq!(a.current(Series::Ram), 12);
    assert_eq!(a.chart(Series::Ram), vec![(59, 12)]);
}

#[test]
fn gpu_sample_updates_chart() {
    let mut a = App::new();
    let act = a.handle_event(Event::GpuProgress {
        utilization: 87,
        brand: GpuBrand::GeForce,
        fan_speed: 40,
        power_limit: 250_000,
        memory_info: GpuMemory { free: 1, total: 3, used: 2 },
    });
    assert_eq!(act, Action::Redraw);
    assert_eq!(a.current(Series::Gpu), 87);
}

#[test]
fn gpu_not_available_keeps_flag() {
    let mut a = App::new();
    a.handle_event(Event::GpuNotAvailable(true));
    assert!(!a.gpu_not_available());
}

#[test]
fn brand_names() {
    assert_eq!(brand_name(GpuBrand::Nvidia), "NVIDIA");
    assert_eq!(brand_name(GpuBrand::GeForce), "GeForce");
    assert_eq!(brand_name(GpuBrand::Tesla), "Tesla");
    assert_eq!(brand_name(GpuBrand::Quadro), "Quadro");
    assert_eq!(brand_name(GpuBrand::Other), "Unknown GPU");
}

#[test]
fn disk_sample_asks_for_scaling() {
    let mut a = App::new();
    assert_eq!(a.handle_event(disk(100, 50)), Action::ScaleDisk { throughput: 150, scale: 150 });
    assert_eq!(a.handle_event(disk(10, 20)), Action::ScaleDisk { throughput: 30, scale: 150 });
    assert_eq!(a.handle_event(disk(300, 0)), Action::ScaleDisk { throughput: 300, scale: 300 });
}

#[test]
fn idle_disk_scales_by_one() {
    let mut a = App::new();
    assert_eq!(a.handle_event(disk(0, 0)), Action::ScaleDisk { throughput: 0, scale: 1 });
}

#[test]
fn disk_percent_goes_to_chart() {
    let mut a = App::new();
    a.push_disk_percent(42);
    assert_eq!(a.current(Series::Disk), 42);
    for _ in 0..70 {
        a.push_disk_percent(1);
    }
    assert_eq!(a.chart(Series::Disk).len(), 60);
}

#[test]
fn errors_are_bulleted() {
    let mut a = App::new();
    a.handle_event(Event::Error("boom".to_string()));
    a.handle_event(Event::Error("bang".to_string()));
    assert_eq!(a.error_lines(), vec!["• boom".to_string(), "• bang".to_string()]);
}

#[test]
fn repeated_error_is_logged_once() {
    let mut a = App::new();
    a.handle_event(Event::Error("boom".to_string()));
    a.handle_event(Event::Error("boom".to_string()));
    assert_eq!(a.error_lines(), vec!["• boom".to_string()]);
}

#[test]
fn error_log_keeps_ten_newest() {
    let mut a = App::new();
    for i in 0..12 {
        a.handle_event(Event::Error(format!("e{}", i)));
    }
    let lines = a.error_lines();
    assert_eq!(lines.len(), 10);
    assert_eq!(lines[0], "• e2");
    assert_eq!(lines[9], "• e11");
}

#[test]
fn gpu_sample_fields_are_kept() {
    let mut a = App::new();
    let mem = GpuMemory { free: 4, total: 8, used: 4 };
    a.handle_event(Event::GpuProgress {
        utilization: 10,
        brand: GpuBrand::Quadro,
        fan_speed: 33,
        power_limit: 250_999,
        memory_info: mem,
    });
    assert_eq!(a.gpu_brand(), "Quadro");
    assert_eq!(a.fan_speed(), 33);
    assert_eq!(a.power_limit(), 250);
    assert_eq!(a.memory_info(), Some(mem));
}

#[test]
fn disk_sample_fields_are_kept() {
    let mut a = App::new();
    a.handle_event(disk(5, 6));
    assert_eq!(a.disk_name(), "sda");
    assert_eq!(a.disk_space(), (1000, 400));
    assert_eq!(a.disk_max_bytes_per_sec(), 11);
    a.handle_event(disk(1, 1));
    assert_eq!(a.disk_max_bytes_per_sec(), 11);
}

#[test]
fn new_app_is_valid() {
    let a = App::new();
    a.lemma_valid();
}

#[test]
fn disk_scale_never_below_throughput() {
    let mut a = App::new();
    for (r, w) in [(0, 0), (7, 3), (2, 2), (50, 60), (1, 0)] {
        match a.handle_event(disk(r, w)) {
            Action::ScaleDisk { throughput, scale } => {
                assert_eq!(throughput, r + w);
                assert!(throughput <= scale && scale >= 1);
                assert_eq!(scale, a.disk_max_bytes_per_sec().max(1));
            }
            Action::Redraw => panic!("expected a scaling request"),
        }
    }
}
