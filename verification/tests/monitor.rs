use system_overview::dashboard::{Event, GpuBrand, GpuMemory};
use system_overview::monitor::{
    gpu_sample_events, gpu_unavailable_events, DiskInfo, DiskMeter, GpuSetupFailure, ProcessIo,
};

fn error_text(e: &Event) -> Option<String> {
    match e {
        Event::Error(s) => Some(s.clone()),
        _ => None,
    }
}

#[test]
fn unavailable_gpu_at_init() {
    let evs = gpu_unavailable_events(GpuSetupFailure::Init, "no library");
    assert_eq!(evs.len(), 2);
    assert!(matches!(evs[0], Event::GpuNotAvailable(true)));
    assert_eq!(error_text(&evs[1]).unwrap(), "NVML Init Fehler: no library");
}

#[test]
fn unavailable_gpu_device() {
    let evs = gpu_unavailable_events(GpuSetupFailure::Device, "x");
    assert_eq!(error_text(&evs[1]).unwrap(), "GPU Device 0 nicht gefunden: x");
}

#[test]
fn gpu_reading_all_ok() {
    let mem = GpuMemory { free: 10, total: 30, used: 20 };
    let evs = gpu_sample_events(Ok(55), Ok(GpuBrand::Tesla), Ok(1200), Ok(300000), Ok(mem));
    assert_eq!(evs.len(), 1);
    match &evs[0] {
        Event::GpuProgress { utilization, brand, fan_speed, power_limit, memory_info } => {
            assert_eq!(*utilization, 55);
            assert_eq!(*brand, GpuBrand::Tesla);
            assert_eq!(*fan_speed, 1200);
            assert_eq!(*power_limit, 300000);
            assert_eq!(*memory_info, mem);
        }
        _ => panic!("expected a GPU sample"),
    }
}

#[test]
fn gpu_reading_with_failures_uses_fallbacks() {
    let mem = GpuMemory { free: 1, total: 2, used: 1 };
    let evs = gpu_sample_events(
        Err("u".to_string()),
        Err("b".to_string()),
        Err("f".to_string()),
        Err("p".to_string()),
        Ok(mem),
    );
    assert_eq!(evs.len(), 5);
    assert_eq!(error_text(&evs[0]).unwrap(), "GPU Auslastung Fehler: u");
    assert_eq!(error_text(&evs[1]).unwrap(), "GPU Marken Fehler: b");
    assert_eq!(error_text(&evs[2]).unwrap(), "GPU Lüftergeschwindigkeit Fehler: f");
    assert_eq!(error_text(&evs[3]).unwrap(), "GPU Power Limit Fehler: p");
    match &evs[4] {
        Event::GpuProgress { utilization, brand, fan_speed, power_limit, .. } => {
            assert_eq!((*utilization, *brand, *fan_speed, *power_limit), (0, GpuBrand::Other, 0, 0));
        }
        _ => panic!("expected a GPU sample"),
    }
}

#[test]
fn gpu_reading_without_memory_sends_no_sample() {
    let evs = gpu_sample_events(Ok(1), Ok(GpuBrand::Nvidia), Ok(2), Err("p".to_string()), Err("m".to_string()));
    assert_eq!(evs.len(), 2);
    assert_eq!(error_text(&evs[0]).unwrap(), "GPU Power Limit Fehler: p");
    assert_eq!(error_text(&evs[1]).unwrap(), "GPU Memory Info Fehler: m");
}

fn sample(e: Event) -> (String, u64, u64, u64, u64, u64) {
    match e {
        Event::DiskProgress {
            disk_name,
            total_disk_space,
            available_disk_space,
            used_disk_space,
            read_bytes_per_sec,
            write_bytes_per_sec,
        } => (disk_name, total_disk_space, available_disk_space, used_disk_space, read_bytes_per_sec, write_bytes_per_sec),
        _ => panic!("expected a disk sample"),
    }
}

#[test]
fn disk_meter_first_reading() {
    let mut m = DiskMeter::new();
    let disk = DiskInfo { name: "nvme0n1".to_string(), total_space: 1000, available_space: 250 };
    let procs = vec![
        ProcessIo { read_bytes: 10, written_bytes: 1 },
        ProcessIo { read_bytes: 5, written_bytes: 2 },
    ];
    assert_eq!(sample(m.step(Some(disk), &procs)), ("nvme0n1".to_string(), 1000, 250, 750, 15, 3));
}

#[test]
fn disk_meter_reports_growth() {
    let mut m = DiskMeter::new();
    m.step(None, &vec![ProcessIo { read_bytes: 100, written_bytes: 50 }]);
    let s = sample(m.step(None, &vec![ProcessIo { read_bytes: 130, written_bytes: 40 }]));
    assert_eq!(s, (String::new(), 0, 0, 0, 30, 0));
}

#[test]
fn disk_meter_idle_is_zero() {
    let mut m = DiskMeter::new();
    let p = vec![ProcessIo { read_bytes: 7, written_bytes: 9 }];
    m.step(None, &p);
    let s = sample(m.step(None, &p));
    assert_eq!((s.4, s.5), (0, 0));
}

#[test]
fn disk_meter_used_space_saturates() {
    let mut m = DiskMeter::new();
    let disk = DiskInfo { name: "d".to_string(), total_space: 10, available_space: 20 };
    let s = sample(m.step(Some(disk), &vec![]));
    assert_eq!(s.3, 0);
}
