use statusbar::battery::{PowerReport, PowerStatus, PowerSupply};
use statusbar::percent::FULL_SCALE;
use statusbar::system_info::{sample_memory, MemorySample, MetricsSnapshot, SystemInfo};

fn laptop() -> PowerReport {
    PowerReport::Supplies(vec![
        PowerSupply { name: "AC".to_string(), capacity: None, online: Some("1\n".to_string()) },
        PowerSupply { name: "BAT0".to_string(), capacity: Some(8100), online: None },
    ])
}

#[test]
fn new_tracker_has_no_load_and_a_full_battery() {
    let tracker = SystemInfo::new();
    assert_eq!(tracker.cpu_usage(), 0);
    assert_eq!(tracker.battery_level(), FULL_SCALE);
    assert!(!tracker.battery_is_charging());
}

#[test]
fn new_tracker_has_sampled_memory() {
    let tracker = SystemInfo::new();
    let sample = sample_memory(tracker.system()).expect("memory figures can be read");
    assert!(sample.used <= sample.total);
    assert_eq!(tracker.memory_total(), sample.total);
    assert_eq!(tracker.memory_used(), sample.used);
}

#[test]
fn memory_figures_come_from_the_machine() {
    let tracker = SystemInfo::new();
    if tracker.system().used_memory() <= tracker.system().total_memory() {
        assert_eq!(tracker.memory_total(), tracker.system().total_memory());
        assert_eq!(tracker.memory_used(), tracker.system().used_memory());
    }
    if sysinfo::IS_SUPPORTED_SYSTEM {
        assert!(tracker.memory_total() > 0);
    }
    assert!(tracker.memory_used() <= tracker.memory_total());
}

#[test]
fn sample_matches_the_handle() {
    let tracker = SystemInfo::new();
    let system = tracker.system();
    let sample = sample_memory(system);
    if system.available_memory() <= system.total_memory() {
        assert_eq!(
            sample,
            Some(MemorySample { used: system.used_memory(), total: system.total_memory() })
        );
    } else {
        assert_eq!(sample, None);
    }
}

#[test]
fn refresh_keeps_load_and_battery() {
    let mut tracker = SystemInfo::new();
    tracker.observe(&vec![2500, 7500], &laptop());
    tracker.refresh();
    assert_eq!(tracker.cpu_usage(), 5000);
    assert_eq!(tracker.battery_level(), 8100);
    assert!(tracker.battery_is_charging());
    assert_eq!(tracker.memory_total(), tracker.system().total_memory());
}

#[test]
fn observe_takes_over_load_and_battery() {
    let mut tracker = SystemInfo::new();
    tracker.record_memory(Some(MemorySample { used: 3, total: 8 }));
    tracker.observe(&vec![1000, 2000, 3000], &laptop());
    assert_eq!(
        tracker.snapshot(),
        MetricsSnapshot {
            cpu_usage: 2000,
            memory_used: 3,
            memory_total: 8,
            battery_level: 8100,
            battery_charging: true,
        }
    );
}

#[test]
fn observe_without_cores_or_battery_gives_defaults() {
    let mut tracker = SystemInfo::new();
    tracker.observe(&vec![5000], &laptop());
    tracker.observe(&Vec::new(), &PowerReport::Unavailable);
    assert_eq!(tracker.cpu_usage(), 0);
    assert_eq!(tracker.battery_level(), FULL_SCALE);
    assert_eq!(tracker.battery_level() as f32 / 100.0, 100.0);
    assert!(!tracker.battery_is_charging());
}

#[test]
fn observe_understands_a_power_status_record() {
    let mut tracker = SystemInfo::new();
    let status = PowerStatus { ac_line_status: 1, battery_flag: 8, battery_life_percent: 64 };
    tracker.observe(&vec![100], &PowerReport::Status(status));
    assert_eq!(tracker.battery_level(), 6400);
    assert!(tracker.battery_is_charging());
}

#[test]
fn memory_sample_is_taken_over() {
    let mut tracker = SystemInfo::new();
    tracker.record_memory(Some(MemorySample { used: 4_000_000_000, total: 16_000_000_000 }));
    assert_eq!(tracker.memory_used(), 4_000_000_000);
    assert_eq!(tracker.memory_total(), 16_000_000_000);
    assert!(tracker.memory_used() <= tracker.memory_total());
}

#[test]
fn missing_memory_sample_keeps_former_figures() {
    let mut tracker = SystemInfo::new();
    tracker.record_memory(Some(MemorySample { used: 5, total: 9 }));
    tracker.record_memory(None);
    assert_eq!(tracker.memory_used(), 5);
    assert_eq!(tracker.memory_total(), 9);
}

#[test]
fn memory_sample_beyond_total_is_not_taken_over() {
    let mut tracker = SystemInfo::new();
    tracker.record_memory(Some(MemorySample { used: 5, total: 9 }));
    tracker.record_memory(Some(MemorySample { used: 2, total: 1 }));
    assert_eq!(tracker.memory_used(), 5);
    assert_eq!(tracker.memory_total(), 9);
    tracker.record_memory(Some(MemorySample { used: u64::MAX, total: 0 }));
    assert_eq!(tracker.memory_used(), 5);
    assert_eq!(tracker.memory_total(), 9);
}

#[test]
fn memory_sample_at_the_total_is_taken_over() {
    let mut tracker = SystemInfo::new();
    tracker.record_memory(Some(MemorySample { used: 7, total: 7 }));
    assert_eq!(tracker.memory_used(), 7);
    assert_eq!(tracker.memory_total(), 7);
    tracker.record_memory(Some(MemorySample { used: 0, total: 0 }));
    assert_eq!(tracker.memory_used(), 0);
    assert_eq!(tracker.memory_total(), 0);
}

#[test]
fn memory_in_use_never_exceeds_the_total() {
    let mut tracker = SystemInfo::new();
    assert!(tracker.memory_used() <= tracker.memory_total());
    let samples = [
        Some(MemorySample { used: 3, total: 8 }),
        Some(MemorySample { used: 9, total: 8 }),
        None,
        Some(MemorySample { used: 1, total: 0 }),
        Some(MemorySample { used: 8, total: 8 }),
    ];
    for sample in samples {
        tracker.record_memory(sample);
        assert!(tracker.memory_used() <= tracker.memory_total());
        tracker.refresh();
        assert!(tracker.memory_used() <= tracker.memory_total());
        let snapshot = tracker.snapshot();
        assert!(snapshot.memory_used <= snapshot.memory_total);
    }
}

#[test]
fn battery_level_never_exceeds_full() {
    let mut tracker = SystemInfo::new();
    let overfull = PowerReport::Supplies(vec![PowerSupply {
        name: "BAT0".to_string(),
        capacity: Some(15_000),
        online: None,
    }]);
    tracker.observe(&Vec::new(), &overfull);
    assert_eq!(tracker.battery_level(), FULL_SCALE);
    let unknown = PowerStatus { ac_line_status: 1, battery_flag: 0, battery_life_percent: 255 };
    tracker.observe(&Vec::new(), &PowerReport::Status(unknown));
    assert_eq!(tracker.battery_level(), FULL_SCALE);
}

#[test]
fn adapter_alone_leaves_the_fallback() {
    let mut tracker = SystemInfo::new();
    tracker.observe(&vec![5000], &laptop());
    assert!(tracker.battery_is_charging());
    let desktop = PowerReport::Supplies(vec![PowerSupply {
        name: "AC".to_string(),
        capacity: None,
        online: Some("1\n".to_string()),
    }]);
    tracker.observe(&vec![5000], &desktop);
    assert_eq!(tracker.battery_level(), FULL_SCALE);
    assert!(!tracker.battery_is_charging());
}

#[test]
fn polling_twice_with_the_same_answers_gives_equal_snapshots() {
    let mut tracker = SystemInfo::new();
    let sample = Some(MemorySample { used: 10, total: 20 });
    let loads = vec![1234, 4321, 1111];
    tracker.record_memory(sample);
    tracker.observe(&loads, &laptop());
    let first = tracker.snapshot();
    tracker.record_memory(sample);
    tracker.observe(&loads, &laptop());
    let second = tracker.snapshot();
    assert_eq!(first, second);
    assert_eq!(first.cpu_usage, 2222);
}

#[test]
fn metrics_getters_agree_with_snapshot() {
    let mut tracker = SystemInfo::new();
    tracker.observe(&vec![300, 500], &laptop());
    let snapshot = tracker.snapshot();
    assert_eq!(snapshot.cpu_usage, tracker.cpu_usage());
    assert_eq!(snapshot.memory_used, tracker.memory_used());
    assert_eq!(snapshot.memory_total, tracker.memory_total());
    assert_eq!(snapshot.battery_level, tracker.battery_level());
    assert_eq!(snapshot.battery_charging, tracker.battery_is_charging());
}
