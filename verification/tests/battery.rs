use statusbar::battery::{
    battery_present, mains_online, read_battery, status_charging, status_level,
    supplies_charging, supplies_level, BatteryReading, PowerReport, PowerStatus, PowerSupply,
};
use statusbar::percent::FULL_SCALE;

fn supply(name: &str, capacity: Option<u32>, online: Option<&str>) -> PowerSupply {
    PowerSupply { name: name.to_string(), capacity, online: online.map(|text| text.to_string()) }
}

fn fallback() -> BatteryReading {
    BatteryReading { level: FULL_SCALE, charging: false }
}

#[test]
fn no_report_falls_back_to_full_and_not_charging() {
    let reading = read_battery(&PowerReport::Unavailable);
    assert_eq!(reading, fallback());
    assert_eq!(reading.level as f32 / 100.0, 100.0);
    assert!(!reading.charging);
}

#[test]
fn empty_directory_falls_back() {
    assert_eq!(read_battery(&PowerReport::Supplies(Vec::new())), fallback());
}

#[test]
fn directory_without_battery_falls_back() {
    let supplies = vec![supply("hidpp_battery_0", Some(5000), None), supply("ucsi", None, None)];
    assert_eq!(supplies_level(&supplies), FULL_SCALE);
    assert!(!supplies_charging(&supplies));
}

#[test]
fn first_battery_gives_the_level() {
    let supplies = vec![
        supply("AC", None, Some("0\n")),
        supply("BAT0", Some(8700), None),
        supply("BAT1", Some(1200), None),
    ];
    assert_eq!(supplies_level(&supplies), 8700);
}

#[test]
fn battery_without_readable_capacity_is_passed_over() {
    let supplies = vec![supply("BAT0", None, None), supply("BAT1", Some(4200), None)];
    assert_eq!(supplies_level(&supplies), 4200);
    assert_eq!(supplies_level(&vec![supply("BAT0", None, None)]), FULL_SCALE);
}

#[test]
fn capacity_of_other_entries_is_ignored() {
    let supplies = vec![supply("AC", Some(100), Some("1")), supply("BAT0", Some(6600), None)];
    assert_eq!(supplies_level(&supplies), 6600);
}

#[test]
fn level_within_range_is_taken_as_reported() {
    assert_eq!(supplies_level(&vec![supply("BAT0", Some(0), None)]), 0);
    assert_eq!(supplies_level(&vec![supply("BAT0", Some(1), None)]), 1);
    assert_eq!(supplies_level(&vec![supply("BAT0", Some(9_999), None)]), 9_999);
    assert_eq!(supplies_level(&vec![supply("BAT0", Some(FULL_SCALE), None)]), FULL_SCALE);
}

#[test]
fn level_above_full_counts_as_full() {
    assert_eq!(supplies_level(&vec![supply("BAT0", Some(10_001), None)]), FULL_SCALE);
    assert_eq!(supplies_level(&vec![supply("BAT0", Some(12_345), None)]), FULL_SCALE);
    assert_eq!(supplies_level(&vec![supply("BAT0", Some(15_000), None)]), FULL_SCALE);
    assert_eq!(supplies_level(&vec![supply("BAT0", Some(u32::MAX), None)]), FULL_SCALE);
    let supplies = vec![supply("BAT0", Some(15_000), None), supply("BAT1", Some(4_000), None)];
    assert_eq!(supplies_level(&supplies), FULL_SCALE);
    let report = PowerReport::Supplies(vec![supply("BAT0", Some(15_000), None)]);
    assert_eq!(read_battery(&report).level as f32 / 100.0, 100.0);
}

#[test]
fn battery_is_an_entry_named_so_with_a_readable_charge() {
    assert!(battery_present(&vec![supply("AC", None, Some("1")), supply("BAT0", Some(1), None)]));
    assert!(battery_present(&vec![supply("BAT", Some(15_000), None)]));
    assert!(!battery_present(&vec![supply("BAT0", None, None)]));
    assert!(!battery_present(&vec![supply("AC", Some(5000), Some("1"))]));
    assert!(!battery_present(&vec![supply("hidpp_battery_0", Some(5000), None)]));
    assert!(!battery_present(&Vec::new()));
}

#[test]
fn adapter_without_battery_does_not_charge() {
    let only_adapter = vec![supply("AC", None, Some("1\n"))];
    assert!(mains_online(&only_adapter));
    assert!(!supplies_charging(&only_adapter));
    assert_eq!(read_battery(&PowerReport::Supplies(only_adapter)), fallback());
}

#[test]
fn adapter_with_unreadable_battery_does_not_charge() {
    let supplies = vec![supply("AC", None, Some("1\n")), supply("BAT0", None, None)];
    assert!(!supplies_charging(&supplies));
    assert_eq!(read_battery(&PowerReport::Supplies(supplies)), fallback());
}

#[test]
fn online_adapter_means_charging() {
    let supplies = vec![supply("BAT0", Some(5000), None), supply("AC", None, Some("1\n"))];
    assert!(supplies_charging(&supplies));
}

fn with_battery(online: &str) -> Vec<PowerSupply> {
    vec![supply("AC", None, Some(online)), supply("BAT0", Some(5000), None)]
}

#[test]
fn online_text_is_trimmed_before_it_is_compared() {
    assert!(mains_online(&vec![supply("AC", None, Some("1"))]));
    assert!(mains_online(&vec![supply("AC", None, Some("  1 \n"))]));
    assert!(mains_online(&vec![supply("AC", None, Some("\t1\r\n"))]));
    assert!(!mains_online(&vec![supply("AC", None, Some("1 1"))]));
    assert!(!mains_online(&vec![supply("AC", None, Some("11"))]));
    assert!(!mains_online(&vec![supply("AC", None, Some(""))]));
    assert!(!mains_online(&vec![supply("AC", None, Some("yes"))]));
    assert!(supplies_charging(&with_battery("1")));
    assert!(supplies_charging(&with_battery("  1 \n")));
    assert!(supplies_charging(&with_battery("\t1\r\n")));
    assert!(!supplies_charging(&with_battery("1 1")));
    assert!(!supplies_charging(&with_battery("11")));
    assert!(!supplies_charging(&with_battery("")));
}

#[test]
fn offline_adapter_means_not_charging() {
    assert!(!mains_online(&vec![supply("AC", None, Some("0\n"))]));
    assert!(!supplies_charging(&with_battery("0\n")));
}

#[test]
fn first_readable_adapter_decides() {
    let supplies = vec![
        supply("BAT0", Some(5000), None),
        supply("AC0", None, None),
        supply("ACAD", None, Some("0\n")),
        supply("AC1", None, Some("1\n")),
    ];
    assert!(!mains_online(&supplies));
    assert!(!supplies_charging(&supplies));
    let supplies = vec![
        supply("AC0", None, None),
        supply("AC1", None, Some("1\n")),
        supply("BAT0", Some(5000), None),
    ];
    assert!(mains_online(&supplies));
    assert!(supplies_charging(&supplies));
}

#[test]
fn online_of_other_entries_is_ignored() {
    let supplies = vec![supply("usb", None, Some("1\n")), supply("BAT0", Some(1), Some("1\n"))];
    assert!(!supplies_charging(&supplies));
}

#[test]
fn supplies_report_gives_both_fields() {
    let report = PowerReport::Supplies(vec![
        supply("AC", None, Some("1\n")),
        supply("BAT0", Some(5550), None),
    ]);
    assert_eq!(read_battery(&report), BatteryReading { level: 5550, charging: true });
}

#[test]
fn status_level_is_the_percentage() {
    let status = PowerStatus { ac_line_status: 0, battery_flag: 0, battery_life_percent: 73 };
    assert_eq!(status_level(&status), 7300);
    let status = PowerStatus { ac_line_status: 0, battery_flag: 0, battery_life_percent: 0 };
    assert_eq!(status_level(&status), 0);
    let status = PowerStatus { ac_line_status: 0, battery_flag: 0, battery_life_percent: 100 };
    assert_eq!(status_level(&status), FULL_SCALE);
}

#[test]
fn status_level_unknown_falls_back_to_full() {
    let status = PowerStatus { ac_line_status: 1, battery_flag: 128, battery_life_percent: 255 };
    assert_eq!(status_level(&status), FULL_SCALE);
    let status = PowerStatus { ac_line_status: 1, battery_flag: 0, battery_life_percent: 101 };
    assert_eq!(status_level(&status), FULL_SCALE);
}

#[test]
fn status_charging_needs_mains_and_flag() {
    let charging = PowerStatus { ac_line_status: 1, battery_flag: 8, battery_life_percent: 50 };
    assert!(status_charging(&charging));
    let with_other_flags =
        PowerStatus { ac_line_status: 1, battery_flag: 8 | 1, battery_life_percent: 50 };
    assert!(status_charging(&with_other_flags));
    let on_battery = PowerStatus { ac_line_status: 0, battery_flag: 8, battery_life_percent: 50 };
    assert!(!status_charging(&on_battery));
    let not_charging = PowerStatus { ac_line_status: 1, battery_flag: 1, battery_life_percent: 50 };
    assert!(!status_charging(&not_charging));
    let unknown_line = PowerStatus { ac_line_status: 255, battery_flag: 8, battery_life_percent: 50 };
    assert!(!status_charging(&unknown_line));
}

#[test]
fn status_report_gives_both_fields() {
    let status = PowerStatus { ac_line_status: 1, battery_flag: 8, battery_life_percent: 42 };
    assert_eq!(
        read_battery(&PowerReport::Status(status)),
        BatteryReading { level: 4200, charging: true }
    );
}
