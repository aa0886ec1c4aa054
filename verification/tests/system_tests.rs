use hwtools::system_tab::{
    format_capacity, format_charge, format_current, format_dna, format_git_rev, format_gyro,
    format_soc_version, format_temperature, format_version, format_voltage, format_volts, rail_mv,
    temperature_c, vbus_mv, BatteryStats, SystemReadings, SystemTab, Version,
};
use hwtools::ui::{draw_progress_bar, format_duration_hms, progress_fill_width, DrawCmd, Rect};

fn none() -> SystemReadings {
    SystemReadings {
        batt_stats: None,
        charging: None,
        ec_uptime: None,
        ec_git_rev: None,
        ec_sw_tag: None,
        soc_git_rev: None,
        soc_dna: None,
        adc_vbus: None,
        adc_temp: None,
        adc_vccint: None,
        adc_vccaux: None,
        gyro: None,
    }
}

#[test]
fn durations() {
    assert_eq!(format_duration_hms(3_723_000), "1h 2m 3s");
    assert_eq!(format_duration_hms(125_000), "2m 5s");
    assert_eq!(format_duration_hms(999), "0s");
    assert_eq!(format_duration_hms(3_600_000), "1h 0m 0s");
    assert_eq!(format_duration_hms(59_999), "59s");
}

#[test]
fn progress_fill() {
    assert_eq!(progress_fill_width(120, 50), 58);
    assert_eq!(progress_fill_width(120, 100), 116);
    assert_eq!(progress_fill_width(120, 0), 0);
    assert_eq!(progress_fill_width(4, 80), 0);
}

#[test]
fn narrow_progress_bar() {
    assert_eq!(progress_fill_width(3, 0), 0);
    assert_eq!(progress_fill_width(2, 1), 42_949_672);
    let mut cmds = Vec::new();
    draw_progress_bar(&mut cmds, 10, 20, 2, 12, 0);
    assert_eq!(cmds.len(), 1);
    match &cmds[0] {
        DrawCmd::Rectangle { bounds, .. } => assert_eq!(*bounds, Rect { x0: 10, y0: 20, x1: 12, y1: 32 }),
        _ => panic!("outline expected"),
    }
}

#[test]
fn battery_texts() {
    assert_eq!(format_voltage(3712), "3.71 V");
    assert_eq!(format_voltage(4005), "4.00 V");
    assert_eq!(format_charge(87), "87%");
    assert_eq!(format_current(120, Some(true)), "+120 mA (charging)");
    assert_eq!(format_current(-45, Some(false)), "-45 mA (discharging)");
    assert_eq!(format_current(-45, Some(true)), "-45 mA (charging)");
    assert_eq!(format_current(0, None), "+0 mA");
    assert_eq!(format_current(i16::MIN, None), "-32768 mA (discharging)");
    assert_eq!(format_capacity(1200), "1200 mAh");
}

#[test]
fn system_info_texts() {
    assert_eq!(format_git_rev(0xabcd, true), "0x0000abcd (dirty)");
    assert_eq!(format_git_rev(0xdeadbeef, false), "0xdeadbeef");
    let v = Version { maj: 1, min: 2, rev: 3, extra: 4, commit: Some(123456) };
    assert_eq!(format_version(&v), "v1.2.3");
    assert_eq!(format_soc_version(&v), "v1.2.3 (0001e240)");
    let w = Version { commit: None, ..v };
    assert_eq!(format_soc_version(&w), "v1.2.3");
    assert_eq!(format_dna(0x1234_5678_9abc), "0000123456789abc");
}

#[test]
fn adc_conversions() {
    assert_eq!(vbus_mv(1000), 5030);
    assert_eq!(format_volts(vbus_mv(1000)), "5.03V");
    assert_eq!(temperature_c(2500), 34);
    assert_eq!(temperature_c(0), -273);
    assert_eq!(format_temperature(2500), "34C");
    assert_eq!(format_temperature(100), "-261C");
    assert_eq!(rail_mv(1365), 999);
    assert_eq!(format_volts(rail_mv(1365)), "0.99V");
    assert_eq!(format_gyro(65535, 12, 32768), "X:-1 Y:12 Z:-32768");
}

#[test]
fn refresh_keeps_gyro_on_failure() {
    let mut tab = SystemTab::new();
    let mut r = none();
    r.gyro = Some((1, 2, 3));
    r.soc_dna = Some(7);
    tab.refresh(r);
    assert_eq!(tab.readings().gyro, Some((1, 2, 3)));
    tab.refresh(none());
    assert_eq!(tab.readings().gyro, Some((1, 2, 3)));
    assert_eq!(tab.readings().soc_dna, None);
}

#[test]
fn refresh_key() {
    let mut tab = SystemTab::new();
    assert!(tab.handle_key('r'));
    assert!(tab.handle_key('R'));
    assert!(!tab.handle_key('x'));
}

#[test]
fn tab_texts() {
    let mut tab = SystemTab::new();
    let t = tab.texts();
    assert!(t.battery.is_none());
    assert_eq!(t.ec_uptime, "N/A");
    assert_eq!(t.gyro, "N/A");
    let mut r = none();
    r.batt_stats = Some(BatteryStats { voltage: 3900, soc: 55, current: -300, remaining_capacity: 800 });
    r.charging = Some(false);
    r.ec_uptime = Some(65_000);
    r.adc_vccint = Some(1365);
    tab.refresh(r);
    let t = tab.texts();
    let b = t.battery.unwrap();
    assert_eq!(b.voltage, "3.90 V");
    assert_eq!(b.charge, "55%");
    assert_eq!(b.charge_percent, 55);
    assert_eq!(b.current, "-300 mA (discharging)");
    assert_eq!(b.remaining, "800 mAh");
    assert_eq!(t.ec_uptime, "1m 5s");
    assert_eq!(t.vccint, "0.99V");
    assert_eq!(t.vccaux, "N/A");
}
