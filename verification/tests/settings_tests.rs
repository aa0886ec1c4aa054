use hwtools::storage::Settings;

fn sample() -> Settings {
    Settings {
        last_tab: 2,
        gpio_directions: 0b1010_0101,
        gpio_outputs: 0b0000_0100,
        uart_mux: 0,
        auto_refresh: false,
        refresh_interval_ms: 0x1234_5678,
    }
}

#[test]
fn default_settings_values() {
    let s = Settings::default();
    assert_eq!(s.last_tab, 0);
    assert_eq!(s.gpio_directions, 0);
    assert_eq!(s.gpio_outputs, 0);
    assert_eq!(s.uart_mux, 1);
    assert!(s.auto_refresh);
    assert_eq!(s.refresh_interval_ms, 2000);
}

#[test]
fn default_settings_record() {
    assert_eq!(Settings::default().to_bytes(), vec![0, 0, 0, 1, 1, 0xd0, 0x07, 0, 0]);
}

#[test]
fn record_is_nine_bytes_little_endian() {
    assert_eq!(sample().to_bytes(), vec![2, 0xa5, 0x04, 0, 0, 0x78, 0x56, 0x34, 0x12]);
}

#[test]
fn settings_roundtrip() {
    let s = sample();
    assert_eq!(Settings::from_bytes(&s.to_bytes()), s);
    let d = Settings::default();
    assert_eq!(Settings::from_bytes(&d.to_bytes()), d);
}

#[test]
fn short_record_gives_defaults() {
    assert_eq!(Settings::from_bytes(&[2, 1, 1, 0, 0, 1, 2, 3]), Settings::default());
    assert_eq!(Settings::from_bytes(&[]), Settings::default());
}

#[test]
fn longer_record_ignores_tail() {
    let mut bytes = sample().to_bytes();
    bytes.push(0xff);
    bytes.push(0x01);
    assert_eq!(Settings::from_bytes(&bytes), sample());
}

#[test]
fn auto_refresh_any_nonzero_is_true() {
    let s = Settings::from_bytes(&[0, 0, 0, 1, 7, 0, 0, 0, 0]);
    assert!(s.auto_refresh);
    assert_eq!(s.refresh_interval_ms, 0);
}

#[test]
fn missing_record_gives_defaults() {
    assert_eq!(Settings::from_stored(None), Settings::default());
    let bytes = sample().to_bytes();
    assert_eq!(Settings::from_stored(Some(&bytes)), sample());
}
