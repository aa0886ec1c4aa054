use hwtools::gpio_tab::{GpioEvent, GpioTab, PinDirection};
use hwtools::storage::Settings;

fn tab_with(directions: u8, outputs: u8) -> GpioTab {
    let mut s = Settings::default();
    s.gpio_directions = directions;
    s.gpio_outputs = outputs;
    GpioTab::new(&s)
}

#[test]
fn restores_pins_from_masks() {
    let tab = tab_with(0b1000_0001, 0b1000_0000);
    assert_eq!(tab.direction(0), PinDirection::Output);
    assert_eq!(tab.direction(1), PinDirection::Input);
    assert_eq!(tab.direction(7), PinDirection::Output);
    assert!(tab.output(7));
    assert!(!tab.output(0));
    assert_eq!(tab.selected_pin(), 0);
    assert_eq!(tab.adc_readings(), (None, None));
    assert_eq!(tab.direction_mask(), 0b1000_0001);
    assert_eq!(tab.output_mask(), 0b1000_0000);
}

#[test]
fn cursor_wraps() {
    let mut tab = tab_with(0, 0);
    tab.handle_key('\u{2191}');
    assert_eq!(tab.selected_pin(), 7);
    tab.handle_key('\u{2193}');
    assert_eq!(tab.selected_pin(), 0);
    tab.handle_key('\u{2193}');
    assert_eq!(tab.selected_pin(), 1);
}

#[test]
fn digit_selects_input_pin_as_output_then_toggles() {
    let mut tab = tab_with(0, 0);
    tab.handle_key('5');
    assert_eq!(tab.selected_pin(), 5);
    assert_eq!(tab.direction(5), PinDirection::Output);
    assert!(!tab.output(5));
    tab.handle_key('5');
    assert!(tab.output(5));
    tab.handle_key('5');
    assert!(!tab.output(5));
    tab.handle_key('8');
    assert_eq!(tab.direction(0), PinDirection::Input);
}

#[test]
fn direction_and_space_keys() {
    let mut tab = tab_with(0, 0);
    tab.handle_key(' ');
    assert!(!tab.output(0));
    tab.handle_key('o');
    assert_eq!(tab.direction(0), PinDirection::Output);
    tab.handle_key(' ');
    assert!(tab.output(0));
    tab.handle_key('I');
    assert_eq!(tab.direction(0), PinDirection::Input);
    tab.handle_key('O');
    assert_eq!(tab.direction(0), PinDirection::Output);
    tab.handle_key('a');
    assert_eq!(tab.direction(0), PinDirection::Output);
}

#[test]
fn adc_inference_threshold() {
    let mut tab = tab_with(0, 0);
    tab.refresh(Some(1201), Some(1200));
    assert!(tab.input(2));
    assert!(!tab.input(5));
    assert_eq!(tab.adc_readings(), (Some(1201), Some(1200)));
    tab.refresh(None, Some(4095));
    assert!(tab.input(2));
    assert!(tab.input(5));
    assert_eq!(tab.adc_readings(), (None, Some(4095)));
}

#[test]
fn row_texts() {
    let mut tab = tab_with(0b0000_1000, 0b0000_1000);
    assert_eq!(tab.row_text(0), "  0   IN     -     ?   -");
    assert_eq!(tab.row_text(3), "  3   OUT   [1]    -   -");
    assert_eq!(tab.row_text(2), "\u{25B8} 2   IN     -     0   N/A");
    tab.refresh(Some(2048), None);
    assert_eq!(tab.row_text(2), "\u{25B8} 2   IN     -     1   1.65V");
    assert_eq!(tab.row_text(5), "\u{25B8} 5   IN     -     0   N/A");
}

#[test]
fn save_into_settings() {
    let mut tab = tab_with(0, 0);
    tab.handle_key('1');
    tab.handle_key('1');
    tab.handle_key('6');
    let mut s = Settings::default();
    s.uart_mux = 2;
    tab.save_to_settings(&mut s);
    assert_eq!(s.gpio_directions, 0b0100_0010);
    assert_eq!(s.gpio_outputs, 0b0000_0010);
    assert_eq!(s.uart_mux, 2);
    let back = GpioTab::new(&s);
    for pin in 0..8 {
        assert_eq!(back.direction(pin), tab.direction(pin));
        assert_eq!(back.output(pin), tab.output(pin));
    }
}

#[test]
fn gpio_key_events() {
    let mut tab = tab_with(0b0000_0001, 0);
    assert_eq!(tab.handle_key('\u{2193}'), None);
    assert_eq!(tab.handle_key('0'), Some(GpioEvent::OutputToggled { pin: 0, level: true }));
    assert_eq!(tab.handle_key('3'), Some(GpioEvent::SwitchedToOutput { pin: 3 }));
    assert_eq!(tab.selected_pin(), 3);
    assert_eq!(tab.handle_key(' '), Some(GpioEvent::SelectedToggled { pin: 3, level: true }));
    assert_eq!(
        tab.handle_key('i'),
        Some(GpioEvent::DirectionSet { pin: 3, direction: PinDirection::Input })
    );
    assert_eq!(tab.handle_key(' '), None);
    assert_eq!(
        tab.handle_key('O'),
        Some(GpioEvent::DirectionSet { pin: 3, direction: PinDirection::Output })
    );
    assert_eq!(tab.handle_key('a'), Some(GpioEvent::NoAdc { pin: 3 }));
    assert_eq!(tab.handle_key('x'), None);
}

#[test]
fn adc_key_reports_reading() {
    let mut tab = tab_with(0, 0);
    tab.handle_key('5');
    tab.handle_key('i');
    assert_eq!(tab.handle_key('a'), None);
    tab.refresh(Some(100), Some(3000));
    assert_eq!(tab.handle_key('A'), Some(GpioEvent::AdcReading { pin: 5, raw: 3000 }));
    tab.handle_key('2');
    tab.handle_key('i');
    assert_eq!(tab.handle_key('a'), Some(GpioEvent::AdcReading { pin: 2, raw: 100 }));
}
