use hwtools::app::{AppState, HwToolsApp, KeyOutcome, RefreshRequest, TabReadings};
use hwtools::gpio_tab::{GpioEvent, PinDirection};
use hwtools::storage::Settings;
use hwtools::system_tab::SystemReadings;
use hwtools::uart_tab::{UartEvent, UartMux};

fn empty_readings() -> SystemReadings {
    SystemReadings {
        batt_stats: None,
        charging: None,
        ec_uptime: None,
        ec_git_rev: None,
        ec_sw_tag: None,
        soc_git_rev: None,
        soc_dna: None,
        adc_vbus: None,
        adc_temp: None,
        adc_vccint: None,
        adc_vccaux: None,
        gyro: None,
    }
}

#[test]
fn app_state_codes() {
    assert_eq!(AppState::from_u8(0), AppState::System);
    assert_eq!(AppState::from_u8(1), AppState::Gpio);
    assert_eq!(AppState::from_u8(2), AppState::Uart);
    assert_eq!(AppState::from_u8(3), AppState::System);
    assert_eq!(AppState::from_u8(255), AppState::System);
    for s in [AppState::System, AppState::Gpio, AppState::Uart] {
        assert_eq!(AppState::from_u8(s.to_u8()), s);
    }
}

#[test]
fn app_state_cycle() {
    assert_eq!(AppState::System.next(), AppState::Gpio);
    assert_eq!(AppState::Gpio.next(), AppState::Uart);
    assert_eq!(AppState::Uart.next(), AppState::System);
    assert_eq!(AppState::System.prev(), AppState::Uart);
    for s in [AppState::System, AppState::Gpio, AppState::Uart] {
        assert_eq!(s.next().prev(), s);
        assert_eq!(s.next().next().next(), s);
    }
}

#[test]
fn app_state_texts() {
    assert_eq!(AppState::System.label(), "System");
    assert_eq!(AppState::Gpio.label(), "GPIO");
    assert_eq!(AppState::Uart.label(), "UART");
    assert_eq!(AppState::System.caption(), "1.System");
    assert_eq!(AppState::Gpio.caption(), "2.GPIO");
    assert_eq!(AppState::Uart.caption(), "3.UART");
    assert_eq!(AppState::System.help_text(), "r:Refresh  1/2/3:Tab  q:Quit");
    assert_eq!(AppState::Uart.help_text(), "c:Clear  p:Pause  m:Mux  q:Quit");
    assert_eq!(AppState::Gpio.help_text(), "0-7:Toggle  i/o:Dir  \u{2191}\u{2193}:Select  q:Quit");
}

#[test]
fn starts_on_stored_tab() {
    let mut s = Settings::default();
    s.last_tab = 2;
    assert_eq!(HwToolsApp::new(s).state(), AppState::Uart);
    s.last_tab = 9;
    assert_eq!(HwToolsApp::new(s).state(), AppState::System);
}

#[test]
fn quit_keys() {
    let mut app = HwToolsApp::new(Settings::default());
    assert_eq!(app.handle_key('q', 0), KeyOutcome::Quit);
    assert_eq!(app.handle_key('Q', 0), KeyOutcome::Quit);
    assert_eq!(app.state(), AppState::System);
}

#[test]
fn tab_switching_keys() {
    let mut app = HwToolsApp::new(Settings::default());
    assert_eq!(app.handle_key('2', 0), KeyOutcome::TabSwitched);
    assert_eq!(app.state(), AppState::Gpio);
    assert_eq!(app.settings().last_tab, 1);
    assert_eq!(app.handle_key('2', 0), KeyOutcome::Handled);
    assert_eq!(app.handle_key('\u{2192}', 0), KeyOutcome::TabSwitched);
    assert_eq!(app.state(), AppState::Uart);
    assert_eq!(app.handle_key('\u{2192}', 0), KeyOutcome::TabSwitched);
    assert_eq!(app.state(), AppState::System);
    assert_eq!(app.handle_key('\u{2190}', 0), KeyOutcome::TabSwitched);
    assert_eq!(app.state(), AppState::Uart);
    assert_eq!(app.settings().last_tab, 2);
}

#[test]
fn keys_go_to_shown_tab() {
    let mut app = HwToolsApp::new(Settings::default());
    assert_eq!(app.handle_key('r', 0), KeyOutcome::RefreshSystem);
    assert_eq!(app.handle_key('R', 0), KeyOutcome::RefreshSystem);
    assert_eq!(app.handle_key('x', 0), KeyOutcome::Handled);
    app.handle_key('2', 0);
    assert_eq!(app.handle_key('4', 0), KeyOutcome::Gpio(GpioEvent::SwitchedToOutput { pin: 4 }));
    assert_eq!(app.gpio_tab().direction(4), PinDirection::Output);
    app.handle_key('3', 0);
    assert_eq!(app.handle_key('m', 0), KeyOutcome::Uart(UartEvent::MuxSet(UartMux::Application)));
    assert_eq!(app.handle_key('r', 0), KeyOutcome::Handled);
    assert_eq!(app.uart_tab().tx_buffer(), "r");
}

#[test]
fn enter_sends_typed_bytes_on_selected_uart() {
    let mut app = HwToolsApp::new(Settings::default());
    app.handle_key('3', 0);
    assert_eq!(app.handle_key('\r', 0), KeyOutcome::Handled);
    app.handle_key('o', 0);
    app.handle_key('k', 0);
    assert_eq!(
        app.handle_key('\r', 10),
        KeyOutcome::Uart(UartEvent::Transmit { mux: UartMux::Log, data: String::from("ok") })
    );
    assert_eq!(app.uart_tab().tx_buffer(), "");
    assert_eq!(app.uart_tab().line_content(0), "TX> ok");
}

#[test]
fn gpio_a_key_reports_adc() {
    let mut app = HwToolsApp::new(Settings::default());
    app.handle_key('2', 0);
    assert_eq!(app.handle_key('a', 0), KeyOutcome::Gpio(GpioEvent::NoAdc { pin: 0 }));
    app.refresh_data(TabReadings::Gpio { adc_gpio2: Some(2048), adc_gpio5: None });
    app.handle_key('\u{2193}', 0);
    app.handle_key('\u{2193}', 0);
    assert_eq!(app.handle_key('A', 0), KeyOutcome::Gpio(GpioEvent::AdcReading { pin: 2, raw: 2048 }));
}

#[test]
fn refresh_goes_to_shown_tab() {
    let mut app = HwToolsApp::new(Settings::default());
    assert_eq!(app.refresh_request(), RefreshRequest::System);
    let mut r = empty_readings();
    r.soc_dna = Some(42);
    app.refresh_data(TabReadings::System(r));
    assert_eq!(app.system_tab().readings().soc_dna, Some(42));
    app.refresh_data(TabReadings::Uart { now_ms: 5 });
    assert_eq!(app.uart_tab().line_count(), 0);
    app.handle_key('3', 0);
    assert_eq!(app.refresh_request(), RefreshRequest::Uart);
    app.refresh_data(TabReadings::Uart { now_ms: 5 });
    assert_eq!(app.uart_tab().line_count(), 1);
    app.handle_key('2', 0);
    app.handle_key('1', 0);
    app.handle_key('2', 0);
    app.handle_key('6', 0);
    assert_eq!(app.refresh_request(), RefreshRequest::Gpio { direction_mask: 0b0100_0000 });
    app.refresh_data(TabReadings::Gpio { adc_gpio2: Some(4000), adc_gpio5: None });
    assert!(app.gpio_tab().input(2));
}

#[test]
fn save_and_restore_session() {
    let mut app = HwToolsApp::new(Settings::default());
    app.handle_key('2', 0);
    app.handle_key('\u{2193}', 0);
    app.handle_key('o', 0);
    app.handle_key(' ', 0);
    app.handle_key('5', 0);
    app.handle_key('3', 0);
    app.handle_key('m', 0);
    let record = app.save_settings();
    assert_eq!(record.len(), 9);
    let restored = HwToolsApp::new(Settings::from_bytes(&record));
    assert_eq!(restored.state(), AppState::Uart);
    assert_eq!(restored.uart_tab().mux(), UartMux::Application);
    for pin in 0..8 {
        assert_eq!(restored.gpio_tab().direction(pin), app.gpio_tab().direction(pin));
        assert_eq!(restored.gpio_tab().output(pin), app.gpio_tab().output(pin));
    }
    assert_eq!(restored.gpio_tab().direction(1), PinDirection::Output);
    assert_eq!(restored.gpio_tab().direction(5), PinDirection::Output);
    assert_eq!(restored.gpio_tab().direction(3), PinDirection::Input);
    assert!(restored.gpio_tab().output(1));
}
