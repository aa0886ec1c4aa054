use hwtools::storage::Settings;
use hwtools::ui::Point;
use hwtools::uart_tab::{u8_to_uart_mux, uart_mux_to_u8, visible_line_count_for, UartEvent, UartMux, UartTab};

fn tab() -> UartTab {
    UartTab::new(&Settings::default())
}

#[test]
fn mux_codes() {
    assert_eq!(uart_mux_to_u8(UartMux::Kernel), 0);
    assert_eq!(uart_mux_to_u8(UartMux::Log), 1);
    assert_eq!(uart_mux_to_u8(UartMux::Application), 2);
    assert_eq!(uart_mux_to_u8(UartMux::Invalid), 1);
    assert_eq!(u8_to_uart_mux(0), UartMux::Kernel);
    assert_eq!(u8_to_uart_mux(2), UartMux::Application);
    assert_eq!(u8_to_uart_mux(7), UartMux::Log);
}

#[test]
fn new_clamps_mux() {
    let mut s = Settings::default();
    s.uart_mux = 9;
    let t = UartTab::new(&s);
    assert_eq!(t.mux_index(), 2);
    assert_eq!(t.mux(), UartMux::Application);
    assert_eq!(tab().mux(), UartMux::Log);
}

#[test]
fn mux_key_cycles() {
    let mut t = tab();
    assert_eq!(t.handle_key('m', 0), Some(UartEvent::MuxSet(UartMux::Application)));
    assert_eq!(t.handle_key('M', 0), Some(UartEvent::MuxSet(UartMux::Kernel)));
    assert_eq!(t.handle_key('m', 0), Some(UartEvent::MuxSet(UartMux::Log)));
    assert_eq!(t.handle_key('x', 0), None);
    let mut s = Settings::default();
    s.uart_mux = 0;
    t.save_to_settings(&mut s);
    assert_eq!(s.uart_mux, 1);
}

#[test]
fn placeholder_on_refresh() {
    let mut t = tab();
    t.refresh(1234);
    assert_eq!(t.line_count(), 1);
    assert_eq!(t.line_timestamp(0), 1234);
    assert_eq!(t.line_content(0), "(UART monitor active - see hardware for actual data)");
    t.refresh(2000);
    assert_eq!(t.line_count(), 1);
    t.handle_key('c', 0);
    t.handle_key('p', 0);
    assert!(t.is_paused());
    t.refresh(3000);
    assert_eq!(t.line_count(), 0);
}

#[test]
fn typing_and_sending() {
    let mut t = tab();
    t.handle_key('h', 0);
    t.handle_key('i', 0);
    t.handle_key(' ', 0);
    t.handle_key('!', 0);
    t.handle_key('\u{8}', 0);
    assert_eq!(t.tx_buffer(), "hi ");
    assert_eq!(t.tx_text(), "TX: hi _");
    t.handle_key('\r', 65123);
    assert_eq!(t.tx_buffer(), "");
    assert_eq!(t.tx_text(), "TX: (type to send)");
    assert_eq!(t.line_count(), 1);
    assert_eq!(t.line_content(0), "TX> hi ");
    assert_eq!(t.line_text(0), "[05:12] TX> hi ");
    t.handle_key('\n', 0);
    assert_eq!(t.line_count(), 1);
    t.handle_key('\u{8}', 0);
    assert_eq!(t.tx_buffer(), "");
    t.handle_key('\u{e9}', 0);
    assert_eq!(t.tx_buffer(), "");
}

#[test]
fn tx_buffer_limit() {
    let mut t = tab();
    for _ in 0..70 {
        t.handle_key('z', 0);
    }
    assert_eq!(t.tx_buffer().len(), 64);
}

#[test]
fn log_is_bounded_and_scrolls() {
    let mut t = tab();
    for i in 0..120u64 {
        t.handle_key('a', 0);
        t.handle_key('\n', i);
    }
    assert_eq!(t.line_count(), 100);
    assert_eq!(t.line_timestamp(0), 20);
    for _ in 0..200 {
        t.handle_key('\u{2191}', 0);
    }
    assert_eq!(t.scroll_offset(), 85);
    t.handle_key('\u{2193}', 0);
    assert_eq!(t.scroll_offset(), 84);
    assert_eq!(t.window(15), (1, 16));
    t.handle_key('C', 0);
    assert_eq!(t.line_count(), 0);
    assert_eq!(t.scroll_offset(), 0);
}

#[test]
fn long_lines_are_cut() {
    let mut t = tab();
    for _ in 0..40 {
        t.handle_key('k', 0);
    }
    t.handle_key('\n', 1_999);
    assert_eq!(t.line_text(0), "[01:99] TX> kkkkkkkkkkkkkkkkkkkkkkkkkkkk...");
}

#[test]
fn window_and_indicator() {
    let mut t = tab();
    assert_eq!(t.window(15), (0, 0));
    assert_eq!(t.scroll_indicator(15, 220), None);
    for i in 0..30u64 {
        t.handle_key('a', 0);
        t.handle_key('\n', i);
    }
    assert_eq!(t.window(15), (15, 30));
    assert_eq!(t.scroll_indicator(15, 220), Some(200));
    t.handle_key('\u{2191}', 0);
    t.handle_key('\u{2191}', 0);
    t.handle_key('\u{2191}', 0);
    assert_eq!(t.window(15), (12, 27));
    assert_eq!(t.scroll_indicator(15, 220), Some(160));
    assert_eq!(t.window(10), (17, 27));
}

#[test]
fn visible_lines_from_height() {
    assert_eq!(visible_line_count_for(300), 15);
    assert_eq!(visible_line_count_for(100), 5);
    assert_eq!(visible_line_count_for(8), 0);
    assert_eq!(visible_line_count_for(5), 0);
    assert_eq!(visible_line_count_for(-8), 15);
}

#[test]
fn selector_and_status_texts() {
    let mut t = tab();
    assert_eq!(t.mux_text(), "Mux:  Kernel   [Log]   App   115200 bd");
    assert_eq!(t.status_text(), "Status: Capturing");
    t.handle_key('m', 0);
    assert_eq!(t.mux_text(), "Mux:  Kernel    Log   [App]  115200 bd");
    t.handle_key('P', 0);
    assert_eq!(t.status_text(), "Status: PAUSED");
}

#[test]
fn pause_twice_restores() {
    let mut t = tab();
    t.handle_key('p', 0);
    t.handle_key('p', 0);
    assert!(!t.is_paused());
}

#[test]
fn uart_key_events() {
    let mut t = tab();
    assert_eq!(t.handle_key('p', 0), Some(UartEvent::PauseChanged(true)));
    assert_eq!(t.handle_key('P', 0), Some(UartEvent::PauseChanged(false)));
    assert_eq!(t.handle_key('C', 0), Some(UartEvent::Cleared));
    assert_eq!(t.handle_key('\n', 0), None);
    assert_eq!(t.handle_key('h', 0), None);
    assert_eq!(t.handle_key('\u{8}', 0), None);
    t.handle_key('m', 0);
    t.handle_key('m', 0);
    t.handle_key('A', 0);
    t.handle_key('T', 0);
    assert_eq!(
        t.handle_key('\n', 5),
        Some(UartEvent::Transmit { mux: UartMux::Kernel, data: String::from("AT") })
    );
    assert_eq!(t.tx_buffer(), "");
    assert_eq!(t.line_content(0), "TX> AT");
}

#[test]
fn indicator_on_low_log_box() {
    let mut t = tab();
    for i in 0..70u64 {
        t.handle_key('a', 0);
        t.handle_key('\n', i);
    }
    for _ in 0..54 {
        t.handle_key('\u{2191}', 0);
    }
    assert_eq!(t.scroll_indicator(15, 10), Some(((usize::MAX - 9) / 100) as isize));
    assert!(t.draws_on(Point { x: 320, y: 170 }));
    t.handle_key('\u{2193}', 0);
    assert!(!t.draws_on(Point { x: 320, y: 170 }));
    for _ in 0..2 {
        t.handle_key('\u{2191}', 0);
    }
    assert_eq!(t.scroll_offset(), 55);
    assert_eq!(t.scroll_indicator(15, 10), Some(0));
    assert!(t.draws_on(Point { x: 320, y: 170 }));
}
