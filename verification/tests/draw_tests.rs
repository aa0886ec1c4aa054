use hwtools::app::{AppState, HwToolsApp};
use hwtools::gpio_tab::GpioTab;
use hwtools::storage::Settings;
use hwtools::system_tab::{BatteryStats, SystemReadings, SystemTab};
use hwtools::uart_tab::UartTab;
use hwtools::ui::{DrawCmd, DrawStyle, GlyphStyle, PixelColor, Point, Rect};

const SCREEN: Point = Point { x: 336, y: 536 };

fn texts(cmds: &[DrawCmd]) -> Vec<String> {
    cmds.iter()
        .filter_map(|c| match c {
            DrawCmd::Text { text, .. } => Some(text.clone()),
            _ => None,
        })
        .collect()
}

fn none() -> SystemReadings {
    SystemReadings {
        batt_stats: None,
        charging: None,
        ec_uptime: None,
        ec_git_rev: None,
        ec_sw_tag: None,
        soc_git_rev: None,
        soc_dna: None,
        adc_vbus: None,
        adc_temp: None,
        adc_vccint: None,
        adc_vccaux: None,
        gyro: None,
    }
}

#[test]
fn system_layout_without_readings() {
    let cmds = SystemTab::new().draw(SCREEN);
    assert_eq!(cmds.len(), 3 + 2 + 5 * 2 + 5 * 2);
    let t = texts(&cmds);
    assert_eq!(t[0], "BATTERY");
    assert_eq!(t[1], "Status:");
    assert_eq!(t[2], "unavailable");
    assert_eq!(t[3], "SYSTEM");
    assert_eq!(t[4], "EC Uptime:");
    assert_eq!(t[5], "N/A");
    match &cmds[0] {
        DrawCmd::Text { bounds, glyph, clear, .. } => {
            assert_eq!(*bounds, Rect { x0: 15, y0: 45, x1: 321, y1: 63 });
            assert_eq!(*glyph, GlyphStyle::Bold);
            assert!(*clear);
        }
        _ => panic!("header expected"),
    }
}

#[test]
fn system_layout_with_battery() {
    let mut tab = SystemTab::new();
    let mut r = none();
    r.batt_stats = Some(BatteryStats { voltage: 4100, soc: 50, current: 10, remaining_capacity: 900 });
    tab.refresh(r);
    let cmds = tab.draw(SCREEN);
    assert_eq!(cmds.len(), 1 + 4 * 2 + 2 + 1 + 5 * 2 + 1 + 5 * 2);
    let t = texts(&cmds);
    assert_eq!(t[2], "4.10 V");
    assert_eq!(t[4], "50%");
    assert_eq!(t[6], "+10 mA");
    match &cmds[6] {
        DrawCmd::Rectangle { bounds, style } => {
            assert_eq!(*bounds, Rect { x0: 187, y0: 89, x1: 245, y1: 97 });
            assert_eq!(*style, DrawStyle { fill: Some(PixelColor::Dark), stroke: Some(PixelColor::Dark), width: 0 });
        }
        _ => panic!("progress fill expected"),
    }
}

#[test]
fn gpio_layout_rows() {
    let tab = GpioTab::new(&Settings::default());
    let cmds = tab.draw(SCREEN);
    assert_eq!(cmds.len(), 3 + 1 + 8 + 2);
    let t = texts(&cmds);
    assert_eq!(t[1], "Pin   Dir    Out   In    ADC");
    assert_eq!(t[2], "  0   IN     -     ?   -");
    assert_eq!(t[9], "  7   IN     -     ?   -");
    match &cmds[3] {
        DrawCmd::Rectangle { bounds, .. } => assert_eq!(*bounds, Rect { x0: 20, y0: 93, x1: 316, y1: 111 }),
        _ => panic!("highlight expected"),
    }
    match &cmds[4] {
        DrawCmd::Text { invert, glyph, .. } => {
            assert!(*invert);
            assert_eq!(*glyph, GlyphStyle::Monospace);
        }
        _ => panic!("row expected"),
    }
}

#[test]
fn uart_layout_lines() {
    let mut tab = UartTab::new(&Settings::default());
    tab.refresh(61_500);
    let cmds = tab.draw(SCREEN);
    let t = texts(&cmds);
    assert_eq!(t[0], "UART MONITOR");
    assert_eq!(t[1], "Mux:  Kernel   [Log]   App   115200 bd");
    assert_eq!(t[2], "Status: Capturing");
    assert_eq!(t[3], "[01:50] (UART monitor active - see hardw...");
    assert_eq!(t[4], "TX: (type to send)");
    match cmds.last().unwrap() {
        DrawCmd::Text { bounds, border, margin, .. } => {
            assert_eq!(*bounds, Rect { x0: 15, y0: 461, x1: 321, y1: 481 });
            assert!(*border);
            assert_eq!(*margin, Some(Point { x: 4, y: 2 }));
        }
        _ => panic!("tx field expected"),
    }
}

#[test]
fn uart_layout_scroll_indicator() {
    let mut tab = UartTab::new(&Settings::default());
    for i in 0..20u64 {
        tab.handle_key('x', 0);
        tab.handle_key('\n', i * 1000);
    }
    let cmds = tab.draw(SCREEN);
    let t = texts(&cmds);
    assert_eq!(t.len(), 3 + 15 + 1 + 1);
    assert_eq!(t[3], "[05:00] TX> x");
    assert_eq!(t[18], "\u{25BC}");
}

#[test]
fn full_redraw_layout() {
    let mut s = Settings::default();
    s.last_tab = 1;
    let app = HwToolsApp::new(s);
    assert_eq!(app.state(), AppState::Gpio);
    let cmds = app.full_redraw(SCREEN);
    match &cmds[0] {
        DrawCmd::Rectangle { bounds, style } => {
            assert_eq!(*bounds, Rect { x0: 0, y0: 0, x1: 336, y1: 536 });
            assert_eq!(style.stroke, None);
        }
        _ => panic!("clear expected"),
    }
    let t = texts(&cmds);
    assert_eq!(t[0], "1.System");
    assert_eq!(t[1], "2.GPIO");
    assert_eq!(t[2], "3.UART");
    assert_eq!(t.last().unwrap(), "0-7:Toggle  i/o:Dir  \u{2191}\u{2193}:Select  q:Quit");
    match &cmds[3] {
        DrawCmd::RoundedRectangle { bounds, style, radius } => {
            assert_eq!(*bounds, Rect { x0: 118, y0: 5, x1: 218, y1: 27 });
            assert_eq!(style.fill, Some(PixelColor::Dark));
            assert_eq!(*radius, 4);
        }
        _ => panic!("tab expected"),
    }
    let content = app.redraw(SCREEN);
    assert_eq!(content.len(), 1 + 3 + 1 + 8 + 2);
}

#[test]
fn uart_layout_small_screen() {
    let small = Point { x: 200, y: 100 };
    let mut tab = UartTab::new(&Settings::default());
    assert!(tab.draws_on(small));
    let t = texts(&tab.draw(small));
    assert_eq!(t, vec!["UART MONITOR", "Mux:  Kernel   [Log]   App   115200 bd", "Status: Capturing", "TX: (type to send)"]);
    let low = Point { x: 200, y: 150 };
    for i in 0..16u64 {
        tab.handle_key('x', 0);
        tab.handle_key('\n', i * 1000);
    }
    assert!(!tab.draws_on(low));
    assert!(!tab.draws_on(Point { x: 200, y: 200 }));
    tab.handle_key('\u{2191}', 0);
    assert!(tab.draws_on(low));
    let cmds = tab.draw(low);
    let t = texts(&cmds);
    assert_eq!(t.len(), 3 + 15 + 1 + 1);
    assert_eq!(t[3], "[00:00] TX> x");
    match &cmds[cmds.len() - 2] {
        DrawCmd::Text { bounds, text, .. } => {
            assert_eq!(text, "\u{25BC}");
            assert_eq!(*bounds, Rect { x0: 170, y0: 110, x1: 180, y1: 122 });
        }
        _ => panic!("indicator expected"),
    }
}
