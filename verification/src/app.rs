//! The application: which tab is shown, the settings, the three tabs, and
//! the routing of key presses and refreshes between them.

use vstd::prelude::*;
use crate::gpio_tab::{GpioEvent, GpioState, GpioTab, masks_saved, restored_state};
use crate::storage::{Settings, encoded};
use crate::system_tab::{SystemReadings, SystemTab, after_refresh, no_readings};
use crate::uart_tab::{UartEvent, UartEventView, UartState, UartTab, initial_state, mux_of_code};
use crate::text::{dec, push_char, push_dec, push_str};
use crate::ui::{
    DrawCmd, DrawItem, DrawStyle, GlyphStyle, PixelColor, Point, Rect, clear_screen,
    clear_screen_item, item_fill, item_inverted, item_text, items, plain_text, push_cmd, push_styled_rect, push_text, rect, screen_fits, style,
    styled_rect, string_of,
};

verus! {

/// The tab shown.
#[derive(Debug, Clone, Copy, PartialEq, Eq, Structural)]
pub enum AppState {
    System,
    Gpio,
    Uart,
}

/// Key for "next tab".
pub open spec fn key_right() -> char {
    '\u{2192}'
}

/// Key for "previous tab".
pub open spec fn key_left() -> char {
    '\u{2190}'
}

impl AppState {
    /// The tab's code in the settings: 0, 1, 2 in tab order.
    pub open spec fn code(self) -> u8 {
        match self {
            AppState::System => 0,
            AppState::Gpio => 1,
            AppState::Uart => 2,
        }
    }

    /// The tab a settings code names; System for an unknown code.
    pub open spec fn of_code(v: u8) -> AppState {
        if v == 1 {
            AppState::Gpio
        } else if v == 2 {
            AppState::Uart
        } else {
            AppState::System
        }
    }

    /// The next tab, wrapping from the last to the first.
    pub open spec fn next_tab(self) -> AppState {
        match self {
            AppState::System => AppState::Gpio,
            AppState::Gpio => AppState::Uart,
            AppState::Uart => AppState::System,
        }
    }

    /// The previous tab, wrapping from the first to the last.
    pub open spec fn prev_tab(self) -> AppState {
        match self {
            AppState::System => AppState::Uart,
            AppState::Gpio => AppState::System,
            AppState::Uart => AppState::Gpio,
        }
    }

    /// The tab's label.
    pub open spec fn label_text(self) -> Seq<char> {
        match self {
            AppState::System => "System"@,
            AppState::Gpio => "GPIO"@,
            AppState::Uart => "UART"@,
        }
    }

    /// The key help line shown under the tab.
    pub open spec fn help_line(self) -> Seq<char> {
        match self {
            AppState::System => "r:Refresh  1/2/3:Tab  q:Quit"@,
            AppState::Gpio => "0-7:Toggle  i/o:Dir  \u{2191}\u{2193}:Select  q:Quit"@,
            AppState::Uart => "c:Clear  p:Pause  m:Mux  q:Quit"@,
        }
    }

    /// The tab's caption in the tab bar: its number (from 1) and its label.
    pub open spec fn caption_text(self) -> Seq<char> {
        dec((self.code() + 1) as nat) + "."@ + self.label_text()
    }

    /// The tab named by a settings code; System for an unknown code.
    pub fn from_u8(v: u8) -> (s: AppState)
        ensures
            s == AppState::of_code(v),
    {
        match v {
            0 => AppState::System,
            1 => AppState::Gpio,
            2 => AppState::Uart,
            _ => AppState::System,
        }
    }

    /// The tab's settings code.
    pub fn to_u8(self) -> (v: u8)
        ensures
            v == self.code(),
    {
        match self {
            AppState::System => 0,
            AppState::Gpio => 1,
            AppState::Uart => 2,
        }
    }

    /// The next tab.
    pub fn next(self) -> (s: AppState)
        ensures
            s == self.next_tab(),
    {
        match self {
            AppState::System => AppState::Gpio,
            AppState::Gpio => AppState::Uart,
            AppState::Uart => AppState::System,
        }
    }

    /// The previous tab.
    pub fn prev(self) -> (s: AppState)
        ensures
            s == self.prev_tab(),
    {
        match self {
            AppState::System => AppState::Uart,
            AppState::Gpio => AppState::System,
            AppState::Uart => AppState::Gpio,
        }
    }

    /// The tab's label.
    pub fn label(self) -> (l: &'static str)
        ensures
            l@ == self.label_text(),
    {
        match self {
            AppState::System => "System",
            AppState::Gpio => "GPIO",
            AppState::Uart => "UART",
        }
    }

    /// The key help line of the tab.
    pub fn help_text(self) -> (h: &'static str)
        ensures
            h@ == self.help_line(),
    {
        match self {
            AppState::System => "r:Refresh  1/2/3:Tab  q:Quit",
            AppState::Gpio => "0-7:Toggle  i/o:Dir  \u{2191}\u{2193}:Select  q:Quit",
            AppState::Uart => "c:Clear  p:Pause  m:Mux  q:Quit",
        }
    }

    /// The tab's caption in the tab bar, `2.GPIO`.
    pub fn caption(self) -> (c: String)
        ensures
            c@ == self.caption_text(),
    {
        let mut c = String::new();
        push_dec(&mut c, self.to_u8() as u64 + 1);
        push_char(&mut c, '.');
        push_str(&mut c, self.label());
        proof {
            reveal_strlit(".");
        }
        assert(c@ =~= self.caption_text());
        c
    }
}

/// Reading a tab's code back gives the tab.
pub proof fn lemma_tab_code_roundtrip(s: AppState)
    ensures
        AppState::of_code(s.code()) == s,
        s.code() < 3,
{
}

/// Next and previous undo each other, and three steps either way come back
/// to the same tab.
pub proof fn lemma_tab_cycle(s: AppState)
    ensures
        s.next_tab().prev_tab() == s,
        s.prev_tab().next_tab() == s,
        s.next_tab().next_tab().next_tab() == s,
        s.prev_tab().prev_tab().prev_tab() == s,
{
}

/// What the caller is to do after a key press.
#[derive(Debug, Clone, PartialEq, Eq)]
pub enum KeyOutcome {
    /// Quit the application.
    Quit,
    /// Nothing more.
    Handled,
    /// Another tab is shown: refresh its data and redraw the whole screen.
    TabSwitched,
    /// Read the system telemetry again.
    RefreshSystem,
    /// The GPIO tab reports this.
    Gpio(GpioEvent),
    /// The UART tab reports this, or asks for it to be done.
    Uart(UartEvent),
}

/// A [`KeyOutcome`] as a mathematical value.
pub enum KeyOutcomeView {
    Quit,
    Handled,
    TabSwitched,
    RefreshSystem,
    Gpio(GpioEvent),
    Uart(UartEventView),
}

impl View for KeyOutcome {
    type V = KeyOutcomeView;

    open spec fn view(&self) -> KeyOutcomeView {
        match self {
            KeyOutcome::Quit => KeyOutcomeView::Quit,
            KeyOutcome::Handled => KeyOutcomeView::Handled,
            KeyOutcome::TabSwitched => KeyOutcomeView::TabSwitched,
            KeyOutcome::RefreshSystem => KeyOutcomeView::RefreshSystem,
            KeyOutcome::Gpio(e) => KeyOutcomeView::Gpio(*e),
            KeyOutcome::Uart(e) => KeyOutcomeView::Uart(e@),
        }
    }
}

/// What a refresh of the shown tab needs from the hardware.
#[derive(Debug, Clone, Copy, PartialEq, Eq, Structural)]
pub enum RefreshRequest {
    /// A round of system telemetry.
    System,
    /// Apply this direction mask to the GPIO pins, then read the ADC of pins 2 and 5.
    Gpio { direction_mask: u8 },
    /// The current time.
    Uart,
}

/// What the hardware gave for a refresh.
#[derive(Debug, Clone, Copy)]
pub enum TabReadings {
    System(SystemReadings),
    Gpio { adc_gpio2: Option<u16>, adc_gpio5: Option<u16> },
    Uart { now_ms: u64 },
}

/// The application's state.
pub struct HwToolsApp {
    state: AppState,
    settings: Settings,
    system_tab: SystemTab,
    gpio_tab: GpioTab,
    uart_tab: UartTab,
}

/// What a [`HwToolsApp`] holds, as mathematical values.
pub struct AppModel {
    pub state: AppState,
    pub settings: Settings,
    pub system: SystemReadings,
    pub gpio: GpioState,
    pub uart: UartState,
}

impl AppModel {
    /// The tabs are valid and the settings name the tab shown.
    pub open spec fn valid(self) -> bool {
        &&& self.gpio.valid()
        &&& self.uart.valid()
        &&& AppState::of_code(self.settings.last_tab) == self.state
    }

    /// The application as a session starts with `settings`.
    pub open spec fn initial(settings: Settings) -> AppModel {
        AppModel {
            state: AppState::of_code(settings.last_tab),
            settings,
            system: no_readings(),
            gpio: restored_state(settings),
            uart: initial_state(settings),
        }
    }

    /// The application after switching to tab `target`: nothing changes when
    /// it is already shown.
    pub open spec fn switched(self, target: AppState) -> AppModel {
        if target != self.state {
            AppModel {
                state: target,
                settings: Settings { last_tab: target.code(), ..self.settings },
                ..self
            }
        } else {
            self
        }
    }

    /// The tab a global key selects, if the key is one.
    pub open spec fn tab_key(self, key: char) -> Option<AppState> {
        if key == '1' {
            Some(AppState::System)
        } else if key == '2' {
            Some(AppState::Gpio)
        } else if key == '3' {
            Some(AppState::Uart)
        } else if key == key_right() {
            Some(self.state.next_tab())
        } else if key == key_left() {
            Some(self.state.prev_tab())
        } else {
            None
        }
    }

    /// The application after a key press at time `now_ms`: `q` quits and
    /// changes nothing, digits 1 to 3 and the arrows left and right switch
    /// tabs, other keys go to the tab shown.
    pub open spec fn after_key(self, key: char, now_ms: u64) -> AppModel {
        if key == 'q' || key == 'Q' {
            self
        } else if self.tab_key(key) is Some {
            self.switched(self.tab_key(key).unwrap())
        } else {
            match self.state {
                AppState::System => self,
                AppState::Gpio => AppModel { gpio: self.gpio.after_key(key), ..self },
                AppState::Uart => AppModel { uart: self.uart.after_key(key, now_ms), ..self },
            }
        }
    }

    /// What the caller is to do after a key press.
    pub open spec fn key_outcome(self, key: char) -> KeyOutcomeView {
        if key == 'q' || key == 'Q' {
            KeyOutcomeView::Quit
        } else if self.tab_key(key) is Some {
            if self.tab_key(key).unwrap() != self.state {
                KeyOutcomeView::TabSwitched
            } else {
                KeyOutcomeView::Handled
            }
        } else {
            match self.state {
                AppState::System => if key == 'r' || key == 'R' {
                    KeyOutcomeView::RefreshSystem
                } else {
                    KeyOutcomeView::Handled
                },
                AppState::Gpio => match self.gpio.key_event(key) {
                    Some(e) => KeyOutcomeView::Gpio(e),
                    None => KeyOutcomeView::Handled,
                },
                AppState::Uart => match self.uart.key_event(key) {
                    Some(e) => KeyOutcomeView::Uart(e),
                    None => KeyOutcomeView::Handled,
                },
            }
        }
    }

    /// The application after readings for a refresh: they go to the tab they
    /// are for when it is the one shown, and are dropped otherwise.
    pub open spec fn after_refresh(self, readings: TabReadings) -> AppModel {
        match readings {
            TabReadings::System(r) => if self.state == AppState::System {
                AppModel { system: after_refresh(self.system, r), ..self }
            } else {
                self
            },
            TabReadings::Gpio { adc_gpio2, adc_gpio5 } => if self.state == AppState::Gpio {
                AppModel { gpio: self.gpio.after_refresh(adc_gpio2, adc_gpio5), ..self }
            } else {
                self
            },
            TabReadings::Uart { now_ms } => if self.state == AppState::Uart {
                AppModel { uart: self.uart.after_refresh(now_ms), ..self }
            } else {
                self
            },
        }
    }

    /// Whether `saved` is these settings with the GPIO masks and the UART mux
    /// of the tabs written in.
    pub open spec fn saves_into(self, saved: Settings) -> bool {
        &&& saved.last_tab == self.settings.last_tab
        &&& saved.auto_refresh == self.settings.auto_refresh
        &&& saved.refresh_interval_ms == self.settings.refresh_interval_ms
        &&& saved.uart_mux == self.uart.mux
        &&& masks_saved(self.gpio, saved)
    }
}

impl View for HwToolsApp {
    type V = AppModel;

    closed spec fn view(&self) -> AppModel {
        AppModel {
            state: self.state,
            settings: self.settings,
            system: self.system_tab@,
            gpio: self.gpio_tab@,
            uart: self.uart_tab@,
        }
    }
}

impl HwToolsApp {
    /// The application's invariant, see [`AppModel::valid`].
    pub open spec fn wf(&self) -> bool {
        self@.valid()
    }

    /// The application as a session starts with `settings`: the tab stored
    /// last, GPIO and UART as stored, no telemetry yet.
    pub fn new(settings: Settings) -> (app: HwToolsApp)
        ensures
            app.wf(),
            app@ == AppModel::initial(settings),
    {
        let state = AppState::from_u8(settings.last_tab);
        let system_tab = SystemTab::new();
        let gpio_tab = GpioTab::new(&settings);
        let uart_tab = UartTab::new(&settings);
        HwToolsApp { state, settings, system_tab, gpio_tab, uart_tab }
    }

    /// The tab shown.
    pub fn state(&self) -> (s: AppState)
        ensures
            s == self@.state,
    {
        self.state
    }

    /// The settings.
    pub fn settings(&self) -> (s: &Settings)
        ensures
            *s == self@.settings,
    {
        &self.settings
    }

    /// The system tab.
    pub fn system_tab(&self) -> (t: &SystemTab)
        ensures
            t@ == self@.system,
    {
        &self.system_tab
    }

    /// The GPIO tab.
    pub fn gpio_tab(&self) -> (t: &GpioTab)
        ensures
            t@ == self@.gpio,
    {
        &self.gpio_tab
    }

    /// The UART tab.
    pub fn uart_tab(&self) -> (t: &UartTab)
        ensures
            t@ == self@.uart,
    {
        &self.uart_tab
    }

    /// What refreshing the shown tab needs from the hardware.
    pub fn refresh_request(&self) -> (r: RefreshRequest)
        ensures
            match self@.state {
                AppState::System => r == RefreshRequest::System,
                AppState::Gpio => r matches RefreshRequest::Gpio { direction_mask } && forall|i: nat|
                    i < 8 ==> crate::gpio_tab::bit_set(direction_mask, i) == (self@.gpio.directions[i as int]
                        == crate::gpio_tab::PinDirection::Output),
                AppState::Uart => r == RefreshRequest::Uart,
            },
    {
        match self.state {
            AppState::System => RefreshRequest::System,
            AppState::Gpio => RefreshRequest::Gpio { direction_mask: self.gpio_tab.direction_mask() },
            AppState::Uart => RefreshRequest::Uart,
        }
    }

    /// Refreshes the shown tab with what the hardware gave.
    pub fn refresh_data(&mut self, readings: TabReadings)
        requires
            old(self).wf(),
        ensures
            final(self).wf(),
            final(self)@ == old(self)@.after_refresh(readings),
    {
        match readings {
            TabReadings::System(r) => {
                if self.state == AppState::System {
                    self.system_tab.refresh(r);
                }
            },
            TabReadings::Gpio { adc_gpio2, adc_gpio5 } => {
                if self.state == AppState::Gpio {
                    self.gpio_tab.refresh(adc_gpio2, adc_gpio5);
                }
            },
            TabReadings::Uart { now_ms } => {
                if self.state == AppState::Uart {
                    self.uart_tab.refresh(now_ms);
                }
            },
        }
    }

    fn switch_tab(&mut self, new_state: AppState) -> (outcome: KeyOutcome)
        requires
            old(self).wf(),
        ensures
            final(self).wf(),
            final(self)@ == old(self)@.switched(new_state),
            outcome@ == if new_state != old(self)@.state {
                KeyOutcomeView::TabSwitched
            } else {
                KeyOutcomeView::Handled
            },
    {
        if new_state != self.state {
            self.state = new_state;
            self.settings.last_tab = new_state.to_u8();
            KeyOutcome::TabSwitched
        } else {
            KeyOutcome::Handled
        }
    }

    /// Handles a key press at time `now_ms`.
    pub fn handle_key(&mut self, key: char, now_ms: u64) -> (outcome: KeyOutcome)
        requires
            old(self).wf(),
        ensures
            final(self).wf(),
            final(self)@ == old(self)@.after_key(key, now_ms),
            outcome@ == old(self)@.key_outcome(key),
    {
        if key == 'q' || key == 'Q' {
            return KeyOutcome::Quit;
        }
        if key == '1' {
            return self.switch_tab(AppState::System);
        }
        if key == '2' {
            return self.switch_tab(AppState::Gpio);
        }
        if key == '3' {
            return self.switch_tab(AppState::Uart);
        }
        if key == '\u{2192}' {
            let target = self.state.next();
            return self.switch_tab(target);
        }
        if key == '\u{2190}' {
            let target = self.state.prev();
            return self.switch_tab(target);
        }
        match self.state {
            AppState::System => {
                if self.system_tab.handle_key(key) {
                    KeyOutcome::RefreshSystem
                } else {
                    KeyOutcome::Handled
                }
            },
            AppState::Gpio => {
                match self.gpio_tab.handle_key(key) {
                    Some(e) => KeyOutcome::Gpio(e),
                    None => KeyOutcome::Handled,
                }
            },
            AppState::Uart => {
                match self.uart_tab.handle_key(key, now_ms) {
                    Some(e) => KeyOutcome::Uart(e),
                    None => KeyOutcome::Handled,
                }
            },
        }
    }

    /// Writes the GPIO masks and the UART mux into the settings and returns
    /// the record to store.
    pub fn save_settings(&mut self) -> (record: Vec<u8>)
        requires
            old(self).wf(),
        ensures
            final(self).wf(),
            old(self)@.saves_into(final(self)@.settings),
            final(self)@ == (AppModel { settings: final(self)@.settings, ..old(self)@ }),
            record@ == encoded(final(self)@.settings),
    {
        self.gpio_tab.save_to_settings(&mut self.settings);
        self.uart_tab.save_to_settings(&mut self.settings);
        self.settings.to_bytes()
    }
}

/// What the tab header of tab `t` draws while `state` is shown: a rounded
/// box, dark for the shown tab, with the tab's caption, inverted when shown.
pub open spec fn tab_items(t: AppState, state: AppState) -> Seq<DrawItem> {
    let x = 10 + 108 * (t.code() as int);
    let selected = t == state;
    seq![
        DrawItem::RoundedRectangle {
            bounds: rect(x, 5, x + 100, 27),
            style: if selected {
                style(PixelColor::Dark, PixelColor::Dark, 1)
            } else {
                style(PixelColor::Light, PixelColor::Dark, 1)
            },
            radius: 4,
        },
        plain_text(rect(x + 4, 8, x + 96, 25), GlyphStyle::Small, t.caption_text(), false, selected),
    ]
}

/// The tab bar.
pub open spec fn tab_bar_items(state: AppState) -> Seq<DrawItem> {
    tab_items(AppState::System, state) + tab_items(AppState::Gpio, state) + tab_items(
        AppState::Uart,
        state,
    )
}

/// The content area: cleared, then the shown tab.
pub open spec fn content_items(m: AppModel, screen: Point) -> Seq<DrawItem> {
    seq![
        styled_rect(
            rect(5, 35, screen.x - 5, screen.y - 35),
            PixelColor::Light,
            PixelColor::Light,
            0,
        ),
    ] + match m.state {
        AppState::System => crate::system_tab::system_layout(m.system, screen),
        AppState::Gpio => crate::gpio_tab::gpio_layout(m.gpio, screen),
        AppState::Uart => crate::uart_tab::uart_layout(m.uart, screen),
    }
}

/// The help area at the bottom: cleared, then the shown tab's key help.
pub open spec fn help_items(state: AppState, screen: Point) -> Seq<DrawItem> {
    let help_y = screen.y - 30;
    seq![
        styled_rect(rect(5, help_y, screen.x - 5, screen.y - 5), PixelColor::Light, PixelColor::Light, 0),
        plain_text(
            rect(10, help_y + 2, screen.x - 10, screen.y - 5),
            GlyphStyle::Small,
            state.help_line(),
            false,
            false,
        ),
    ]
}

/// The whole screen: cleared, tab bar, content, help.
pub open spec fn full_redraw_items(m: AppModel, screen: Point) -> Seq<DrawItem> {
    seq![clear_screen_item(screen)] + tab_bar_items(m.state) + content_items(m, screen) + help_items(
        m.state,
        screen,
    )
}

fn append_cmds(cmds: &mut Vec<DrawCmd>, more: Vec<DrawCmd>)
    ensures
        items(final(cmds)@) == items(old(cmds)@) + items(more@),
{
    let ghost before = cmds@;
    let mut more = more;
    let ghost added = more@;
    cmds.append(&mut more);
    assert(items(cmds@) =~= items(before) + items(added));
}

impl HwToolsApp {
    fn draw_tabs(&self, cmds: &mut Vec<DrawCmd>)
        ensures
            items(final(cmds)@) == items(old(cmds)@) + tab_bar_items(self@.state),
    {
        let ghost before = items(cmds@);
        let tabs: [AppState; 3] = [AppState::System, AppState::Gpio, AppState::Uart];
        let mut i: usize = 0;
        while i < 3
            invariant
                i <= 3,
                tabs@ == seq![AppState::System, AppState::Gpio, AppState::Uart],
                i == 0 ==> items(cmds@) == before,
                i == 1 ==> items(cmds@) == before + tab_items(AppState::System, self@.state),
                i == 2 ==> items(cmds@) == before + tab_items(AppState::System, self@.state)
                    + tab_items(AppState::Gpio, self@.state),
                i == 3 ==> items(cmds@) == before + tab_bar_items(self@.state),
            decreases 3 - i,
        {
            let ghost prev = items(cmds@);
            let t = tabs[i];
            let x: isize = 10 + (t.to_u8() as isize) * 108;
            let selected = t == self.state;
            let fill = if selected {
                PixelColor::Dark
            } else {
                PixelColor::Light
            };
            push_cmd(
                cmds,
                DrawCmd::RoundedRectangle {
                    bounds: Rect { x0: x, y0: 5, x1: x + 100, y1: 27 },
                    style: DrawStyle { fill: Some(fill), stroke: Some(PixelColor::Dark), width: 1 },
                    radius: 4,
                },
            );
            push_text(
                cmds,
                Rect { x0: x + 4, y0: 8, x1: x + 96, y1: 25 },
                GlyphStyle::Small,
                t.caption(),
                false,
                selected,
            );
            assert(items(cmds@) =~= prev + tab_items(t, self@.state));
            i = i + 1;
        }
    }

    fn draw_content(&self, cmds: &mut Vec<DrawCmd>, screen: Point)
        requires
            self.wf(),
            screen_fits(screen),
            self@.state == AppState::Uart ==> self@.uart.draws_on(screen),
        ensures
            items(final(cmds)@) == items(old(cmds)@) + content_items(self@, screen),
    {
        let ghost before = items(cmds@);
        push_styled_rect(
            cmds,
            Rect { x0: 5, y0: 35, x1: screen.x - 5, y1: screen.y - 35 },
            PixelColor::Light,
            PixelColor::Light,
            0,
        );
        let tab = match self.state {
            AppState::System => self.system_tab.draw(screen),
            AppState::Gpio => self.gpio_tab.draw(screen),
            AppState::Uart => self.uart_tab.draw(screen),
        };
        append_cmds(cmds, tab);
        assert(items(cmds@) =~= before + content_items(self@, screen));
    }

    fn draw_help(&self, cmds: &mut Vec<DrawCmd>, screen: Point)
        requires
            screen_fits(screen),
        ensures
            items(final(cmds)@) == items(old(cmds)@) + help_items(self@.state, screen),
    {
        let ghost before = items(cmds@);
        let help_y = screen.y - 30;
        push_styled_rect(
            cmds,
            Rect { x0: 5, y0: help_y, x1: screen.x - 5, y1: screen.y - 5 },
            PixelColor::Light,
            PixelColor::Light,
            0,
        );
        push_text(
            cmds,
            Rect { x0: 10, y0: help_y + 2, x1: screen.x - 10, y1: screen.y - 5 },
            GlyphStyle::Small,
            string_of(self.state.help_text()),
            false,
            false,
        );
        assert(items(cmds@) =~= before + help_items(self@.state, screen));
    }

    /// Everything to draw for a full redraw on a screen of size `screen`:
    /// the screen cleared, the tab bar, the shown tab and the key help.
    pub fn full_redraw(&self, screen: Point) -> (cmds: Vec<DrawCmd>)
        requires
            self.wf(),
            screen_fits(screen),
            self@.state == AppState::Uart ==> self@.uart.draws_on(screen),
        ensures
            items(cmds@) == full_redraw_items(self@, screen),
    {
        let mut cmds: Vec<DrawCmd> = Vec::new();
        clear_screen(&mut cmds, screen);
        self.draw_tabs(&mut cmds);
        self.draw_content(&mut cmds, screen);
        self.draw_help(&mut cmds, screen);
        assert(items(cmds@) =~= full_redraw_items(self@, screen));
        cmds
    }

    /// Everything to draw for a redraw of the content area.
    pub fn redraw(&self, screen: Point) -> (cmds: Vec<DrawCmd>)
        requires
            self.wf(),
            screen_fits(screen),
            self@.state == AppState::Uart ==> self@.uart.draws_on(screen),
        ensures
            items(cmds@) == content_items(self@, screen),
    {
        let mut cmds: Vec<DrawCmd> = Vec::new();
        self.draw_content(&mut cmds, screen);
        assert(items(cmds@) =~= content_items(self@, screen));
        cmds
    }
}

/// Restarting the application from the settings it saved shows the same tab,
/// the same GPIO directions and levels and the same UART mux.
pub proof fn lemma_session_restore(m: AppModel, saved: Settings)
    requires
        m.valid(),
        m.saves_into(saved),
    ensures
        AppModel::initial(crate::storage::decoded(encoded(saved))).state == m.state,
        AppModel::initial(crate::storage::decoded(encoded(saved))).gpio.directions == m.gpio.directions,
        AppModel::initial(crate::storage::decoded(encoded(saved))).gpio.outputs == m.gpio.outputs,
        AppModel::initial(crate::storage::decoded(encoded(saved))).uart.mux == m.uart.mux,
        mux_of_code(AppModel::initial(crate::storage::decoded(encoded(saved))).uart.mux)
            == mux_of_code(m.uart.mux),
{
    crate::storage::lemma_settings_roundtrip(saved);
    crate::gpio_tab::lemma_gpio_settings_roundtrip(m.gpio, saved);
}

/// Pressing the key of the tab already shown changes nothing.
pub proof fn lemma_same_tab_key_noop(m: AppModel, key: char, now_ms: u64)
    requires
        m.tab_key(key) == Some(m.state),
        key != 'q' && key != 'Q',
    ensures
        m.after_key(key, now_ms) == m,
        m.key_outcome(key) == KeyOutcomeView::Handled,
{
}

/// Quitting changes nothing.
pub proof fn lemma_quit_keeps_state(m: AppModel, now_ms: u64)
    ensures
        m.after_key('q', now_ms) == m,
        m.key_outcome('q') == KeyOutcomeView::Quit,
        m.after_key('Q', now_ms) == m,
        m.key_outcome('Q') == KeyOutcomeView::Quit,
{
}

/// Whether items `1 + 2 * code` and `2 + 2 * code` of `l` draw the header of
/// tab `t` as a rounded box, dark when `shown` and light otherwise, with the
/// tab's caption on it, inverted exactly when `shown`.
pub open spec fn tab_drawn(l: Seq<DrawItem>, t: AppState, shown: bool) -> bool {
    let i = 1 + 2 * (t.code() as int);
    &&& i + 1 < l.len()
    &&& l[i] is RoundedRectangle
    &&& item_fill(l[i]) == Some(if shown {
        PixelColor::Dark
    } else {
        PixelColor::Light
    })
    &&& l[i + 1] is Text
    &&& item_text(l[i + 1]) == t.caption_text()
    &&& item_inverted(l[i + 1]) == shown
}

/// A full redraw draws the three tab headers right after clearing the
/// screen: the shown tab's box dark with its caption inverted, the other
/// boxes light with their captions plain, so that every caption stands out
/// from its box.
pub proof fn lemma_shown_tab_highlighted(m: AppModel, screen: Point)
    ensures
        tab_drawn(full_redraw_items(m, screen), AppState::System, m.state == AppState::System),
        tab_drawn(full_redraw_items(m, screen), AppState::Gpio, m.state == AppState::Gpio),
        tab_drawn(full_redraw_items(m, screen), AppState::Uart, m.state == AppState::Uart),
        forall|i: int|
            1 <= i <= 6 && (#[trigger] full_redraw_items(m, screen)[i]) is Text ==> (item_inverted(
                full_redraw_items(m, screen)[i],
            ) <==> item_fill(full_redraw_items(m, screen)[i - 1]) == Some(PixelColor::Dark)),
{
    let l = full_redraw_items(m, screen);
    let bar = tab_bar_items(m.state);
    assert(bar.len() == 6);
    assert forall|k: int| 0 <= k < 6 implies l[1 + k] == bar[k] by {}
}

} // verus!
