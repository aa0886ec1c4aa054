//! The UART monitor: mux selection, a bounded log of timestamped lines with
//! scrolling, and a transmit buffer typed on the keyboard.

use vstd::prelude::*;
use std::collections::VecDeque;
use crate::storage::Settings;
use crate::ui::{
    DrawCmd, DrawItem, GlyphStyle, PixelColor, Point, Rect, draw_section_header,
    items, plain_text, push_cmd, push_styled_rect, push_text, rect, screen_fits,
    section_header_item, string_of, styled_rect,
};
use crate::text::{dec, pad_left, pop_char, push_char, push_dec_padded, push_str};

verus! {

/// Most lines the log keeps; the oldest goes when another comes.
pub const MAX_LOG_LINES: usize = 100;

/// Most log lines the tab shows at once.
pub const VISIBLE_LINES: usize = 15;

/// Most characters the transmit buffer holds.
pub const TX_BUFFER_LIMIT: usize = 64;

/// Longest log line content shown whole; longer ones are cut to
/// `LOG_LINE_WIDTH - 3` characters followed by `...`.
pub const LOG_LINE_WIDTH: usize = 35;

/// Longest content of a log line: `TX> ` and a full transmit buffer.
pub const LOG_CONTENT_LIMIT: usize = 68;

/// Height of one log line on screen, in pixels.
pub const LOG_LINE_HEIGHT: isize = 16;

/// The UART routed to the serial port.
#[derive(Debug, Clone, Copy, PartialEq, Eq, Structural)]
pub enum UartMux {
    Kernel,
    Log,
    Application,
    Invalid,
}

/// The settings code of a mux: 0 Kernel, 1 Log, 2 Application; an invalid mux
/// is stored as Log.
pub open spec fn mux_code(mux: UartMux) -> u8 {
    match mux {
        UartMux::Kernel => 0,
        UartMux::Log => 1,
        UartMux::Application => 2,
        UartMux::Invalid => 1,
    }
}

/// The mux a settings code names; Log for any code but 0, 1 and 2.
pub open spec fn mux_of_code(v: u8) -> UartMux {
    if v == 0 {
        UartMux::Kernel
    } else if v == 1 {
        UartMux::Log
    } else if v == 2 {
        UartMux::Application
    } else {
        UartMux::Log
    }
}

/// The settings code of a mux.
pub fn uart_mux_to_u8(mux: UartMux) -> (v: u8)
    ensures
        v == mux_code(mux),
{
    match mux {
        UartMux::Kernel => 0,
        UartMux::Log => 1,
        UartMux::Application => 2,
        UartMux::Invalid => 1,
    }
}

/// The mux a settings code names.
pub fn u8_to_uart_mux(v: u8) -> (mux: UartMux)
    ensures
        mux == mux_of_code(v),
{
    match v {
        0 => UartMux::Kernel,
        1 => UartMux::Log,
        2 => UartMux::Application,
        _ => UartMux::Log,
    }
}

/// What a key press of the UART tab has to report or have done.
#[derive(Debug, Clone, PartialEq, Eq)]
pub enum UartEvent {
    /// The log was cleared.
    Cleared,
    /// Capture was paused (`true`) or resumed (`false`).
    PauseChanged(bool),
    /// This mux was selected and is to be routed on the hardware.
    MuxSet(UartMux),
    /// `data` is to be sent on the UART that `mux` selects.
    Transmit { mux: UartMux, data: String },
}

/// A [`UartEvent`] as a mathematical value.
pub enum UartEventView {
    Cleared,
    PauseChanged(bool),
    MuxSet(UartMux),
    Transmit { mux: UartMux, data: Seq<char> },
}

impl View for UartEvent {
    type V = UartEventView;

    open spec fn view(&self) -> UartEventView {
        match self {
            UartEvent::Cleared => UartEventView::Cleared,
            UartEvent::PauseChanged(p) => UartEventView::PauseChanged(*p),
            UartEvent::MuxSet(m) => UartEventView::MuxSet(*m),
            UartEvent::Transmit { mux, data } => UartEventView::Transmit { mux: *mux, data: data@ },
        }
    }
}

/// An optional [`UartEvent`] as a mathematical value.
pub open spec fn event_view(e: Option<UartEvent>) -> Option<UartEventView> {
    match e {
        Some(ev) => Some(ev@),
        None => None,
    }
}

/// A line of the log: when it was added and what it says.
pub struct LogLine {
    pub timestamp_ms: u64,
    pub content: String,
}

/// The tab's state.
pub struct UartTab {
    log_lines: VecDeque<LogLine>,
    current_mux_idx: u8,
    paused: bool,
    scroll_offset: usize,
    tx_buffer: String,
}

/// What a [`UartTab`] holds, as mathematical values.
pub struct UartState {
    /// The log, oldest first: timestamp in milliseconds and content.
    pub lines: Seq<(u64, Seq<char>)>,
    /// Index of the selected mux (0 Kernel, 1 Log, 2 Application).
    pub mux: u8,
    /// Whether capture is paused.
    pub paused: bool,
    /// How many lines the view is scrolled up from the newest.
    pub scroll: nat,
    /// The transmit buffer.
    pub tx: Seq<char>,
}

/// `a - b`, or 0 when `b` is larger.
pub open spec fn sat_sub(a: nat, b: nat) -> nat {
    if a > b {
        (a - b) as nat
    } else {
        0
    }
}

/// Whether `c` can be typed into the transmit buffer: a printable ASCII
/// character or a space.
pub open spec fn typable(c: char) -> bool {
    ' ' <= c <= '~'
}

/// Whether every character of `s` is ASCII.
pub open spec fn ascii(s: Seq<char>) -> bool {
    forall|i: int| 0 <= i < s.len() ==> '\0' <= #[trigger] s[i] <= '\u{7f}'
}

/// Key for "scroll up".
pub open spec fn key_up() -> char {
    '\u{2191}'
}

/// Key for "scroll down".
pub open spec fn key_down() -> char {
    '\u{2193}'
}

/// Key for "delete the last character".
pub open spec fn key_backspace() -> char {
    '\u{8}'
}

/// The line added while the log is empty and capture is running.
pub open spec fn placeholder_line() -> Seq<char> {
    "(UART monitor active - see hardware for actual data)"@
}

/// The label of mux index `i` in the mux selector.
pub open spec fn mux_name(i: nat) -> Seq<char> {
    if i == 0 {
        "Kernel"@
    } else if i == 1 {
        "Log"@
    } else {
        "App"@
    }
}

/// The rendering of a `[ss:cc]` time stamp: seconds within the minute and
/// hundredths of a second, both on two digits.
pub open spec fn time_text(ts: u64) -> Seq<char> {
    "["@ + pad_left(dec(((ts / 1000) % 60) as nat), 2, '0') + ":"@ + pad_left(
        dec(((ts % 1000) / 10) as nat),
        2,
        '0',
    ) + "]"@
}

/// The content of a log line as shown: whole if it fits, else its first
/// `LOG_LINE_WIDTH - 3` characters and `...`.
pub open spec fn shown_content(c: Seq<char>) -> Seq<char> {
    if c.len() > LOG_LINE_WIDTH {
        c.subrange(0, (LOG_LINE_WIDTH - 3) as int) + "..."@
    } else {
        c
    }
}

/// How many log lines fit in a box `log_height` pixels high, at most
/// [`VISIBLE_LINES`] (as the integer arithmetic of the tab computes it: a box
/// lower than 8 pixels by 16 or more wraps around to the maximum).
pub open spec fn visible_line_count(log_height: int) -> nat {
    let d = log_height - 8;
    if d >= 0 {
        if d / 16 < VISIBLE_LINES {
            (d / 16) as nat
        } else {
            VISIBLE_LINES as nat
        }
    } else if d > -16 {
        0
    } else {
        VISIBLE_LINES as nat
    }
}

impl UartState {
    /// At most [`MAX_LOG_LINES`] lines, all ASCII and at most
    /// [`LOG_CONTENT_LIMIT`] characters long; a valid mux index; a
    /// scroll offset within the lines beyond one screenful; a transmit buffer
    /// of at most [`TX_BUFFER_LIMIT`] typable characters.
    pub open spec fn valid(self) -> bool {
        &&& self.lines.len() <= MAX_LOG_LINES
        &&& forall|i: int| 0 <= i < self.lines.len() ==> ascii(#[trigger] self.lines[i].1)
        &&& forall|i: int| 0 <= i < self.lines.len() ==> (#[trigger] self.lines[i]).1.len() <= LOG_CONTENT_LIMIT
        &&& self.mux <= 2
        &&& self.scroll <= sat_sub(self.lines.len(), VISIBLE_LINES as nat)
        &&& self.tx.len() <= TX_BUFFER_LIMIT
        &&& forall|i: int| 0 <= i < self.tx.len() ==> typable(#[trigger] self.tx[i])
    }

    /// The state after adding a line at time `now_ms`: the oldest line goes
    /// when the log is full.
    pub open spec fn after_add(self, content: Seq<char>, now_ms: u64) -> UartState {
        let kept = if self.lines.len() >= MAX_LOG_LINES {
            self.lines.drop_first()
        } else {
            self.lines
        };
        UartState { lines: kept.push((now_ms, content)), ..self }
    }

    /// The state after a refresh at time `now_ms`: a placeholder line comes
    /// when the log is empty and capture runs.
    pub open spec fn after_refresh(self, now_ms: u64) -> UartState {
        if self.lines.len() == 0 && !self.paused {
            self.after_add(placeholder_line(), now_ms)
        } else {
            self
        }
    }

    /// The state a key press at time `now_ms` leaves.
    ///
    /// `c` clears the log, `p` toggles pause, `m` selects the next mux, up and
    /// down scroll, Enter moves a non-empty transmit buffer into the log as
    /// `TX> ...`, backspace deletes the last typed character, and another
    /// typable character is added to the buffer while it has room.
    pub open spec fn after_key(self, key: char, now_ms: u64) -> UartState {
        if key == 'c' || key == 'C' {
            UartState { lines: Seq::empty(), scroll: 0, ..self }
        } else if key == 'p' || key == 'P' {
            UartState { paused: !self.paused, ..self }
        } else if key == 'm' || key == 'M' {
            UartState { mux: ((self.mux + 1) % 3) as u8, ..self }
        } else if key == key_up() {
            if self.scroll < sat_sub(self.lines.len(), VISIBLE_LINES as nat) {
                UartState { scroll: self.scroll + 1, ..self }
            } else {
                self
            }
        } else if key == key_down() {
            if self.scroll > 0 {
                UartState { scroll: (self.scroll - 1) as nat, ..self }
            } else {
                self
            }
        } else if key == '\r' || key == '\n' {
            if self.tx.len() > 0 {
                UartState { tx: Seq::empty(), ..self.after_add("TX> "@ + self.tx, now_ms) }
            } else {
                self
            }
        } else if key == key_backspace() {
            if self.tx.len() > 0 {
                UartState { tx: self.tx.drop_last(), ..self }
            } else {
                self
            }
        } else if typable(key) {
            if self.tx.len() < TX_BUFFER_LIMIT {
                UartState { tx: self.tx.push(key), ..self }
            } else {
                self
            }
        } else {
            self
        }
    }

    /// What a key press reports: `c` that the log was cleared, `p` whether
    /// capture is now paused, `m` the newly selected mux, and Enter with a
    /// non-empty transmit buffer that the buffer is to be sent on the selected
    /// UART; other keys report nothing.
    pub open spec fn key_event(self, key: char) -> Option<UartEventView> {
        if key == 'c' || key == 'C' {
            Some(UartEventView::Cleared)
        } else if key == 'p' || key == 'P' {
            Some(UartEventView::PauseChanged(!self.paused))
        } else if key == 'm' || key == 'M' {
            Some(UartEventView::MuxSet(mux_of_code(((self.mux + 1) % 3) as u8)))
        } else if (key == '\r' || key == '\n') && self.tx.len() > 0 {
            Some(UartEventView::Transmit { mux: mux_of_code(self.mux), data: self.tx })
        } else {
            None
        }
    }

    /// The part of the mux selector that names mux `i`: bracketed when selected.
    pub open spec fn mux_part(self, i: nat) -> Seq<char> {
        if i == self.mux {
            "["@ + mux_name(i) + "]"@
        } else {
            " "@ + mux_name(i) + " "@
        }
    }

    /// The mux selector line.
    pub open spec fn mux_text(self) -> Seq<char> {
        "Mux: "@ + self.mux_part(0) + "  "@ + self.mux_part(1) + "  "@ + self.mux_part(2)
            + "  115200 bd"@
    }

    /// The transmit field: a prompt when empty, else the buffer and a cursor.
    pub open spec fn tx_text(self) -> Seq<char> {
        if self.tx.len() == 0 {
            "TX: (type to send)"@
        } else {
            "TX: "@ + self.tx + "_"@
        }
    }

    /// First log line shown when `visible` lines fit.
    pub open spec fn window_start(self, visible: nat) -> nat {
        if self.lines.len() > visible + self.scroll {
            (self.lines.len() - visible - self.scroll) as nat
        } else {
            0
        }
    }

    /// One past the last log line shown when `visible` lines fit.
    pub open spec fn window_end(self, visible: nat) -> nat {
        let e = self.window_start(visible) + visible;
        if self.lines.len() < e {
            self.lines.len()
        } else {
            e
        }
    }

    /// The text of log line `i` on screen: time stamp, space, content.
    pub open spec fn line_text(self, i: int) -> Seq<char> {
        time_text(self.lines[i].0) + " "@ + shown_content(self.lines[i].1)
    }

    /// Share of the lines beyond one screenful that lie above the view, in
    /// percent, when `visible` lines fit.
    pub open spec fn indicator_pct(self, visible: nat) -> nat {
        let above = (self.lines.len() - visible - self.scroll) as nat;
        above * 100 / ((self.lines.len() - visible) as nat)
    }

    /// Offset of the scroll indicator below the top of the log box, when the
    /// log is longer than what fits: [`indicator_pct`](Self::indicator_pct)
    /// of the indicator span.
    pub open spec fn scroll_indicator(self, visible: nat, log_height: int) -> Option<int> {
        if self.lines.len() > visible {
            Some(indicator_span(log_height) * self.indicator_pct(visible) / 100)
        } else {
            None
        }
    }

    /// Whether placing the scroll indicator overflows the machine word: the
    /// indicator is shown and its span times the percentage exceeds
    /// `usize::MAX` (which happens on a log box lower than 20 pixels once the
    /// percentage reaches 2).
    pub open spec fn indicator_overflows(self, visible: nat, log_height: int) -> bool {
        self.lines.len() > visible
            && indicator_span(log_height) * self.indicator_pct(visible) > usize::MAX
    }

    /// Whether the tab can be drawn on a screen of size `screen`: a screen
    /// within the layout bounds on which placing the scroll indicator does
    /// not overflow.
    pub open spec fn draws_on(self, screen: Point) -> bool {
        let log_height = screen.y - 185;
        screen_fits(screen) && !self.indicator_overflows(visible_line_count(log_height), log_height)
    }
}

/// The height of a log box less 20 pixels, as the unsigned machine word in
/// which the indicator is placed: below 20 pixels it wraps around.
pub open spec fn indicator_span(log_height: int) -> int {
    if log_height >= 20 {
        log_height - 20
    } else {
        usize::MAX + 1 + (log_height - 20)
    }
}

/// The capture status line.
pub open spec fn status_line(paused: bool) -> Seq<char> {
    if paused {
        "Status: PAUSED"@
    } else {
        "Status: Capturing"@
    }
}


/// What log lines `start` to `start + n` draw on a tab `width` pixels wide,
/// one 16 pixel line each from the top of the log box.
pub open spec fn log_line_items(s: UartState, width: int, start: nat, n: nat) -> Seq<DrawItem>
    decreases n,
{
    if n == 0 {
        Seq::empty()
    } else {
        let y = 109 + 16 * (n - 1);
        log_line_items(s, width, start, (n - 1) as nat) + seq![
            plain_text(
                rect(20, y, 15 + width - 5, y + 16),
                GlyphStyle::Small,
                s.line_text(start + n - 1),
                false,
                false,
            ),
        ]
    }
}

/// What the scroll indicator draws, when shown.
pub open spec fn indicator_items(s: UartState, width: int, visible: nat, log_height: int) -> Seq<DrawItem> {
    match s.scroll_indicator(visible, log_height) {
        Some(off) => seq![
            plain_text(
                rect(15 + width - 15, 110 + off, 15 + width - 5, 110 + off + 12),
                GlyphStyle::Small,
                "\u{25BC}"@,
                false,
                false,
            ),
        ],
        None => Seq::empty(),
    }
}

/// The whole UART tab on a screen of size `screen`: header, mux selector,
/// status, the log box with the visible lines and the scroll indicator, and
/// the transmit field under it.
pub open spec fn uart_layout(s: UartState, screen: Point) -> Seq<DrawItem> {
    let width = screen.x - 30;
    let log_bottom = screen.y - 80;
    let log_height = log_bottom - 105;
    let visible = visible_line_count(log_height);
    let start = s.window_start(visible);
    let end = s.window_end(visible);
    seq![
        section_header_item(15, 45, width, "UART MONITOR"@),
        plain_text(rect(20, 65, 15 + width, 81), GlyphStyle::Small, s.mux_text(), true, false),
        plain_text(rect(20, 85, 215, 101), GlyphStyle::Small, status_line(s.paused), true, false),
        styled_rect(rect(15, 105, 15 + width, log_bottom), PixelColor::Light, PixelColor::Dark, 1),
    ] + log_line_items(s, width, start, (end - start) as nat) + indicator_items(
        s,
        width,
        visible,
        log_height,
    ) + seq![
        DrawItem::Text {
            bounds: rect(15, log_bottom + 5, 15 + width, log_bottom + 25),
            glyph: GlyphStyle::Monospace,
            text: s.tx_text(),
            border: true,
            clear: true,
            invert: false,
            margin: Some(Point { x: 4, y: 2 }),
        },
    ]
}

/// The screen state of each [`LogLine`]: its time stamp and the content's characters.
pub open spec fn line_view(l: LogLine) -> (u64, Seq<char>) {
    (l.timestamp_ms, l.content@)
}

/// The tab a session starts with: the stored mux (an index above 2 counts as
/// 2), an empty log, capture running, no scrolling, an empty transmit buffer.
pub open spec fn initial_state(settings: Settings) -> UartState {
    UartState {
        lines: Seq::empty(),
        mux: if settings.uart_mux <= 2 {
            settings.uart_mux
        } else {
            2
        },
        paused: false,
        scroll: 0,
        tx: Seq::empty(),
    }
}

impl View for UartTab {
    type V = UartState;

    closed spec fn view(&self) -> UartState {
        UartState {
            lines: self.log_lines@.map_values(|l: LogLine| line_view(l)),
            mux: self.current_mux_idx,
            paused: self.paused,
            scroll: self.scroll_offset as nat,
            tx: self.tx_buffer@,
        }
    }
}

proof fn lemma_placeholder_ascii()
    ensures
        ascii(placeholder_line()),
        placeholder_line().len() > 0,
        placeholder_line().len() <= LOG_CONTENT_LIMIT,
{
    reveal_strlit("(UART monitor active - see hardware for actual data)");
}

proof fn lemma_tx_prefix_ascii(tx: Seq<char>)
    requires
        forall|i: int| 0 <= i < tx.len() ==> typable(#[trigger] tx[i]),
    ensures
        ascii("TX> "@ + tx),
        ("TX> "@ + tx).len() == 4 + tx.len(),
{
    reveal_strlit("TX> ");
    let s = "TX> "@ + tx;
    assert forall|i: int| 0 <= i < s.len() implies '\0' <= #[trigger] s[i] <= '\u{7f}' by {
        if i >= 4 {
            assert(s[i] == tx[i - 4]);
            assert(typable(tx[i - 4]));
        }
    }
}

impl UartTab {
    /// The tab's invariant, see [`UartState::valid`].
    pub open spec fn wf(&self) -> bool {
        self@.valid()
    }

    /// The tab as a session starts: the stored mux (an index above 2 counts
    /// as 2), an empty log, capture running, an empty transmit buffer.
    pub fn new(settings: &Settings) -> (tab: UartTab)
        ensures
            tab.wf(),
            tab@ == initial_state(*settings),
    {
        let current_mux_idx = if settings.uart_mux < 2 {
            settings.uart_mux
        } else {
            2
        };
        let tab = UartTab {
            log_lines: VecDeque::with_capacity(MAX_LOG_LINES),
            current_mux_idx,
            paused: false,
            scroll_offset: 0,
            tx_buffer: String::new(),
        };
        assert(tab@.lines =~= Seq::empty());
        assert(tab@ =~= initial_state(*settings));
        tab
    }

    /// Index of the selected mux.
    pub fn mux_index(&self) -> (i: u8)
        ensures
            i == self@.mux,
    {
        self.current_mux_idx
    }

    /// The selected mux, to route on the hardware.
    pub fn mux(&self) -> (m: UartMux)
        ensures
            m == mux_of_code(self@.mux),
    {
        u8_to_uart_mux(self.current_mux_idx)
    }

    /// Whether capture is paused.
    pub fn is_paused(&self) -> (p: bool)
        ensures
            p == self@.paused,
    {
        self.paused
    }

    /// How many lines the view is scrolled up.
    pub fn scroll_offset(&self) -> (n: usize)
        ensures
            n == self@.scroll,
    {
        self.scroll_offset
    }

    /// Number of lines in the log.
    pub fn line_count(&self) -> (n: usize)
        ensures
            n == self@.lines.len(),
    {
        self.log_lines.len()
    }

    /// Time stamp of log line `i`.
    pub fn line_timestamp(&self, i: usize) -> (ts: u64)
        requires
            i < self@.lines.len(),
        ensures
            ts == self@.lines[i as int].0,
    {
        self.log_lines[i].timestamp_ms
    }

    /// Content of log line `i`.
    pub fn line_content(&self, i: usize) -> (content: &str)
        requires
            i < self@.lines.len(),
        ensures
            content@ == self@.lines[i as int].1,
    {
        self.log_lines[i].content.as_str()
    }

    /// The transmit buffer.
    pub fn tx_buffer(&self) -> (tx: &str)
        ensures
            tx@ == self@.tx,
    {
        self.tx_buffer.as_str()
    }

    fn add_log_line(&mut self, content: &str, now_ms: u64)
        requires
            old(self).wf(),
            ascii(content@),
            content@.len() <= LOG_CONTENT_LIMIT,
        ensures
            final(self).wf(),
            final(self)@ == old(self)@.after_add(content@, now_ms),
    {
        let ghost pre = self@;
        if self.log_lines.len() >= MAX_LOG_LINES {
            self.log_lines.pop_front();
        }
        let line = LogLine { timestamp_ms: now_ms, content: content.to_owned() };
        self.log_lines.push_back(line);
        assert(self@.lines =~= pre.after_add(content@, now_ms).lines);
        assert(self@ =~= pre.after_add(content@, now_ms));
    }

    /// Refresh at time `now_ms`: while the log is empty and capture runs, a
    /// placeholder line shows that the monitor is active.
    pub fn refresh(&mut self, now_ms: u64)
        requires
            old(self).wf(),
        ensures
            final(self).wf(),
            final(self)@ == old(self)@.after_refresh(now_ms),
    {
        if self.log_lines.len() == 0 && !self.paused {
            proof {
                lemma_placeholder_ascii();
            }
            self.add_log_line("(UART monitor active - see hardware for actual data)", now_ms);
        }
    }

    /// Handles a key press at time `now_ms`; returns what the key has to
    /// report, among it the mux to route and the bytes to send.
    pub fn handle_key(&mut self, key: char, now_ms: u64) -> (event: Option<UartEvent>)
        requires
            old(self).wf(),
        ensures
            final(self).wf(),
            final(self)@ == old(self)@.after_key(key, now_ms),
            event_view(event) == old(self)@.key_event(key),
    {
        let ghost pre = self@;
        if key == 'c' || key == 'C' {
            self.log_lines.clear();
            self.scroll_offset = 0;
            assert(self@.lines =~= Seq::<(u64, Seq<char>)>::empty());
            assert(self@ =~= pre.after_key(key, now_ms));
            Some(UartEvent::Cleared)
        } else if key == 'p' || key == 'P' {
            self.paused = !self.paused;
            assert(self@ =~= pre.after_key(key, now_ms));
            Some(UartEvent::PauseChanged(self.paused))
        } else if key == 'm' || key == 'M' {
            self.current_mux_idx = (self.current_mux_idx + 1) % 3;
            assert(self@ =~= pre.after_key(key, now_ms));
            Some(UartEvent::MuxSet(u8_to_uart_mux(self.current_mux_idx)))
        } else if key == '\u{2191}' {
            let len = self.log_lines.len();
            let room = if len > VISIBLE_LINES {
                len - VISIBLE_LINES
            } else {
                0
            };
            if self.scroll_offset < room {
                self.scroll_offset = self.scroll_offset + 1;
            }
            assert(self@ =~= pre.after_key(key, now_ms));
            None
        } else if key == '\u{2193}' {
            if self.scroll_offset > 0 {
                self.scroll_offset = self.scroll_offset - 1;
            }
            assert(self@ =~= pre.after_key(key, now_ms));
            None
        } else if key == '\r' || key == '\n' {
            let tx_str = self.tx_buffer.as_str();
            proof {
                vstd::string::is_ascii_spec_bytes(tx_str);
            }
            if tx_str.len() > 0 {
                let mut line = String::new();
                push_str(&mut line, "TX> ");
                push_str(&mut line, self.tx_buffer.as_str());
                proof {
                    lemma_tx_prefix_ascii(pre.tx);
                }
                self.add_log_line(line.as_str(), now_ms);
                let mut data = String::new();
                std::mem::swap(&mut self.tx_buffer, &mut data);
                assert(self@ =~= pre.after_key(key, now_ms));
                Some(UartEvent::Transmit { mux: u8_to_uart_mux(self.current_mux_idx), data })
            } else {
                assert(self@ =~= pre.after_key(key, now_ms));
                None
            }
        } else if key == '\u{8}' {
            pop_char(&mut self.tx_buffer);
            assert(self@ =~= pre.after_key(key, now_ms));
            None
        } else if ' ' <= key && key <= '~' {
            let tx_str = self.tx_buffer.as_str();
            proof {
                vstd::string::is_ascii_spec_bytes(tx_str);
            }
            if tx_str.len() < TX_BUFFER_LIMIT {
                push_char(&mut self.tx_buffer, key);
            }
            assert(self@ =~= pre.after_key(key, now_ms));
            None
        } else {
            None
        }
    }

    /// Writes the selected mux index into `settings`, leaving its other
    /// fields as they are.
    pub fn save_to_settings(&self, settings: &mut Settings)
        ensures
            *final(settings) == (Settings { uart_mux: self@.mux, ..*old(settings) }),
    {
        settings.uart_mux = self.current_mux_idx;
    }

    /// The mux selector line.
    pub fn mux_text(&self) -> (s: String)
        requires
            self.wf(),
        ensures
            s@ == self@.mux_text(),
    {
        let names: [&str; 3] = ["Kernel", "Log", "App"];
        let mut s = String::new();
        push_str(&mut s, "Mux: ");
        let mut i: usize = 0;
        let ghost idx = self.current_mux_idx as nat;
        while i < 3
            invariant
                i <= 3,
                names@[0]@ == "Kernel"@,
                names@[1]@ == "Log"@,
                names@[2]@ == "App"@,
                idx == self@.mux,
                i == 0 ==> s@ == "Mux: "@,
                i == 1 ==> s@ == "Mux: "@ + self@.mux_part(0) + "  "@,
                i == 2 ==> s@ == "Mux: "@ + self@.mux_part(0) + "  "@ + self@.mux_part(1) + "  "@,
                i == 3 ==> s@ == "Mux: "@ + self@.mux_part(0) + "  "@ + self@.mux_part(1) + "  "@
                    + self@.mux_part(2),
            decreases 3 - i,
        {
            let ghost before = s@;
            if i == self.current_mux_idx as usize {
                push_char(&mut s, '[');
                push_str(&mut s, names[i]);
                push_char(&mut s, ']');
            } else {
                push_char(&mut s, ' ');
                push_str(&mut s, names[i]);
                push_char(&mut s, ' ');
            }
            proof {
                reveal_strlit("[");
                reveal_strlit("]");
                reveal_strlit(" ");
                assert(s@ =~= before + self@.mux_part(i as nat));
            }
            if i < 2 {
                push_str(&mut s, "  ");
            }
            i = i + 1;
        }
        push_str(&mut s, "  115200 bd");
        s
    }

    /// The capture status line.
    pub fn status_text(&self) -> (s: &'static str)
        ensures
            s@ == status_line(self@.paused),
    {
        if self.paused {
            "Status: PAUSED"
        } else {
            "Status: Capturing"
        }
    }

    /// The transmit field.
    pub fn tx_text(&self) -> (s: String)
        ensures
            s@ == self@.tx_text(),
    {
        let mut s = String::new();
        if self.tx_buffer.as_str().is_empty() {
            push_str(&mut s, "TX: (type to send)");
        } else {
            push_str(&mut s, "TX: ");
            push_str(&mut s, self.tx_buffer.as_str());
            push_str(&mut s, "_");
        }
        s
    }

    /// The lines of the log shown, `start..end`, when `visible` lines fit.
    pub fn window(&self, visible: usize) -> (w: (usize, usize))
        requires
            self.wf(),
            visible <= VISIBLE_LINES,
        ensures
            w.0 == self@.window_start(visible as nat),
            w.1 == self@.window_end(visible as nat),
            w.0 <= w.1 <= self@.lines.len(),
    {
        let total = self.log_lines.len();
        let start = if total > visible + self.scroll_offset {
            total - visible - self.scroll_offset
        } else {
            0
        };
        let end = if total < start + visible {
            total
        } else {
            start + visible
        };
        (start, end)
    }

    /// The text of log line `i` as shown.
    pub fn line_text(&self, i: usize) -> (s: String)
        requires
            self.wf(),
            i < self@.lines.len(),
        ensures
            s@ == self@.line_text(i as int),
    {
        let line = &self.log_lines[i];
        let ts = line.timestamp_ms;
        let mut s = String::new();
        push_char(&mut s, '[');
        push_dec_padded(&mut s, (ts / 1000) % 60, 2, '0');
        push_char(&mut s, ':');
        push_dec_padded(&mut s, (ts % 1000) / 10, 2, '0');
        push_char(&mut s, ']');
        push_char(&mut s, ' ');
        proof {
            reveal_strlit("[");
            reveal_strlit(":");
            reveal_strlit("]");
            reveal_strlit(" ");
        }
        let ghost prefix = s@;
        assert(prefix =~= time_text(ts) + " "@);
        let content = line.content.as_str();
        assert(self@.lines[i as int] == line_view(self.log_lines@[i as int]));
        assert(ascii(self@.lines[i as int].1));
        assert(ascii(content@));
        assert(vstd::string::is_ascii(content));
        proof {
            vstd::string::is_ascii_spec_bytes(content);
        }
        let byte_len = content.len();
        assert(byte_len == content@.len());
        if byte_len > LOG_LINE_WIDTH {
            let head = content.substring_ascii(0, LOG_LINE_WIDTH - 3);
            push_str(&mut s, head);
            push_str(&mut s, "...");
            assert(s@ =~= prefix + shown_content(content@));
        } else {
            push_str(&mut s, content);
            assert(s@ =~= prefix + shown_content(content@));
        }
        assert(s@ =~= self@.line_text(i as int));
        s
    }

    /// Offset of the scroll indicator below the top of a log box
    /// `log_height` pixels high, when `visible` lines fit and the log is
    /// longer than that.
    pub fn scroll_indicator(&self, visible: usize, log_height: isize) -> (y: Option<isize>)
        requires
            self.wf(),
            visible <= VISIBLE_LINES,
            -0x200_0000 <= log_height <= 0x100_0000,
            !self@.indicator_overflows(visible as nat, log_height as int),
        ensures
            y matches Some(v) ==> self@.scroll_indicator(visible as nat, log_height as int) == Some(v as int),
            y matches Some(v) ==> 0 <= v <= usize::MAX / 100,
            y is None ==> self@.scroll_indicator(visible as nat, log_height as int) is None,
    {
        let total = self.log_lines.len();
        if total > visible {
            let above = total - visible - self.scroll_offset;
            let pct = (above * 100) / (total - visible);
            assert(pct == self@.indicator_pct(visible as nat));
            let span: usize = if log_height >= 20 {
                (log_height - 20) as usize
            } else {
                let short = (20 - log_height) as usize;
                usize::MAX - short + 1
            };
            assert(span == indicator_span(log_height as int));
            assert(span * pct <= usize::MAX);
            let off = span * pct / 100;
            assert(off <= usize::MAX / 100) by (nonlinear_arith)
                requires
                    off == span * pct / 100,
                    span * pct <= usize::MAX,
            ;
            assert(usize::MAX / 100 <= isize::MAX);
            Some(off as isize)
        } else {
            None
        }
    }
}

impl UartTab {
    /// Whether the tab can be drawn on a screen of size `screen`, which must
    /// be within the layout bounds.
    pub fn draws_on(&self, screen: Point) -> (b: bool)
        requires
            self.wf(),
            screen_fits(screen),
        ensures
            b == self@.draws_on(screen),
    {
        let log_height = screen.y - 185;
        let visible = visible_line_count_for(log_height);
        let total = self.log_lines.len();
        if total > visible {
            let above = total - visible - self.scroll_offset;
            let pct = (above * 100) / (total - visible);
            assert(pct == self@.indicator_pct(visible as nat));
            let span: usize = if log_height >= 20 {
                (log_height - 20) as usize
            } else {
                let short = (20 - log_height) as usize;
                usize::MAX - short + 1
            };
            assert(span == indicator_span(log_height as int));
            if pct == 0 {
                true
            } else {
                let fits = span <= usize::MAX / pct;
                assert(fits == (span * pct <= usize::MAX)) by (nonlinear_arith)
                    requires
                        fits == (span <= usize::MAX / pct),
                        pct > 0,
                        0 <= span,
                ;
                fits
            }
        } else {
            true
        }
    }

    /// The UART tab on a screen of size `screen`.
    pub fn draw(&self, screen: Point) -> (cmds: Vec<DrawCmd>)
        requires
            self.wf(),
            self@.draws_on(screen),
        ensures
            items(cmds@) == uart_layout(self@, screen),
    {
        let width = screen.x - 30;
        let log_bottom = screen.y - 80;
        let log_height = log_bottom - 105;
        let mut cmds: Vec<DrawCmd> = Vec::new();
        draw_section_header(&mut cmds, 15, 45, width, "UART MONITOR");
        push_text(
            &mut cmds,
            Rect { x0: 20, y0: 65, x1: 15 + width, y1: 81 },
            GlyphStyle::Small,
            self.mux_text(),
            true,
            false,
        );
        push_text(
            &mut cmds,
            Rect { x0: 20, y0: 85, x1: 215, y1: 101 },
            GlyphStyle::Small,
            string_of(self.status_text()),
            true,
            false,
        );
        push_styled_rect(
            &mut cmds,
            Rect { x0: 15, y0: 105, x1: 15 + width, y1: log_bottom },
            PixelColor::Light,
            PixelColor::Dark,
            1,
        );
        let ghost head = items(cmds@);
        let visible = visible_line_count_for(log_height);
        let (start, end) = self.window(visible);
        let mut i = start;
        let mut log_y: isize = 109;
        while i < end
            invariant
                self.wf(),
                screen_fits(screen),
                width == screen.x - 30,
                start <= i <= end <= self@.lines.len(),
                end - start <= VISIBLE_LINES,
                log_y == 109 + 16 * (i - start),
                items(cmds@) == head + log_line_items(self@, width as int, start as nat, (i - start) as nat),
            decreases end - i,
        {
            let line = self.line_text(i);
            push_text(
                &mut cmds,
                Rect { x0: 20, y0: log_y, x1: 15 + width - 5, y1: log_y + 16 },
                GlyphStyle::Small,
                line,
                false,
                false,
            );
            assert(items(cmds@) =~= head + log_line_items(
                self@,
                width as int,
                start as nat,
                (i + 1 - start) as nat,
            ));
            i = i + 1;
            log_y = log_y + 16;
        }
        let ghost lines = items(cmds@);
        match self.scroll_indicator(visible, log_height) {
            Some(off) => {
                assert(usize::MAX / 100 + 122 <= isize::MAX);
                let indicator_y = 110 + off;
                push_text(
                    &mut cmds,
                    Rect {
                        x0: 15 + width - 15,
                        y0: indicator_y,
                        x1: 15 + width - 5,
                        y1: indicator_y + 12,
                    },
                    GlyphStyle::Small,
                    string_of("\u{25BC}"),
                    false,
                    false,
                );
            },
            None => {},
        }
        assert(items(cmds@) =~= lines + indicator_items(
            self@,
            width as int,
            visible as nat,
            log_height as int,
        ));
        push_cmd(
            &mut cmds,
            DrawCmd::Text {
                bounds: Rect { x0: 15, y0: log_bottom + 5, x1: 15 + width, y1: log_bottom + 25 },
                glyph: GlyphStyle::Monospace,
                text: self.tx_text(),
                border: true,
                clear: true,
                invert: false,
                margin: Some(Point { x: 4, y: 2 }),
            },
        );
        assert(items(cmds@) =~= uart_layout(self@, screen));
        cmds
    }
}

/// How many log lines fit in a box `log_height` pixels high, at most
/// [`VISIBLE_LINES`].
pub fn visible_line_count_for(log_height: isize) -> (n: usize)
    requires
        log_height >= isize::MIN + 8,
    ensures
        n == visible_line_count(log_height as int),
        n <= VISIBLE_LINES,
{
    let d = log_height - 8;
    if d >= 0 {
        let q = (d as usize) / 16;
        if q < VISIBLE_LINES {
            q
        } else {
            VISIBLE_LINES
        }
    } else if d > -16 {
        0
    } else {
        VISIBLE_LINES
    }
}

/// The log never holds more than [`MAX_LOG_LINES`] lines, whatever key is
/// pressed or refresh happens.
pub proof fn lemma_log_bounded(s: UartState, key: char, now_ms: u64)
    requires
        s.valid(),
    ensures
        s.after_key(key, now_ms).lines.len() <= MAX_LOG_LINES,
        s.after_refresh(now_ms).lines.len() <= MAX_LOG_LINES,
{
}

/// Selecting the next mux three times comes back to the mux selected first.
pub proof fn lemma_mux_cycle(s: UartState, now_ms: u64)
    requires
        s.valid(),
    ensures
        s.after_key('m', now_ms).after_key('m', now_ms).after_key('m', now_ms).mux == s.mux,
{
}

/// A valid mux stored in the settings and read back is the same mux.
pub proof fn lemma_mux_code_roundtrip(m: UartMux)
    requires
        m != UartMux::Invalid,
    ensures
        mux_of_code(mux_code(m)) == m,
{
}

/// Typing a character and deleting it leaves the tab as it was, for a
/// character that is not a command key and a buffer with room.
pub proof fn lemma_type_then_backspace(s: UartState, c: char, now_ms: u64)
    requires
        s.valid(),
        typable(c),
        c != 'c' && c != 'C' && c != 'p' && c != 'P' && c != 'm' && c != 'M',
        s.tx.len() < TX_BUFFER_LIMIT,
    ensures
        s.after_key(c, now_ms).after_key(key_backspace(), now_ms) == s,
{
    assert(s.tx.push(c).drop_last() =~= s.tx);
}

/// Pausing twice leaves the tab as it was.
pub proof fn lemma_pause_twice(s: UartState, now_ms: u64)
    ensures
        s.after_key('p', now_ms).after_key('p', now_ms) == s,
{
}

/// Sending a typed line empties the buffer and makes the line, prefixed by
/// `TX> ` and stamped with the time, the newest of the log.
pub proof fn lemma_send_moves_buffer(s: UartState, now_ms: u64)
    requires
        s.valid(),
        s.tx.len() > 0,
    ensures
        s.after_key('\n', now_ms).tx.len() == 0,
        s.after_key('\n', now_ms).lines.last() == (now_ms, "TX> "@ + s.tx),
        s.after_key('\n', now_ms).lines.len() == if s.lines.len() < MAX_LOG_LINES {
            s.lines.len() + 1
        } else {
            MAX_LOG_LINES as nat
        },
{
}

/// `c` empties the log and resets the scroll, keeps the transmit buffer,
/// the mux and the pause state, and reports that the log was cleared.
pub proof fn lemma_clear_keeps_buffer(s: UartState, key: char, now_ms: u64)
    requires
        key == 'c' || key == 'C',
    ensures
        s.after_key(key, now_ms).lines.len() == 0,
        s.after_key(key, now_ms).scroll == 0,
        s.after_key(key, now_ms).tx == s.tx,
        s.after_key(key, now_ms).mux == s.mux,
        s.after_key(key, now_ms).paused == s.paused,
        s.key_event(key) == Some(UartEventView::Cleared),
{
}

/// A typable key that is no command key goes to the end of the transmit
/// buffer while it has room, is dropped when it is full, and leaves the log,
/// the scroll, the mux and the pause state as they were.
pub proof fn lemma_typing_appends(s: UartState, c: char, now_ms: u64)
    requires
        typable(c),
        c != 'c' && c != 'C' && c != 'p' && c != 'P' && c != 'm' && c != 'M',
    ensures
        s.after_key(c, now_ms).tx == if s.tx.len() < TX_BUFFER_LIMIT {
            s.tx.push(c)
        } else {
            s.tx
        },
        s.after_key(c, now_ms).lines == s.lines,
        s.after_key(c, now_ms).scroll == s.scroll,
        s.after_key(c, now_ms).mux == s.mux,
        s.after_key(c, now_ms).paused == s.paused,
        s.key_event(c) is None,
{
}

/// Backspace removes the last character of the transmit buffer, if any, and
/// leaves the log as it was.
pub proof fn lemma_backspace_removes_last(s: UartState, now_ms: u64)
    ensures
        s.after_key(key_backspace(), now_ms).tx == if s.tx.len() > 0 {
            s.tx.drop_last()
        } else {
            s.tx
        },
        s.after_key(key_backspace(), now_ms).lines == s.lines,
        s.key_event(key_backspace()) is None,
{
}

/// Enter sends exactly the typed text on the selected UART.
pub proof fn lemma_enter_sends_buffer(s: UartState, key: char)
    requires
        key == '\r' || key == '\n',
    ensures
        s.tx.len() > 0 ==> s.key_event(key) == Some(UartEventView::Transmit { mux: mux_of_code(s.mux), data: s.tx }),
        s.tx.len() == 0 ==> s.key_event(key) is None,
{
}

/// `p` flips whether capture is paused and reports the new state; `m`
/// selects the next mux (Kernel, then Log, then Application, then Kernel
/// again) and reports it. Neither touches the log or the transmit buffer.
pub proof fn lemma_pause_and_mux_keys(s: UartState, now_ms: u64)
    requires
        s.valid(),
    ensures
        s.after_key('p', now_ms).paused == !s.paused,
        s.key_event('p') == Some(UartEventView::PauseChanged(!s.paused)),
        s.after_key('p', now_ms).lines == s.lines,
        s.after_key('p', now_ms).tx == s.tx,
        s.after_key('m', now_ms).mux == (s.mux + 1) % 3,
        s.key_event('m') == Some(UartEventView::MuxSet(match s.mux {
            0 => UartMux::Log,
            1 => UartMux::Application,
            _ => UartMux::Kernel,
        })),
        s.after_key('m', now_ms).lines == s.lines,
        s.after_key('m', now_ms).tx == s.tx,
        s.after_key('m', now_ms).paused == s.paused,
{
}

/// Up scrolls one line further back while older lines are hidden above the
/// view, down one line forward while the view is scrolled; both leave the
/// log and the transmit buffer as they were.
pub proof fn lemma_scroll_keys(s: UartState, now_ms: u64)
    requires
        s.valid(),
    ensures
        s.after_key(key_up(), now_ms).scroll == if s.lines.len() > VISIBLE_LINES + s.scroll {
            s.scroll + 1
        } else {
            s.scroll
        },
        s.after_key(key_down(), now_ms).scroll == if s.scroll > 0 {
            s.scroll - 1
        } else {
            0
        },
        s.after_key(key_up(), now_ms).lines == s.lines,
        s.after_key(key_down(), now_ms).lines == s.lines,
        s.after_key(key_up(), now_ms).tx == s.tx,
        s.after_key(key_down(), now_ms).tx == s.tx,
{
}

} // verus!
