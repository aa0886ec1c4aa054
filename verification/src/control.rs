//! The decisions of the main event loop and of the refresh pump: message
//! codes, when to redraw, when the pump runs.

use vstd::prelude::*;

verus! {

/// Period of the refresh pump in milliseconds.
pub const REFRESH_INTERVAL_MS: usize = 2000;

/// Messages the application's server receives.
#[derive(Debug, Clone, Copy, PartialEq, Eq, Structural)]
pub enum AppOp {
    Redraw,
    Rawkeys,
    FocusChange,
    Pump,
    Quit,
}

/// Messages the pump's server receives.
#[derive(Debug, Clone, Copy, PartialEq, Eq, Structural)]
pub enum PumpOp {
    Run,
    Stop,
    Pump,
    Quit,
}

impl AppOp {
    /// The message code, in declaration order from 0.
    pub open spec fn code(self) -> nat {
        match self {
            AppOp::Redraw => 0,
            AppOp::Rawkeys => 1,
            AppOp::FocusChange => 2,
            AppOp::Pump => 3,
            AppOp::Quit => 4,
        }
    }

    /// The message a code names, if any.
    pub fn from_usize(v: usize) -> (op: Option<AppOp>)
        ensures
            op matches Some(o) ==> o.code() == v,
            op is None <==> v > 4,
    {
        match v {
            0 => Some(AppOp::Redraw),
            1 => Some(AppOp::Rawkeys),
            2 => Some(AppOp::FocusChange),
            3 => Some(AppOp::Pump),
            4 => Some(AppOp::Quit),
            _ => None,
        }
    }

    /// The message code.
    pub fn to_usize(self) -> (v: usize)
        ensures
            v == self.code(),
    {
        match self {
            AppOp::Redraw => 0,
            AppOp::Rawkeys => 1,
            AppOp::FocusChange => 2,
            AppOp::Pump => 3,
            AppOp::Quit => 4,
        }
    }
}

impl PumpOp {
    /// The message code, in declaration order from 0.
    pub open spec fn code(self) -> nat {
        match self {
            PumpOp::Run => 0,
            PumpOp::Stop => 1,
            PumpOp::Pump => 2,
            PumpOp::Quit => 3,
        }
    }

    /// The message a code names, if any.
    pub fn from_usize(v: usize) -> (op: Option<PumpOp>)
        ensures
            op matches Some(o) ==> o.code() == v,
            op is None <==> v > 3,
    {
        match v {
            0 => Some(PumpOp::Run),
            1 => Some(PumpOp::Stop),
            2 => Some(PumpOp::Pump),
            3 => Some(PumpOp::Quit),
            _ => None,
        }
    }

    /// The message code.
    pub fn to_usize(self) -> (v: usize)
        ensures
            v == self.code(),
    {
        match self {
            PumpOp::Run => 0,
            PumpOp::Stop => 1,
            PumpOp::Pump => 2,
            PumpOp::Quit => 3,
        }
    }
}

/// Every message code names one message and back.
pub proof fn lemma_op_codes_roundtrip(a: AppOp, p: PumpOp)
    ensures
        a.code() <= 4,
        p.code() <= 3,
        forall|b: AppOp| b.code() == a.code() ==> b == a,
        forall|q: PumpOp| q.code() == p.code() ==> q == p,
{
}

/// Whether the application is in front or behind.
#[derive(Debug, Clone, Copy, PartialEq, Eq, Structural)]
pub enum Focus {
    Background,
    Foreground,
}

/// How to answer a redraw request.
#[derive(Debug, Clone, Copy, PartialEq, Eq, Structural)]
pub enum RedrawKind {
    /// Draw nothing: the application is behind.
    Skip,
    /// Redraw the content area.
    Content,
    /// Redraw the whole screen: the application just came to the front.
    Full,
}

/// What to do when the focus changes.
#[derive(Debug, Clone, Copy, PartialEq, Eq, Structural)]
pub struct FocusAction {
    /// Refresh the data of the shown tab now.
    pub refresh_now: bool,
    /// The message to send to the pump.
    pub pump: PumpOp,
}

/// The main loop's state.
#[derive(Debug, Clone, Copy, PartialEq, Eq, Structural)]
pub struct MainLoop {
    /// Whether the application may draw (it is in front).
    pub allow_redraw: bool,
    /// Whether the next redraw is to be a full one.
    pub into_foreground: bool,
}

impl MainLoop {
    /// The loop's state and answer after a redraw request: nothing when
    /// behind, a full redraw the first time after coming to the front, else
    /// the content area.
    pub open spec fn redraw_result(self) -> (MainLoop, RedrawKind) {
        if !self.allow_redraw {
            (self, RedrawKind::Skip)
        } else if self.into_foreground {
            (MainLoop { into_foreground: false, ..self }, RedrawKind::Full)
        } else {
            (self, RedrawKind::Content)
        }
    }

    /// The loop's state and action after a focus change: going behind stops
    /// drawing and the pump; coming to the front allows drawing, makes the
    /// next redraw a full one, refreshes the data and runs the pump.
    pub open spec fn focus_result(self, focus: Focus) -> (MainLoop, FocusAction) {
        match focus {
            Focus::Background => (
                MainLoop { allow_redraw: false, ..self },
                FocusAction { refresh_now: false, pump: PumpOp::Stop },
            ),
            Focus::Foreground => (
                MainLoop { allow_redraw: true, into_foreground: true },
                FocusAction { refresh_now: true, pump: PumpOp::Run },
            ),
        }
    }

    /// The loop as the application starts: drawing allowed, no full redraw due.
    pub fn new() -> (l: MainLoop)
        ensures
            l == (MainLoop { allow_redraw: true, into_foreground: false }),
    {
        MainLoop { allow_redraw: true, into_foreground: false }
    }

    /// Answers a redraw request.
    pub fn on_redraw(&mut self) -> (kind: RedrawKind)
        ensures
            (*final(self), kind) == old(self).redraw_result(),
    {
        if self.allow_redraw {
            if self.into_foreground {
                self.into_foreground = false;
                RedrawKind::Full
            } else {
                RedrawKind::Content
            }
        } else {
            RedrawKind::Skip
        }
    }

    /// Whether a pump tick refreshes the data and redraws the content: only
    /// while in front. The tick is acknowledged either way.
    pub fn on_pump(&self) -> (refresh: bool)
        ensures
            refresh == self.allow_redraw,
    {
        self.allow_redraw
    }

    /// Follows a focus change.
    pub fn on_focus(&mut self, focus: Focus) -> (action: FocusAction)
        ensures
            (*final(self), action) == old(self).focus_result(focus),
    {
        match focus {
            Focus::Background => {
                self.allow_redraw = false;
                FocusAction { refresh_now: false, pump: PumpOp::Stop }
            },
            Focus::Foreground => {
                self.into_foreground = true;
                self.allow_redraw = true;
                FocusAction { refresh_now: true, pump: PumpOp::Run }
            },
        }
    }
}

/// Behind, the application draws nothing and a tick refreshes nothing, until
/// it comes back to the front; then the first redraw is a full one and the
/// next ones redraw the content.
pub proof fn lemma_focus_cycle(l: MainLoop)
    ensures
        ({
            let behind = l.focus_result(Focus::Background).0;
            &&& behind.redraw_result().1 == RedrawKind::Skip
            &&& behind.redraw_result().0 == behind
            &&& !behind.allow_redraw
        }),
        ({
            let front = l.focus_result(Focus::Foreground).0;
            &&& front.redraw_result().1 == RedrawKind::Full
            &&& front.redraw_result().0.redraw_result().1 == RedrawKind::Content
            &&& front.allow_redraw
        }),
{
}

/// What the pump does after a message.
#[derive(Debug, Clone, Copy, PartialEq, Eq, Structural)]
pub enum PumpAction {
    /// Nothing.
    Idle,
    /// Send itself a tick.
    Schedule,
    /// Send the application a tick and wait for it, sleep for the refresh
    /// period, then send itself a tick.
    TickAndReschedule,
    /// Acknowledge and stop.
    Exit,
}

/// The pump's state.
#[derive(Debug, Clone, Copy, PartialEq, Eq, Structural)]
pub struct PumpState {
    /// Whether ticks are being produced.
    pub running: bool,
}

impl PumpState {
    /// The pump's state and action after a message: run starts ticking, stop
    /// stops it, a tick while running produces a tick for the application and
    /// the next one, quit ends.
    pub open spec fn step_result(self, op: PumpOp) -> (PumpState, PumpAction) {
        match op {
            PumpOp::Run => (PumpState { running: true }, PumpAction::Schedule),
            PumpOp::Stop => (PumpState { running: false }, PumpAction::Idle),
            PumpOp::Pump => (
                self,
                if self.running {
                    PumpAction::TickAndReschedule
                } else {
                    PumpAction::Idle
                },
            ),
            PumpOp::Quit => (self, PumpAction::Exit),
        }
    }

    /// A pump that has not been started.
    pub fn new() -> (p: PumpState)
        ensures
            !p.running,
    {
        PumpState { running: false }
    }

    /// Follows a message.
    pub fn step(&mut self, op: PumpOp) -> (action: PumpAction)
        ensures
            (*final(self), action) == old(self).step_result(op),
    {
        match op {
            PumpOp::Run => {
                self.running = true;
                PumpAction::Schedule
            },
            PumpOp::Stop => {
                self.running = false;
                PumpAction::Idle
            },
            PumpOp::Pump => {
                if self.running {
                    PumpAction::TickAndReschedule
                } else {
                    PumpAction::Idle
                }
            },
            PumpOp::Quit => PumpAction::Exit,
        }
    }
}

/// A stopped pump ignores ticks, so it stops producing them; a running one
/// turns each tick into a tick for the application and the next tick.
pub proof fn lemma_pump_run_stop(p: PumpState)
    ensures
        p.step_result(PumpOp::Stop).0.step_result(PumpOp::Pump).1 == PumpAction::Idle,
        p.step_result(PumpOp::Run).0.step_result(PumpOp::Pump).1 == PumpAction::TickAndReschedule,
        p.step_result(PumpOp::Run).0.step_result(PumpOp::Pump).0.running,
{
}

/// Whether `v` is a Unicode scalar value, the codes a `char` can hold.
pub open spec fn is_scalar_value(v: u32) -> bool {
    v < 0xD800 || (0xE000 <= v && v <= 0x10FFFF)
}

/// The character with code `v`, if it is one.
///
/// Calls `char::from_u32`, which returns `None` exactly for codes that are not
/// Unicode scalar values (surrogates and codes above 0x10FFFF).
#[verifier::external_body]
fn char_from_u32(v: u32) -> (c: Option<char>)
    ensures
        c is Some <==> is_scalar_value(v),
        c matches Some(ch) ==> ch as u32 == v,
{
    char::from_u32(v)
}

/// The code of the key a raw-keys argument carries: its low 32 bits, when
/// they are a character other than 0 (0 means no key).
pub open spec fn key_code_of_arg(arg: usize) -> Option<u32> {
    let v = arg as u32;
    if is_scalar_value(v) && v != 0 {
        Some(v)
    } else {
        None
    }
}

/// The codes of the keys the arguments of a raw-keys message carry, in order.
pub open spec fn key_codes_of_args(args: Seq<usize>) -> Seq<u32>
    decreases args.len(),
{
    if args.len() == 0 {
        Seq::empty()
    } else {
        let rest = key_codes_of_args(args.drop_first());
        match key_code_of_arg(args[0]) {
            Some(c) => seq![c] + rest,
            None => rest,
        }
    }
}

/// The codes of a sequence of characters.
pub open spec fn codes(keys: Seq<char>) -> Seq<u32> {
    keys.map_values(|c: char| c as u32)
}

/// The key one raw-keys argument carries.
pub fn key_from_arg(arg: usize) -> (key: Option<char>)
    ensures
        key is None <==> key_code_of_arg(arg) is None,
        key matches Some(c) ==> key_code_of_arg(arg) == Some(c as u32),
{
    let v = #[verifier::truncate] (arg as u32);
    match char_from_u32(v) {
        Some(c) => {
            if v != 0 {
                Some(c)
            } else {
                None
            }
        },
        None => None,
    }
}

/// The keys of a raw-keys message, in order, leaving out empty slots.
pub fn keys_from_args(args: [usize; 4]) -> (keys: Vec<char>)
    ensures
        codes(keys@) == key_codes_of_args(args@),
{
    let mut keys: Vec<char> = Vec::new();
    let mut i: usize = 4;
    while i > 0
        invariant
            i <= 4,
            codes(keys@) == key_codes_of_args(args@.subrange(i as int, 4)),
        decreases i,
    {
        i = i - 1;
        let ghost tail = args@.subrange(i as int + 1, 4);
        let ghost before = keys@;
        assert(args@.subrange(i as int, 4).drop_first() =~= tail);
        assert(args@.subrange(i as int, 4)[0] == args@[i as int]);
        match key_from_arg(args[i]) {
            Some(c) => {
                let mut front = vec![c];
                front.append(&mut keys);
                keys = front;
                assert(keys@ =~= seq![c] + before);
                assert(codes(keys@) =~= seq![c as u32] + codes(before));
            },
            None => {},
        }
    }
    assert(args@.subrange(0, 4) =~= args@);
    keys
}

} // verus!
