//! The GPIO tester: direction and desired level of the eight battery
//! compartment pins, and the digital level inferred from the ADC of pins 2 and 5.

use vstd::prelude::*;
use crate::storage::Settings;
use crate::ui::{
    DrawCmd, DrawItem, DrawStyle, GlyphStyle, PixelColor, Point, Rect, draw_section_header, items,
    plain_text, push_cmd, push_styled_rect, push_text, rect, screen_fits, section_header_item,
    string_of, style, styled_rect,
};
use crate::text::{dec, digit_char, milli_two_decimals, pad_left, push_char, push_dec_padded, push_milli_two_decimals, push_str};

verus! {

/// Number of GPIO pins in the battery compartment.
pub const GPIO_PIN_COUNT: usize = 8;

/// Raw ADC reading above which an ADC-capable pin reads as a high level
/// (about 1.5 V).
pub const ADC_HIGH_THRESHOLD: u16 = 1200;

/// Direction of a GPIO pin.
#[derive(Debug, Clone, Copy, PartialEq, Eq, Structural)]
pub enum PinDirection {
    Input,
    Output,
}

/// What a key press of the GPIO tab has to report.
#[derive(Debug, Clone, Copy, PartialEq, Eq, Structural)]
pub enum GpioEvent {
    /// A digit toggled the desired level of output pin `pin` to `level`.
    OutputToggled { pin: usize, level: bool },
    /// A digit selected input pin `pin` and made it an output.
    SwitchedToOutput { pin: usize },
    /// `i` or `o` set the direction of the selected pin `pin`.
    DirectionSet { pin: usize, direction: PinDirection },
    /// Space toggled the desired level of the selected output pin `pin` to `level`.
    SelectedToggled { pin: usize, level: bool },
    /// `a` on an ADC pin with a reading: its raw value.
    AdcReading { pin: usize, raw: u16 },
    /// `a` on a pin without ADC.
    NoAdc { pin: usize },
}

/// The tab's state: per-pin configuration, the two ADC readings and the cursor.
pub struct GpioTab {
    directions: [PinDirection; 8],
    outputs: [bool; 8],
    inputs: [bool; 8],
    adc_gpio2: Option<u16>,
    adc_gpio5: Option<u16>,
    selected_pin: usize,
}

/// What a [`GpioTab`] holds, as mathematical values.
pub struct GpioState {
    /// Direction of each pin.
    pub directions: Seq<PinDirection>,
    /// Level each output pin is meant to drive.
    pub outputs: Seq<bool>,
    /// Level last inferred for each pin (only pins 2 and 5 are ever read).
    pub inputs: Seq<bool>,
    /// Last raw ADC reading of pin 2.
    pub adc_gpio2: Option<u16>,
    /// Last raw ADC reading of pin 5.
    pub adc_gpio5: Option<u16>,
    /// The pin under the cursor.
    pub selected_pin: nat,
}

/// Whether bit `i` of `mask` is set.
pub open spec fn bit_set(mask: u8, i: nat) -> bool {
    (mask >> (i as u8)) & 1u8 == 1u8
}

/// Whether pin `pin` has an ADC channel.
pub open spec fn has_adc(pin: nat) -> bool {
    pin == 2 || pin == 5
}

/// Key for "cursor up".
pub open spec fn key_up() -> char {
    '\u{2191}'
}

/// Key for "cursor down".
pub open spec fn key_down() -> char {
    '\u{2193}'
}

/// Whether `key` is one of the digits `0` to `7`.
pub open spec fn is_pin_digit(key: char) -> bool {
    48 <= (key as u32) && (key as u32) <= 55
}

impl GpioState {
    /// Eight pins and a cursor on one of them.
    pub open spec fn valid(self) -> bool {
        &&& self.directions.len() == 8
        &&& self.outputs.len() == 8
        &&& self.inputs.len() == 8
        &&& self.selected_pin < 8
    }

    /// The state a key press leaves.
    ///
    /// Up and down move the cursor, wrapping around; a digit toggles the
    /// desired level of an output pin, or selects an input pin and makes it an
    /// output; `i`/`o` set the direction of the selected pin; space toggles the
    /// selected pin's level if it is an output. Other keys change nothing.
    pub open spec fn after_key(self, key: char) -> GpioState {
        let sel = self.selected_pin;
        if key == key_up() {
            GpioState {
                selected_pin: if sel > 0 {
                    (sel - 1) as nat
                } else {
                    7
                },
                ..self
            }
        } else if key == key_down() {
            GpioState {
                selected_pin: if sel < 7 {
                    sel + 1
                } else {
                    0
                },
                ..self
            }
        } else if is_pin_digit(key) {
            let pin = (key as u32 - 48) as int;
            if self.directions[pin] == PinDirection::Output {
                GpioState { outputs: self.outputs.update(pin, !self.outputs[pin]), ..self }
            } else {
                GpioState {
                    selected_pin: pin as nat,
                    directions: self.directions.update(pin, PinDirection::Output),
                    ..self
                }
            }
        } else if key == 'i' || key == 'I' {
            GpioState {
                directions: self.directions.update(sel as int, PinDirection::Input),
                ..self
            }
        } else if key == 'o' || key == 'O' {
            GpioState {
                directions: self.directions.update(sel as int, PinDirection::Output),
                ..self
            }
        } else if key == ' ' && self.directions[sel as int] == PinDirection::Output {
            GpioState { outputs: self.outputs.update(sel as int, !self.outputs[sel as int]), ..self }
        } else {
            self
        }
    }

    /// What a key press reports: the pin a digit, `i`, `o` or space changed
    /// and how; for `a`, the last ADC reading of the selected pin 2 or 5
    /// (nothing when it has none) or that the selected pin has no ADC.
    pub open spec fn key_event(self, key: char) -> Option<GpioEvent> {
        let sel = self.selected_pin;
        if key == key_up() || key == key_down() {
            None
        } else if is_pin_digit(key) {
            let pin = (key as u32 - 48) as int;
            if self.directions[pin] == PinDirection::Output {
                Some(GpioEvent::OutputToggled { pin: pin as usize, level: !self.outputs[pin] })
            } else {
                Some(GpioEvent::SwitchedToOutput { pin: pin as usize })
            }
        } else if key == 'i' || key == 'I' {
            Some(GpioEvent::DirectionSet { pin: sel as usize, direction: PinDirection::Input })
        } else if key == 'o' || key == 'O' {
            Some(GpioEvent::DirectionSet { pin: sel as usize, direction: PinDirection::Output })
        } else if key == ' ' {
            if self.directions[sel as int] == PinDirection::Output {
                Some(GpioEvent::SelectedToggled { pin: sel as usize, level: !self.outputs[sel as int] })
            } else {
                None
            }
        } else if key == 'a' || key == 'A' {
            if sel == 2 {
                match self.adc_gpio2 {
                    Some(raw) => Some(GpioEvent::AdcReading { pin: 2, raw }),
                    None => None,
                }
            } else if sel == 5 {
                match self.adc_gpio5 {
                    Some(raw) => Some(GpioEvent::AdcReading { pin: 5, raw }),
                    None => None,
                }
            } else {
                Some(GpioEvent::NoAdc { pin: sel as usize })
            }
        } else {
            None
        }
    }

    /// The state after new ADC readings of pins 2 and 5: the readings are
    /// kept, and a reading that came back sets the pin's level to whether it
    /// is above [`ADC_HIGH_THRESHOLD`].
    pub open spec fn after_refresh(self, adc2: Option<u16>, adc5: Option<u16>) -> GpioState {
        let in2 = match adc2 {
            Some(a) => self.inputs.update(2, a > ADC_HIGH_THRESHOLD),
            None => self.inputs,
        };
        let in5 = match adc5 {
            Some(a) => in2.update(5, a > ADC_HIGH_THRESHOLD),
            None => in2,
        };
        GpioState { inputs: in5, adc_gpio2: adc2, adc_gpio5: adc5, ..self }
    }

    /// Text of the DIR column of pin `pin`.
    pub open spec fn dir_text(self, pin: nat) -> Seq<char> {
        if self.directions[pin as int] == PinDirection::Input {
            "IN "@
        } else {
            "OUT"@
        }
    }

    /// Text of the OUT column of pin `pin`.
    pub open spec fn out_text(self, pin: nat) -> Seq<char> {
        if self.directions[pin as int] == PinDirection::Output {
            if self.outputs[pin as int] {
                "[1]"@
            } else {
                "[0]"@
            }
        } else {
            " - "@
        }
    }

    /// Text of the IN column of pin `pin`: the inferred level of an ADC pin,
    /// `?` for another input pin, `-` for an output.
    pub open spec fn in_text(self, pin: nat) -> Seq<char> {
        if self.directions[pin as int] == PinDirection::Input {
            if has_adc(pin) {
                if self.inputs[pin as int] {
                    "1"@
                } else {
                    "0"@
                }
            } else {
                "?"@
            }
        } else {
            "-"@
        }
    }

    /// Text of the ADC column of pin `pin`: the voltage of the last reading
    /// (raw * 3.3 V / 4096), `N/A` when there is none, `-` for pins without ADC.
    pub open spec fn adc_text(self, pin: nat) -> Seq<char> {
        if has_adc(pin) {
            match if pin == 2 {
                self.adc_gpio2
            } else {
                self.adc_gpio5
            } {
                Some(raw) => milli_two_decimals((raw * 3300 / 4096) as nat) + "V"@,
                None => "N/A"@,
            }
        } else {
            "-"@
        }
    }

    /// The table row of pin `pin`: a marker for ADC pins, the pin number
    /// right-aligned on two columns, then direction, desired level, level read
    /// and voltage.
    pub open spec fn row_text(self, pin: nat) -> Seq<char> {
        (if has_adc(pin) {
            seq!['\u{25B8}']
        } else {
            seq![' ']
        }) + pad_left(dec(pin), 2, ' ') + "   "@ + self.dir_text(pin) + "   "@ + self.out_text(pin)
            + "    "@ + self.in_text(pin) + "   "@ + self.adc_text(pin)
    }
}

/// The direction stored for pin `i` in a direction bit mask.
pub open spec fn direction_of_bit(mask: u8, i: nat) -> PinDirection {
    if bit_set(mask, i) {
        PinDirection::Output
    } else {
        PinDirection::Input
    }
}

proof fn lemma_set_bit(m: u8, i: u8, j: u8)
    requires
        i < 8,
        j < 8,
    ensures
        ((m | (1u8 << i)) >> j) & 1u8 == 1u8 <==> (((m >> j) & 1u8 == 1u8) || i == j),
{
    assert(((m | (1u8 << i)) >> j) & 1u8 == 1u8 <==> (((m >> j) & 1u8 == 1u8) || i == j))
        by (bit_vector)
        requires
            i < 8,
            j < 8,
    ;
}

proof fn lemma_zero_bits(j: u8)
    requires
        j < 8,
    ensures
        !((0u8 >> j) & 1u8 == 1u8),
{
    assert(!((0u8 >> j) & 1u8 == 1u8)) by (bit_vector);
}

/// Two masks that agree on all eight bits are equal.
pub proof fn lemma_mask_determined(a: u8, b: u8)
    requires
        forall|i: nat| i < 8 ==> bit_set(a, i) == bit_set(b, i),
    ensures
        a == b,
{
    assert(bit_set(a, 0) == bit_set(b, 0));
    assert(bit_set(a, 1) == bit_set(b, 1));
    assert(bit_set(a, 2) == bit_set(b, 2));
    assert(bit_set(a, 3) == bit_set(b, 3));
    assert(bit_set(a, 4) == bit_set(b, 4));
    assert(bit_set(a, 5) == bit_set(b, 5));
    assert(bit_set(a, 6) == bit_set(b, 6));
    assert(bit_set(a, 7) == bit_set(b, 7));
    assert(a == b) by (bit_vector)
        requires
            ((a >> 0u8) & 1u8 == 1u8) == ((b >> 0u8) & 1u8 == 1u8),
            ((a >> 1u8) & 1u8 == 1u8) == ((b >> 1u8) & 1u8 == 1u8),
            ((a >> 2u8) & 1u8 == 1u8) == ((b >> 2u8) & 1u8 == 1u8),
            ((a >> 3u8) & 1u8 == 1u8) == ((b >> 3u8) & 1u8 == 1u8),
            ((a >> 4u8) & 1u8 == 1u8) == ((b >> 4u8) & 1u8 == 1u8),
            ((a >> 5u8) & 1u8 == 1u8) == ((b >> 5u8) & 1u8 == 1u8),
            ((a >> 6u8) & 1u8 == 1u8) == ((b >> 6u8) & 1u8 == 1u8),
            ((a >> 7u8) & 1u8 == 1u8) == ((b >> 7u8) & 1u8 == 1u8),
    ;
}

/// The mask with bit `i` set exactly where `flags[i]` holds.
fn mask_of(flags: &[bool; 8]) -> (mask: u8)
    ensures
        forall|i: nat| i < 8 ==> bit_set(mask, i) == flags@[i as int],
{
    let mut mask: u8 = 0;
    let mut i: usize = 0;
    proof {
        assert forall|j: nat| j < 8 implies !bit_set(mask, j) by {
            lemma_zero_bits(j as u8);
        }
    }
    while i < 8
        invariant
            i <= 8,
            forall|j: nat| j < i ==> bit_set(mask, j) == flags@[j as int],
            forall|j: nat| i <= j < 8 ==> !bit_set(mask, j),
        decreases 8 - i,
    {
        let ghost old_mask = mask;
        if flags[i] {
            mask = mask | (1u8 << (i as u8));
            proof {
                assert forall|j: nat| j < 8 implies bit_set(mask, j) == (bit_set(old_mask, j) || j
                    == i) by {
                    lemma_set_bit(old_mask, i as u8, j as u8);
                }
            }
        }
        i = i + 1;
    }
    mask
}

/// The tab a session starts with: directions and desired levels restored
/// from the settings' bit masks, levels low, no ADC reading, cursor on pin 0.
pub open spec fn restored_state(settings: Settings) -> GpioState {
    GpioState {
        directions: Seq::new(8, |i: int| direction_of_bit(settings.gpio_directions, i as nat)),
        outputs: Seq::new(8, |i: int| bit_set(settings.gpio_outputs, i as nat)),
        inputs: Seq::new(8, |_i: int| false),
        adc_gpio2: None,
        adc_gpio5: None,
        selected_pin: 0,
    }
}

impl View for GpioTab {
    type V = GpioState;

    closed spec fn view(&self) -> GpioState {
        GpioState {
            directions: self.directions@,
            outputs: self.outputs@,
            inputs: self.inputs@,
            adc_gpio2: self.adc_gpio2,
            adc_gpio5: self.adc_gpio5,
            selected_pin: self.selected_pin as nat,
        }
    }
}

impl GpioTab {
    /// Eight pins and a cursor on one of them.
    pub open spec fn wf(&self) -> bool {
        self@.valid()
    }

    /// The tab as a session starts: directions and desired levels restored
    /// from the settings' bit masks, levels low, no ADC reading, cursor on pin 0.
    pub fn new(settings: &Settings) -> (tab: GpioTab)
        ensures
            tab.wf(),
            tab@ == restored_state(*settings),
    {
        let mut directions = [PinDirection::Input;8];
        let mut i: usize = 0;
        while i < 8
            invariant
                i <= 8,
                forall|j: nat| j < i ==> directions@[j as int] == direction_of_bit(settings.gpio_directions, j),
            decreases 8 - i,
        {
            if (settings.gpio_directions >> (i as u8)) & 1 == 1 {
                directions[i] = PinDirection::Output;
            } else {
                directions[i] = PinDirection::Input;
            }
            i = i + 1;
        }
        let mut outputs = [false;8];
        let mut i: usize = 0;
        while i < 8
            invariant
                i <= 8,
                forall|j: nat| j < i ==> outputs@[j as int] == bit_set(settings.gpio_outputs, j),
            decreases 8 - i,
        {
            outputs[i] = (settings.gpio_outputs >> (i as u8)) & 1 == 1;
            i = i + 1;
        }
        let tab = GpioTab {
            directions,
            outputs,
            inputs: [false;8],
            adc_gpio2: None,
            adc_gpio5: None,
            selected_pin: 0,
        };
        assert(tab@.inputs =~= restored_state(*settings).inputs);
        assert(tab@.directions =~= restored_state(*settings).directions);
        assert(tab@.outputs =~= restored_state(*settings).outputs);
        tab
    }

    /// The pin under the cursor.
    pub fn selected_pin(&self) -> (pin: usize)
        ensures
            pin == self@.selected_pin,
    {
        self.selected_pin
    }

    /// Direction of pin `pin`.
    pub fn direction(&self, pin: usize) -> (d: PinDirection)
        requires
            pin < GPIO_PIN_COUNT,
        ensures
            d == self@.directions[pin as int],
    {
        self.directions[pin]
    }

    /// Desired level of pin `pin`.
    pub fn output(&self, pin: usize) -> (level: bool)
        requires
            pin < GPIO_PIN_COUNT,
        ensures
            level == self@.outputs[pin as int],
    {
        self.outputs[pin]
    }

    /// Level last inferred for pin `pin`.
    pub fn input(&self, pin: usize) -> (level: bool)
        requires
            pin < GPIO_PIN_COUNT,
        ensures
            level == self@.inputs[pin as int],
    {
        self.inputs[pin]
    }

    /// Last raw ADC readings of pins 2 and 5.
    pub fn adc_readings(&self) -> (r: (Option<u16>, Option<u16>))
        ensures
            r == (self@.adc_gpio2, self@.adc_gpio5),
    {
        (self.adc_gpio2, self.adc_gpio5)
    }

    /// The direction mask to apply to the hardware: bit `i` set exactly when
    /// pin `i` is an output.
    pub fn direction_mask(&self) -> (mask: u8)
        ensures
            forall|i: nat| i < 8 ==> bit_set(mask, i) == (self@.directions[i as int] == PinDirection::Output),
    {
        let mut flags = [false;8];
        let mut i: usize = 0;
        while i < 8
            invariant
                i <= 8,
                forall|j: int| 0 <= j < i ==> flags@[j] == (self.directions@[j] == PinDirection::Output),
            decreases 8 - i,
        {
            flags[i] = self.directions[i] == PinDirection::Output;
            i = i + 1;
        }
        mask_of(&flags)
    }

    /// The desired-level mask: bit `i` set exactly when pin `i` is meant to
    /// drive a high level.
    pub fn output_mask(&self) -> (mask: u8)
        ensures
            forall|i: nat| i < 8 ==> bit_set(mask, i) == self@.outputs[i as int],
    {
        mask_of(&self.outputs)
    }

    /// Takes new ADC readings of pins 2 and 5 (`None` where the reading
    /// failed); after the direction mask has been applied to the hardware.
    pub fn refresh(&mut self, adc_gpio2: Option<u16>, adc_gpio5: Option<u16>)
        requires
            old(self).wf(),
        ensures
            final(self).wf(),
            final(self)@ == old(self)@.after_refresh(adc_gpio2, adc_gpio5),
    {
        self.adc_gpio2 = adc_gpio2;
        self.adc_gpio5 = adc_gpio5;
        if let Some(adc) = adc_gpio2 {
            self.inputs[2] = adc > ADC_HIGH_THRESHOLD;
        }
        if let Some(adc) = adc_gpio5 {
            self.inputs[5] = adc > ADC_HIGH_THRESHOLD;
        }
        assert(self@ =~= old(self)@.after_refresh(adc_gpio2, adc_gpio5));
    }

    /// Handles a key press of the GPIO tab; returns what it has to report.
    pub fn handle_key(&mut self, key: char) -> (event: Option<GpioEvent>)
        requires
            old(self).wf(),
        ensures
            final(self).wf(),
            final(self)@ == old(self)@.after_key(key),
            event == old(self)@.key_event(key),
    {
        let mut event: Option<GpioEvent> = None;
        let code = key as u32;
        if key == '\u{2191}' {
            if self.selected_pin > 0 {
                self.selected_pin = self.selected_pin - 1;
            } else {
                self.selected_pin = 7;
            }
        } else if key == '\u{2193}' {
            if self.selected_pin < 7 {
                self.selected_pin = self.selected_pin + 1;
            } else {
                self.selected_pin = 0;
            }
        } else if 48 <= code && code <= 55 {
            let pin = (code - 48) as usize;
            if self.directions[pin] == PinDirection::Output {
                self.outputs[pin] = !self.outputs[pin];
                event = Some(GpioEvent::OutputToggled { pin, level: self.outputs[pin] });
            } else {
                self.selected_pin = pin;
                self.directions[pin] = PinDirection::Output;
                event = Some(GpioEvent::SwitchedToOutput { pin });
            }
        } else if key == 'i' || key == 'I' {
            let sel = self.selected_pin;
            self.directions[sel] = PinDirection::Input;
            event = Some(GpioEvent::DirectionSet { pin: sel, direction: PinDirection::Input });
        } else if key == 'o' || key == 'O' {
            let sel = self.selected_pin;
            self.directions[sel] = PinDirection::Output;
            event = Some(GpioEvent::DirectionSet { pin: sel, direction: PinDirection::Output });
        } else if key == ' ' {
            let sel = self.selected_pin;
            if self.directions[sel] == PinDirection::Output {
                self.outputs[sel] = !self.outputs[sel];
                event = Some(GpioEvent::SelectedToggled { pin: sel, level: self.outputs[sel] });
            }
        } else if key == 'a' || key == 'A' {
            let sel = self.selected_pin;
            if sel == 2 {
                if let Some(raw) = self.adc_gpio2 {
                    event = Some(GpioEvent::AdcReading { pin: 2, raw });
                }
            } else if sel == 5 {
                if let Some(raw) = self.adc_gpio5 {
                    event = Some(GpioEvent::AdcReading { pin: 5, raw });
                }
            } else {
                event = Some(GpioEvent::NoAdc { pin: sel });
            }
        }
        assert(self@ =~= old(self)@.after_key(key));
        event
    }

    /// Writes the direction and desired-level masks into `settings`, leaving
    /// its other fields as they are.
    pub fn save_to_settings(&self, settings: &mut Settings)
        ensures
            final(settings).last_tab == old(settings).last_tab,
            final(settings).uart_mux == old(settings).uart_mux,
            final(settings).auto_refresh == old(settings).auto_refresh,
            final(settings).refresh_interval_ms == old(settings).refresh_interval_ms,
            masks_saved(self@, *final(settings)),
    {
        let dir_mask = self.direction_mask();
        let out_mask = self.output_mask();
        settings.gpio_directions = dir_mask;
        settings.gpio_outputs = out_mask;
    }

    /// The table row of pin `pin` as the tab shows it.
    pub fn row_text(&self, pin: usize) -> (row: String)
        requires
            self.wf(),
            pin < GPIO_PIN_COUNT,
        ensures
            row@ == self@.row_text(pin as nat),
    {
        let has_adc = pin == 2 || pin == 5;
        let mut s = String::new();
        if has_adc {
            push_char(&mut s, '\u{25B8}');
        } else {
            push_char(&mut s, ' ');
        }
        push_dec_padded(&mut s, pin as u64, 2, ' ');
        push_str(&mut s, "   ");
        if self.directions[pin] == PinDirection::Input {
            push_str(&mut s, "IN ");
        } else {
            push_str(&mut s, "OUT");
        }
        push_str(&mut s, "   ");
        if self.directions[pin] == PinDirection::Output {
            if self.outputs[pin] {
                push_str(&mut s, "[1]");
            } else {
                push_str(&mut s, "[0]");
            }
        } else {
            push_str(&mut s, " - ");
        }
        push_str(&mut s, "    ");
        if self.directions[pin] == PinDirection::Input {
            if has_adc {
                if self.inputs[pin] {
                    push_str(&mut s, "1");
                } else {
                    push_str(&mut s, "0");
                }
            } else {
                push_str(&mut s, "?");
            }
        } else {
            push_str(&mut s, "-");
        }
        push_str(&mut s, "   ");
        if has_adc {
            let reading = if pin == 2 {
                self.adc_gpio2
            } else {
                self.adc_gpio5
            };
            match reading {
                Some(raw) => {
                    let mv: u32 = (raw as u32 * 3300) / 4096;
                    push_milli_two_decimals(&mut s, mv as u64);
                    push_str(&mut s, "V");
                },
                None => {
                    push_str(&mut s, "N/A");
                },
            }
        } else {
            push_str(&mut s, "-");
        }
        assert(s@ =~= self@.row_text(pin as nat));
        s
    }
}

/// What the table row of pin `pin` draws on a tab `width` pixels wide: the
/// highlight band under the selected row, then the row text, inverted when
/// selected.
pub open spec fn row_items(s: GpioState, width: int, pin: nat) -> Seq<DrawItem> {
    let y = 93 + 20 * (pin as int);
    let selected = pin == s.selected_pin;
    let text = plain_text(
        rect(23, y + 2, 15 + width - 10, y + 20),
        GlyphStyle::Monospace,
        s.row_text(pin),
        false,
        selected,
    );
    if selected {
        seq![
            styled_rect(rect(20, y, 15 + width - 5, y + 18), PixelColor::Dark, PixelColor::Dark, 0),
            text,
        ]
    } else {
        seq![text]
    }
}

/// The rows of the first `k` pins.
pub open spec fn rows_upto(s: GpioState, width: int, k: nat) -> Seq<DrawItem>
    decreases k,
{
    if k == 0 {
        Seq::empty()
    } else {
        rows_upto(s, width, (k - 1) as nat) + row_items(s, width, (k - 1) as nat)
    }
}

/// The whole GPIO tab on a screen of size `screen`: header, column titles and
/// rule, a row per pin, legend and note.
pub open spec fn gpio_layout(s: GpioState, screen: Point) -> Seq<DrawItem> {
    let width = screen.x - 30;
    seq![
        section_header_item(15, 45, width, "GPIO PINS"@),
        plain_text(rect(25, 69, 15 + width, 85), GlyphStyle::Small, "Pin   Dir    Out   In    ADC"@, true, false),
        DrawItem::Line {
            from: Point { x: 25, y: 89 },
            to: Point { x: (15 + width - 10) as isize, y: 89 },
            style: style(PixelColor::Dark, PixelColor::Dark, 1),
        },
    ] + rows_upto(s, width, 8) + seq![
        plain_text(
            rect(25, 261, 15 + width, 277),
            GlyphStyle::Small,
            "\u{25B8} = ADC capable  |  Dir change works"@,
            true,
            false,
        ),
        plain_text(
            rect(25, 277, 15 + width, 309),
            GlyphStyle::Small,
            "Note: Output toggle not yet supported by API"@,
            true,
            false,
        ),
    ]
}

impl GpioTab {
    /// The GPIO tab on a screen of size `screen`.
    pub fn draw(&self, screen: Point) -> (cmds: Vec<DrawCmd>)
        requires
            self.wf(),
            screen_fits(screen),
        ensures
            items(cmds@) == gpio_layout(self@, screen),
    {
        let width = screen.x - 30;
        let mut cmds: Vec<DrawCmd> = Vec::new();
        draw_section_header(&mut cmds, 15, 45, width, "GPIO PINS");
        push_text(
            &mut cmds,
            Rect { x0: 25, y0: 69, x1: 15 + width, y1: 85 },
            GlyphStyle::Small,
            string_of("Pin   Dir    Out   In    ADC"),
            true,
            false,
        );
        push_cmd(
            &mut cmds,
            DrawCmd::Line {
                from: Point { x: 25, y: 89 },
                to: Point { x: 15 + width - 10, y: 89 },
                style: DrawStyle {
                    fill: Some(PixelColor::Dark),
                    stroke: Some(PixelColor::Dark),
                    width: 1,
                },
            },
        );
        let ghost head = items(cmds@);
        let mut pin: usize = 0;
        let mut y: isize = 93;
        while pin < 8
            invariant
                self.wf(),
                screen_fits(screen),
                width == screen.x - 30,
                pin <= 8,
                y == 93 + 20 * pin,
                items(cmds@) == head + rows_upto(self@, width as int, pin as nat),
            decreases 8 - pin,
        {
            let selected = pin == self.selected_pin;
            let ghost before = items(cmds@);
            if selected {
                push_styled_rect(
                    &mut cmds,
                    Rect { x0: 20, y0: y, x1: 15 + width - 5, y1: y + 18 },
                    PixelColor::Dark,
                    PixelColor::Dark,
                    0,
                );
            }
            let row = self.row_text(pin);
            push_text(
                &mut cmds,
                Rect { x0: 23, y0: y + 2, x1: 15 + width - 10, y1: y + 20 },
                GlyphStyle::Monospace,
                row,
                false,
                selected,
            );
            assert(items(cmds@) =~= before + row_items(self@, width as int, pin as nat));
            assert(rows_upto(self@, width as int, (pin + 1) as nat) == rows_upto(
                self@,
                width as int,
                pin as nat,
            ) + row_items(self@, width as int, pin as nat));
            pin = pin + 1;
            y = y + 20;
        }
        push_text(
            &mut cmds,
            Rect { x0: 25, y0: 261, x1: 15 + width, y1: 277 },
            GlyphStyle::Small,
            string_of("\u{25B8} = ADC capable  |  Dir change works"),
            true,
            false,
        );
        push_text(
            &mut cmds,
            Rect { x0: 25, y0: 277, x1: 15 + width, y1: 309 },
            GlyphStyle::Small,
            string_of("Note: Output toggle not yet supported by API"),
            true,
            false,
        );
        assert(items(cmds@) =~= gpio_layout(self@, screen));
        cmds
    }
}

/// Whether `saved` holds the direction and desired-level masks of `tab`.
pub open spec fn masks_saved(tab: GpioState, saved: Settings) -> bool {
    &&& forall|i: nat| i < 8 ==> bit_set(saved.gpio_directions, i) == (tab.directions[i as int] == PinDirection::Output)
    &&& forall|i: nat| i < 8 ==> bit_set(saved.gpio_outputs, i) == tab.outputs[i as int]
}

/// A tab's configuration saved into settings and restored in a later session
/// comes back unchanged: every pin has the direction and desired level it had.
pub proof fn lemma_gpio_settings_roundtrip(tab: GpioState, saved: Settings)
    requires
        tab.valid(),
        masks_saved(tab, saved),
    ensures
        restored_state(saved).directions == tab.directions,
        restored_state(saved).outputs == tab.outputs,
{
    let restored = restored_state(saved);
    assert forall|i: int| 0 <= i < 8 implies restored.directions[i] == tab.directions[i] by {
        assert(bit_set(saved.gpio_directions, i as nat) == (tab.directions[i] == PinDirection::Output));
    }
    assert(restored.directions =~= tab.directions);
    assert forall|i: int| 0 <= i < 8 implies restored.outputs[i] == tab.outputs[i] by {
        assert(bit_set(saved.gpio_outputs, i as nat) == tab.outputs[i]);
    }
    assert(restored.outputs =~= tab.outputs);
}

/// Up then down, or down then up, leaves the tab as it was.
pub proof fn lemma_cursor_up_down_inverse(s: GpioState)
    requires
        s.valid(),
    ensures
        s.after_key(key_up()).after_key(key_down()) == s,
        s.after_key(key_down()).after_key(key_up()) == s,
{
}

/// Pressing the digit of an output pin twice restores its desired level.
pub proof fn lemma_output_toggle_twice(s: GpioState, key: char)
    requires
        s.valid(),
        is_pin_digit(key),
        s.directions[(key as u32 - 48) as int] == PinDirection::Output,
    ensures
        s.after_key(key).after_key(key) == s,
{
    let pin = (key as u32 - 48) as int;
    assert(s.outputs.update(pin, !s.outputs[pin]).update(pin, s.outputs[pin]) =~= s.outputs);
}

/// The direction keys set the selected pin's direction and nothing else.
pub proof fn lemma_direction_keys(s: GpioState)
    requires
        s.valid(),
    ensures
        s.after_key('o').directions[s.selected_pin as int] == PinDirection::Output,
        s.after_key('i').directions[s.selected_pin as int] == PinDirection::Input,
        forall|p: int| 0 <= p < 8 && p != s.selected_pin ==> s.after_key('o').directions[p] == s.directions[p],
        s.after_key('o').outputs == s.outputs,
        s.after_key('o').selected_pin == s.selected_pin,
{
}

/// Space on an output pin under the cursor drives it to the opposite level,
/// changes nothing else and reports the pin and its new level; pressed twice
/// it leaves the tab as it was. On an input pin it changes and reports
/// nothing.
pub proof fn lemma_space_toggles_selected_output(s: GpioState)
    requires
        s.valid(),
    ensures
        s.directions[s.selected_pin as int] == PinDirection::Output ==> {
            let sel = s.selected_pin as int;
            let t = s.after_key(' ');
            &&& t.outputs.len() == 8
            &&& t.outputs[sel] == !s.outputs[sel]
            &&& forall|p: int| 0 <= p < 8 && p != sel ==> t.outputs[p] == s.outputs[p]
            &&& t.directions == s.directions
            &&& t.inputs == s.inputs
            &&& t.selected_pin == s.selected_pin
            &&& t.adc_gpio2 == s.adc_gpio2
            &&& t.adc_gpio5 == s.adc_gpio5
            &&& s.key_event(' ') == Some(GpioEvent::SelectedToggled { pin: sel as usize, level: !s.outputs[sel] })
            &&& t.after_key(' ') == s
        },
        s.directions[s.selected_pin as int] == PinDirection::Input ==> s.after_key(' ') == s
            && s.key_event(' ') is None,
{
    let sel = s.selected_pin as int;
    assert(s.outputs.update(sel, !s.outputs[sel]).update(sel, s.outputs[sel]) =~= s.outputs);
}

/// The digit of an output pin drives that pin to the opposite level and
/// reports it, changing nothing else; the digit of an input pin moves the
/// cursor to it and makes it an output, keeping its desired level.
pub proof fn lemma_digit_toggles_or_switches(s: GpioState, key: char, pin: nat)
    requires
        s.valid(),
        pin < 8,
        key as u32 == 48 + pin,
    ensures
        s.directions[pin as int] == PinDirection::Output ==> {
            let t = s.after_key(key);
            &&& t.outputs.len() == 8
            &&& t.outputs[pin as int] == !s.outputs[pin as int]
            &&& forall|p: int| 0 <= p < 8 && p != pin ==> t.outputs[p] == s.outputs[p]
            &&& t.directions == s.directions
            &&& t.selected_pin == s.selected_pin
            &&& s.key_event(key) == Some(GpioEvent::OutputToggled { pin: pin as usize, level: !s.outputs[pin as int] })
        },
        s.directions[pin as int] == PinDirection::Input ==> {
            let t = s.after_key(key);
            &&& t.selected_pin == pin
            &&& t.directions[pin as int] == PinDirection::Output
            &&& forall|p: int| 0 <= p < 8 && p != pin ==> t.directions[p] == s.directions[p]
            &&& t.outputs == s.outputs
            &&& s.key_event(key) == Some(GpioEvent::SwitchedToOutput { pin: pin as usize })
        },
{
    assert(key != key_up() && key != key_down());
    assert(is_pin_digit(key));
}

/// In the table row of a pin, the DIR column (characters 6 to 8) reads `OUT`
/// or `IN `, and the OUT column (characters 12 to 14) shows the desired
/// level of an output pin as `[1]` when high and `[0]` when low, and ` - `
/// for an input pin.
pub proof fn lemma_row_columns(s: GpioState, pin: nat)
    requires
        s.valid(),
        pin < 8,
    ensures
        s.row_text(pin).len() >= 15,
        s.directions[pin as int] == PinDirection::Output ==> {
            &&& s.row_text(pin).subrange(6, 9) == "OUT"@
            &&& s.row_text(pin)[12] == '['
            &&& s.row_text(pin)[13] == if s.outputs[pin as int] {
                '1'
            } else {
                '0'
            }
            &&& s.row_text(pin)[14] == ']'
        },
        s.directions[pin as int] == PinDirection::Input ==> {
            &&& s.row_text(pin).subrange(6, 9) == "IN "@
            &&& s.row_text(pin).subrange(12, 15) == " - "@
        },
        s.row_text(pin)[2] == digit_char(pin),
        s.row_text(pin)[0] == if pin == 2 || pin == 5 {
            '\u{25B8}'
        } else {
            ' '
        },
        s.row_text(pin).len() >= 24,
        s.row_text(pin)[19] == if s.directions[pin as int] == PinDirection::Output {
            '-'
        } else if pin != 2 && pin != 5 {
            '?'
        } else if s.inputs[pin as int] {
            '1'
        } else {
            '0'
        },
        s.row_text(pin).subrange(23, s.row_text(pin).len() as int) == if pin != 2 && pin != 5 {
            "-"@
        } else {
            match if pin == 2 {
                s.adc_gpio2
            } else {
                s.adc_gpio5
            } {
                Some(raw) => milli_two_decimals((raw * 3300 / 4096) as nat) + "V"@,
                None => "N/A"@,
            }
        },
{
    reveal_strlit("   ");
    reveal_strlit("    ");
    reveal_strlit("IN ");
    reveal_strlit("OUT");
    reveal_strlit("[1]");
    reveal_strlit("[0]");
    reveal_strlit(" - ");
    let marker = if has_adc(pin) {
        seq!['\u{25B8}']
    } else {
        seq![' ']
    };
    assert(dec(pin) == seq![digit_char(pin)]);
    let num = pad_left(dec(pin), 2, ' ');
    assert(num.len() == 2);
    let head = marker + num + "   "@ + s.dir_text(pin) + "   "@;
    assert(head.len() == 12);
    let row = s.row_text(pin);
    let rest = "    "@ + s.in_text(pin) + "   "@ + s.adc_text(pin);
    assert(row =~= head + s.out_text(pin) + rest);
    assert(s.out_text(pin).len() == 3);
    assert(row.subrange(12, 15) =~= s.out_text(pin));
    assert(row.subrange(6, 9) =~= s.dir_text(pin));
    assert(row[12] == s.out_text(pin)[0]);
    assert(row[13] == s.out_text(pin)[1]);
    assert(row[14] == s.out_text(pin)[2]);
    assert(row[2] == num[1]);
    assert(row[0] == marker[0]);
    reveal_strlit("1");
    reveal_strlit("0");
    reveal_strlit("?");
    reveal_strlit("-");
    reveal_strlit("N/A");
    reveal_strlit("V");
    assert(s.in_text(pin).len() == 1);
    assert(row =~= head + s.out_text(pin) + "    "@ + s.in_text(pin) + "   "@ + s.adc_text(pin));
    assert(row[19] == s.in_text(pin)[0]);
    assert(s.adc_text(pin).len() >= 1);
    assert(row.subrange(23, row.len() as int) =~= s.adc_text(pin));
}

/// Up moves the cursor to the previous pin and down to the next, wrapping
/// around between pins 0 and 7; neither changes a pin nor reports anything.
pub proof fn lemma_cursor_moves(s: GpioState)
    requires
        s.valid(),
    ensures
        s.after_key(key_up()).selected_pin == (s.selected_pin + 7) % 8,
        s.after_key(key_down()).selected_pin == (s.selected_pin + 1) % 8,
        s.after_key(key_up()).directions == s.directions,
        s.after_key(key_up()).outputs == s.outputs,
        s.after_key(key_down()).directions == s.directions,
        s.after_key(key_down()).outputs == s.outputs,
        s.key_event(key_up()) is None,
        s.key_event(key_down()) is None,
{
}

/// `a` reports the last ADC reading of the selected pin when it is pin 2 or
/// 5 and has one, nothing when it has none, and that any other pin has no
/// ADC; it changes nothing.
pub proof fn lemma_adc_key_reports_reading(s: GpioState, key: char)
    requires
        s.valid(),
        key == 'a' || key == 'A',
    ensures
        s.after_key(key) == s,
        s.selected_pin == 2 ==> s.key_event(key) == match s.adc_gpio2 {
            Some(raw) => Some(GpioEvent::AdcReading { pin: 2, raw }),
            None => None,
        },
        s.selected_pin == 5 ==> s.key_event(key) == match s.adc_gpio5 {
            Some(raw) => Some(GpioEvent::AdcReading { pin: 5, raw }),
            None => None,
        },
        s.selected_pin != 2 && s.selected_pin != 5 ==> s.key_event(key) == Some(
            GpioEvent::NoAdc { pin: s.selected_pin as usize },
        ),
{
    assert(!is_pin_digit(key));
}

} // verus!
