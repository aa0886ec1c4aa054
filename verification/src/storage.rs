//! The persisted settings and their compact binary form.
//!
//! The settings are kept as a 9-byte record:
//! `[last_tab, gpio_directions, gpio_outputs, uart_mux, auto_refresh,
//! refresh_interval_ms (4 bytes, little endian)]`.

use vstd::prelude::*;

verus! {

/// Length in bytes of the stored settings record.
pub const SETTINGS_RECORD_LEN: usize = 9;

/// The settings that outlive a session of the application.
#[derive(Debug, Clone, Copy, PartialEq, Eq, Structural)]
pub struct Settings {
    /// Tab shown last (0 System, 1 GPIO, 2 UART).
    pub last_tab: u8,
    /// Bit `i` set: GPIO pin `i` is an output.
    pub gpio_directions: u8,
    /// Bit `i` set: GPIO pin `i` is meant to drive a high level.
    pub gpio_outputs: u8,
    /// Selected UART mux (0 Kernel, 1 Log, 2 Application).
    pub uart_mux: u8,
    /// Whether the data refreshes on its own.
    pub auto_refresh: bool,
    /// Refresh period in milliseconds.
    pub refresh_interval_ms: u32,
}

/// The settings used when none are stored: all pins inputs, the Log UART,
/// automatic refresh every 2000 ms, the System tab.
pub open spec fn default_settings() -> Settings {
    Settings {
        last_tab: 0,
        gpio_directions: 0,
        gpio_outputs: 0,
        uart_mux: 1,
        auto_refresh: true,
        refresh_interval_ms: 2000,
    }
}

/// The four bytes of `v`, least significant first.
pub open spec fn le_bytes(v: u32) -> Seq<u8> {
    seq![
        (v % 256) as u8,
        ((v / 256) % 256) as u8,
        ((v / 65536) % 256) as u8,
        (v / 16777216) as u8,
    ]
}

/// The value of four bytes read least significant first.
pub open spec fn le_value(b0: u8, b1: u8, b2: u8, b3: u8) -> u32 {
    (b0 + 256 * b1 + 65536 * b2 + 16777216 * b3) as u32
}

/// The stored form of `s`.
pub open spec fn encoded(s: Settings) -> Seq<u8> {
    seq![
        s.last_tab,
        s.gpio_directions,
        s.gpio_outputs,
        s.uart_mux,
        if s.auto_refresh {
            1u8
        } else {
            0u8
        },
    ] + le_bytes(s.refresh_interval_ms)
}

/// The settings that a stored record gives: the fields of its first nine
/// bytes, or the defaults when the record is shorter than that.
pub open spec fn decoded(b: Seq<u8>) -> Settings {
    if b.len() >= 9 {
        Settings {
            last_tab: b[0],
            gpio_directions: b[1],
            gpio_outputs: b[2],
            uart_mux: b[3],
            auto_refresh: b[4] != 0,
            refresh_interval_ms: le_value(b[5], b[6], b[7], b[8]),
        }
    } else {
        default_settings()
    }
}

impl Default for Settings {
    fn default() -> (s: Self)
        ensures
            s == default_settings(),
    {
        Settings {
            last_tab: 0,
            gpio_directions: 0x00,
            gpio_outputs: 0x00,
            uart_mux: 1,
            auto_refresh: true,
            refresh_interval_ms: 2000,
        }
    }
}

impl Settings {
    /// The stored form of these settings, nine bytes long.
    pub fn to_bytes(&self) -> (data: Vec<u8>)
        ensures
            data@ == encoded(*self),
            data@.len() == SETTINGS_RECORD_LEN,
    {
        let v = self.refresh_interval_ms;
        let mut data: Vec<u8> = Vec::new();
        data.push(self.last_tab);
        data.push(self.gpio_directions);
        data.push(self.gpio_outputs);
        data.push(self.uart_mux);
        data.push(
            if self.auto_refresh {
                1
            } else {
                0
            },
        );
        data.push((v % 256) as u8);
        data.push(((v / 256) % 256) as u8);
        data.push(((v / 65536) % 256) as u8);
        data.push((v / 16777216) as u8);
        assert(data@ =~= encoded(*self));
        data
    }

    /// The settings a stored record holds; the defaults when it is shorter
    /// than nine bytes. Bytes after the ninth are ignored.
    pub fn from_bytes(data: &[u8]) -> (s: Settings)
        ensures
            s == decoded(data@),
    {
        if data.len() >= SETTINGS_RECORD_LEN {
            let interval: u32 = data[5] as u32 + (data[6] as u32) * 256 + (data[7] as u32) * 65536
                + (data[8] as u32) * 16777216;
            Settings {
                last_tab: data[0],
                gpio_directions: data[1],
                gpio_outputs: data[2],
                uart_mux: data[3],
                auto_refresh: data[4] != 0,
                refresh_interval_ms: interval,
            }
        } else {
            Settings::default()
        }
    }

    /// The settings to start a session with, given what reading the stored
    /// record gave: `None` when there is no record or it could not be read.
    pub fn from_stored(stored: Option<&[u8]>) -> (s: Settings)
        ensures
            s == match stored {
                Some(data) => decoded(data@),
                None => default_settings(),
            },
    {
        match stored {
            Some(data) => Settings::from_bytes(data),
            None => Settings::default(),
        }
    }
}

proof fn lemma_le_roundtrip(v: u32)
    ensures
        le_value(le_bytes(v)[0], le_bytes(v)[1], le_bytes(v)[2], le_bytes(v)[3]) == v,
{
    assert((v % 256) + 256 * ((v / 256) % 256) + 65536 * ((v / 65536) % 256) + 16777216 * (v
        / 16777216) == v) by (bit_vector);
}

/// Settings written and then read back are the settings that were written:
/// the stored record is nine bytes long and reading it gives every field back.
pub proof fn lemma_settings_roundtrip(s: Settings)
    ensures
        encoded(s).len() == SETTINGS_RECORD_LEN,
        decoded(encoded(s)) == s,
{
    lemma_le_roundtrip(s.refresh_interval_ms);
    let b = encoded(s);
    assert(b.len() == 9);
    assert(b[5] == le_bytes(s.refresh_interval_ms)[0]);
    assert(b[6] == le_bytes(s.refresh_interval_ms)[1]);
    assert(b[7] == le_bytes(s.refresh_interval_ms)[2]);
    assert(b[8] == le_bytes(s.refresh_interval_ms)[3]);
}

/// Reading a record depends on its first nine bytes only.
pub proof fn lemma_decoded_ignores_tail(b: Seq<u8>, tail: Seq<u8>)
    requires
        b.len() >= SETTINGS_RECORD_LEN,
    ensures
        decoded(b + tail) == decoded(b),
{
    let c = b + tail;
    assert(c[0] == b[0] && c[1] == b[1] && c[2] == b[2] && c[3] == b[3] && c[4] == b[4]);
    assert(c[5] == b[5] && c[6] == b[6] && c[7] == b[7] && c[8] == b[8]);
}

} // verus!
