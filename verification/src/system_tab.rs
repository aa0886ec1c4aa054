//! The system monitor: the last telemetry read from the embedded controller
//! and the SoC, and its rendering as the texts of the tab.

use vstd::prelude::*;
use crate::text::{
    dec, hex, milli_two_decimals, pad_left, push_char, push_dec, push_hex_padded,
    push_milli_two_decimals, push_signed, push_str, signed_dec,
};
use crate::ui::{
    DrawCmd, DrawItem, Point, draw_label_value, draw_progress_bar, draw_section_header,
    format_duration_hms, hms_text, item_text, items, label_value_items, labelled,
    progress_bar_items, section_header_item, screen_fits,
};

verus! {

/// Battery gas gauge figures.
#[derive(Debug, Clone, Copy, PartialEq, Eq, Structural)]
pub struct BatteryStats {
    /// Battery voltage in millivolts.
    pub voltage: u16,
    /// State of charge in percent.
    pub soc: u8,
    /// Current in milliamperes, negative while discharging.
    pub current: i16,
    /// Remaining capacity in milliampere-hours.
    pub remaining_capacity: u16,
}

/// A firmware or gateware version.
#[derive(Debug, Clone, Copy, PartialEq, Eq, Structural)]
pub struct Version {
    pub maj: u16,
    pub min: u16,
    pub rev: u16,
    pub extra: u16,
    /// Git commit, when known.
    pub commit: Option<u32>,
}

/// One round of telemetry; `None` where a query failed.
#[derive(Debug, Clone, Copy, PartialEq, Eq)]
pub struct SystemReadings {
    pub batt_stats: Option<BatteryStats>,
    pub charging: Option<bool>,
    /// EC uptime in milliseconds.
    pub ec_uptime: Option<u64>,
    /// EC git revision and whether its tree was dirty.
    pub ec_git_rev: Option<(u32, bool)>,
    pub ec_sw_tag: Option<Version>,
    pub soc_git_rev: Option<Version>,
    /// Unique identifier of the SoC.
    pub soc_dna: Option<u64>,
    pub adc_vbus: Option<u16>,
    pub adc_temp: Option<u16>,
    pub adc_vccint: Option<u16>,
    pub adc_vccaux: Option<u16>,
    /// Raw accelerometer axes X, Y, Z.
    pub gyro: Option<(u16, u16, u16)>,
}

/// The tab: the telemetry last read.
pub struct SystemTab {
    cached: SystemReadings,
}

/// Texts of the battery section.
pub struct BatteryTexts {
    pub voltage: String,
    pub charge: String,
    /// Fill of the charge bar, in percent.
    pub charge_percent: u8,
    pub current: String,
    pub remaining: String,
}

/// The values the tab shows, as texts; `N/A` where a reading is missing.
pub struct SystemTexts {
    /// `None` when the battery figures are unavailable.
    pub battery: Option<BatteryTexts>,
    pub ec_uptime: String,
    pub ec_git: String,
    pub ec_fw: String,
    pub soc: String,
    pub dna: String,
    pub vbus: String,
    pub temp: String,
    pub vccint: String,
    pub vccaux: String,
    pub gyro: String,
}

/// A 16-bit raw value read as a two's complement signed number.
pub open spec fn as_signed16(v: u16) -> int {
    if v < 32768 {
        v as int
    } else {
        v - 65536
    }
}

/// Battery voltage text: volts with two decimals, `3.71 V`.
pub open spec fn voltage_text(mv: u16) -> Seq<char> {
    milli_two_decimals(mv as nat) + " V"@
}

/// Charge text, `87%`.
pub open spec fn charge_text(soc: u8) -> Seq<char> {
    dec(soc as nat) + "%"@
}

/// Current text: signed milliamperes (a plus sign when not negative), then
/// `(charging)` when the charger says so, else `(discharging)` for a negative
/// current.
pub open spec fn current_text(current: i16, charging: Option<bool>) -> Seq<char> {
    (if current >= 0 {
        "+"@ + dec(current as nat)
    } else {
        signed_dec(current as int)
    }) + " mA"@ + if charging == Some(true) {
        " (charging)"@
    } else if current < 0 {
        " (discharging)"@
    } else {
        ""@
    }
}

/// Remaining capacity text, `1200 mAh`.
pub open spec fn capacity_text(mah: u16) -> Seq<char> {
    dec(mah as nat) + " mAh"@
}

/// EC git revision text: eight hexadecimal digits, marked when dirty.
pub open spec fn git_rev_text(rev: u32, dirty: bool) -> Seq<char> {
    "0x"@ + pad_left(hex(rev as nat), 8, '0') + if dirty {
        " (dirty)"@
    } else {
        ""@
    }
}

/// `v<maj>.<min>.<rev>`.
pub open spec fn version_text(v: Version) -> Seq<char> {
    "v"@ + dec(v.maj as nat) + "."@ + dec(v.min as nat) + "."@ + dec(v.rev as nat)
}

/// SoC version text: the version, and the commit in eight hexadecimal digits
/// when known.
pub open spec fn soc_version_text(v: Version) -> Seq<char> {
    match v.commit {
        Some(c) => version_text(v) + " ("@ + pad_left(hex(c as nat), 8, '0') + ")"@,
        None => version_text(v),
    }
}

/// SoC DNA text: sixteen hexadecimal digits.
pub open spec fn dna_text(dna: u64) -> Seq<char> {
    pad_left(hex(dna as nat), 16, '0')
}

/// VBUS in millivolts from its raw ADC value (raw * 5.03).
pub open spec fn vbus_millivolts(raw: u16) -> nat {
    (raw * 503 / 100) as nat
}

/// Die temperature in degrees Celsius from its raw ADC value
/// (raw * 504 / 4096 kelvin, less 273).
pub open spec fn temperature_celsius(raw: u16) -> int {
    raw * 504 / 4096 - 273
}

/// A supply rail in millivolts from its raw ADC value (raw * 3 V / 4096).
pub open spec fn rail_millivolts(raw: u16) -> nat {
    (raw * 3000 / 4096) as nat
}

/// Volts with two decimals followed by `V`, `5.02V`.
pub open spec fn volts_text(mv: nat) -> Seq<char> {
    milli_two_decimals(mv) + "V"@
}

/// Accelerometer text, axes as signed numbers: `X:-12 Y:3 Z:1020`.
pub open spec fn gyro_text(x: u16, y: u16, z: u16) -> Seq<char> {
    "X:"@ + signed_dec(as_signed16(x)) + " Y:"@ + signed_dec(as_signed16(y)) + " Z:"@
        + signed_dec(as_signed16(z))
}

/// `f` applied to a present value, `N/A` for a missing one.
pub open spec fn or_na<T>(v: Option<T>, f: spec_fn(T) -> Seq<char>) -> Seq<char> {
    match v {
        Some(x) => f(x),
        None => "N/A"@,
    }
}

/// The readings kept after a refresh: the new ones, except that a failed
/// accelerometer read keeps the previous axes.
pub open spec fn after_refresh(old: SystemReadings, new: SystemReadings) -> SystemReadings {
    SystemReadings {
        gyro: if new.gyro is Some {
            new.gyro
        } else {
            old.gyro
        },
        ..new
    }
}

/// The readings of a tab that has read nothing yet.
pub open spec fn no_readings() -> SystemReadings {
    SystemReadings {
        batt_stats: None,
        charging: None,
        ec_uptime: None,
        ec_git_rev: None,
        ec_sw_tag: None,
        soc_git_rev: None,
        soc_dna: None,
        adc_vbus: None,
        adc_temp: None,
        adc_vccint: None,
        adc_vccaux: None,
        gyro: None,
    }
}

impl View for SystemTab {
    type V = SystemReadings;

    closed spec fn view(&self) -> SystemReadings {
        self.cached
    }
}

fn push_version(s: &mut String, v: &Version)
    ensures
        final(s)@ == old(s)@ + version_text(*v),
{
    let ghost start = s@;
    push_char(s, 'v');
    push_dec(s, v.maj as u64);
    push_char(s, '.');
    push_dec(s, v.min as u64);
    push_char(s, '.');
    push_dec(s, v.rev as u64);
    proof {
        reveal_strlit("v");
        reveal_strlit(".");
    }
    assert(s@ =~= start + version_text(*v));
}

fn na() -> (s: String)
    ensures
        s@ == "N/A"@,
{
    let mut s = String::new();
    push_str(&mut s, "N/A");
    s
}

/// Battery voltage text.
pub fn format_voltage(mv: u16) -> (s: String)
    ensures
        s@ == voltage_text(mv),
{
    let mut s = String::new();
    push_milli_two_decimals(&mut s, mv as u64);
    push_str(&mut s, " V");
    s
}

/// Charge text.
pub fn format_charge(soc: u8) -> (s: String)
    ensures
        s@ == charge_text(soc),
{
    let mut s = String::new();
    push_dec(&mut s, soc as u64);
    push_str(&mut s, "%");
    s
}

/// Current text with the charging state.
pub fn format_current(current: i16, charging: Option<bool>) -> (s: String)
    ensures
        s@ == current_text(current, charging),
{
    let mut s = String::new();
    if current >= 0 {
        push_str(&mut s, "+");
        push_dec(&mut s, current as u64);
    } else {
        push_signed(&mut s, current as i64);
    }
    push_str(&mut s, " mA");
    let is_charging = match charging {
        Some(c) => c,
        None => false,
    };
    if is_charging {
        push_str(&mut s, " (charging)");
    } else if current < 0 {
        push_str(&mut s, " (discharging)");
    } else {
        push_str(&mut s, "");
    }
    assert(s@ =~= current_text(current, charging));
    s
}

/// Remaining capacity text.
pub fn format_capacity(mah: u16) -> (s: String)
    ensures
        s@ == capacity_text(mah),
{
    let mut s = String::new();
    push_dec(&mut s, mah as u64);
    push_str(&mut s, " mAh");
    s
}

/// EC git revision text.
pub fn format_git_rev(rev: u32, dirty: bool) -> (s: String)
    ensures
        s@ == git_rev_text(rev, dirty),
{
    let mut s = String::new();
    push_str(&mut s, "0x");
    push_hex_padded(&mut s, rev as u64, 8);
    if dirty {
        push_str(&mut s, " (dirty)");
    } else {
        push_str(&mut s, "");
    }
    assert(s@ =~= git_rev_text(rev, dirty));
    s
}

/// EC firmware version text.
pub fn format_version(v: &Version) -> (s: String)
    ensures
        s@ == version_text(*v),
{
    let mut s = String::new();
    push_version(&mut s, v);
    assert(s@ =~= version_text(*v));
    s
}

/// SoC version text.
pub fn format_soc_version(v: &Version) -> (s: String)
    ensures
        s@ == soc_version_text(*v),
{
    let mut s = String::new();
    push_version(&mut s, v);
    if let Some(commit) = v.commit {
        push_str(&mut s, " (");
        push_hex_padded(&mut s, commit as u64, 8);
        push_str(&mut s, ")");
    }
    assert(s@ =~= soc_version_text(*v));
    s
}

/// SoC DNA text.
pub fn format_dna(dna: u64) -> (s: String)
    ensures
        s@ == dna_text(dna),
{
    let mut s = String::new();
    push_hex_padded(&mut s, dna, 16);
    assert(s@ =~= dna_text(dna));
    s
}

/// VBUS in millivolts.
pub fn vbus_mv(raw: u16) -> (mv: u32)
    ensures
        mv == vbus_millivolts(raw),
{
    (raw as u32 * 503) / 100
}

/// Die temperature in degrees Celsius.
pub fn temperature_c(raw: u16) -> (c: i32)
    ensures
        c == temperature_celsius(raw),
{
    let kelvin: u32 = (raw as u32 * 504) / 4096;
    kelvin as i32 - 273
}

/// A supply rail in millivolts.
pub fn rail_mv(raw: u16) -> (mv: u32)
    ensures
        mv == rail_millivolts(raw),
{
    (raw as u32 * 3000) / 4096
}

/// Volts text.
pub fn format_volts(mv: u32) -> (s: String)
    ensures
        s@ == volts_text(mv as nat),
{
    let mut s = String::new();
    push_milli_two_decimals(&mut s, mv as u64);
    push_str(&mut s, "V");
    s
}

/// Temperature text, `41C`.
pub fn format_temperature(raw: u16) -> (s: String)
    ensures
        s@ == signed_dec(temperature_celsius(raw)) + "C"@,
{
    let mut s = String::new();
    push_signed(&mut s, temperature_c(raw) as i64);
    push_str(&mut s, "C");
    s
}

fn signed16(v: u16) -> (i: i64)
    ensures
        i == as_signed16(v),
{
    if v < 32768 {
        v as i64
    } else {
        v as i64 - 65536
    }
}

/// Accelerometer text.
pub fn format_gyro(x: u16, y: u16, z: u16) -> (s: String)
    ensures
        s@ == gyro_text(x, y, z),
{
    let mut s = String::new();
    push_str(&mut s, "X:");
    push_signed(&mut s, signed16(x));
    push_str(&mut s, " Y:");
    push_signed(&mut s, signed16(y));
    push_str(&mut s, " Z:");
    push_signed(&mut s, signed16(z));
    s
}

impl SystemTab {
    /// A tab that has read nothing yet.
    pub fn new() -> (tab: SystemTab)
        ensures
            tab@ == no_readings(),
    {
        SystemTab {
            cached: SystemReadings {
                batt_stats: None,
                charging: None,
                ec_uptime: None,
                ec_git_rev: None,
                ec_sw_tag: None,
                soc_git_rev: None,
                soc_dna: None,
                adc_vbus: None,
                adc_temp: None,
                adc_vccint: None,
                adc_vccaux: None,
                gyro: None,
            },
        }
    }

    /// The readings kept.
    pub fn readings(&self) -> (r: SystemReadings)
        ensures
            r == self@,
    {
        self.cached
    }

    /// Takes a new round of telemetry.
    pub fn refresh(&mut self, readings: SystemReadings)
        ensures
            final(self)@ == after_refresh(old(self)@, readings),
    {
        let gyro = match readings.gyro {
            Some(g) => Some(g),
            None => self.cached.gyro,
        };
        self.cached = SystemReadings { gyro, ..readings };
    }

    /// Handles a key press of the system tab: `r` asks for a fresh round of
    /// telemetry, which this returns `true` for. The tab itself is unchanged.
    pub fn handle_key(&mut self, key: char) -> (refresh: bool)
        ensures
            final(self)@ == old(self)@,
            refresh == (key == 'r' || key == 'R'),
    {
        key == 'r' || key == 'R'
    }

    /// The texts of the tab.
    pub fn texts(&self) -> (t: SystemTexts)
        ensures
            t.battery is None <==> self@.batt_stats is None,
            t.battery matches Some(b) ==> {
                let stats = self@.batt_stats.unwrap();
                &&& b.voltage@ == voltage_text(stats.voltage)
                &&& b.charge@ == charge_text(stats.soc)
                &&& b.charge_percent == stats.soc
                &&& b.current@ == current_text(stats.current, self@.charging)
                &&& b.remaining@ == capacity_text(stats.remaining_capacity)
            },
            t.ec_uptime@ == or_na(self@.ec_uptime, |ms: u64| hms_text(ms)),
            t.ec_git@ == or_na(self@.ec_git_rev, |r: (u32, bool)| git_rev_text(r.0, r.1)),
            t.ec_fw@ == or_na(self@.ec_sw_tag, |v: Version| version_text(v)),
            t.soc@ == or_na(self@.soc_git_rev, |v: Version| soc_version_text(v)),
            t.dna@ == or_na(self@.soc_dna, |d: u64| dna_text(d)),
            t.vbus@ == or_na(self@.adc_vbus, |raw: u16| volts_text(vbus_millivolts(raw))),
            t.temp@ == or_na(
                self@.adc_temp,
                |raw: u16| signed_dec(temperature_celsius(raw)) + "C"@,
            ),
            t.vccint@ == or_na(self@.adc_vccint, |raw: u16| volts_text(rail_millivolts(raw))),
            t.vccaux@ == or_na(self@.adc_vccaux, |raw: u16| volts_text(rail_millivolts(raw))),
            t.gyro@ == or_na(self@.gyro, |g: (u16, u16, u16)| gyro_text(g.0, g.1, g.2)),
    {
        let c = &self.cached;
        let battery = match c.batt_stats {
            Some(stats) => Some(
                BatteryTexts {
                    voltage: format_voltage(stats.voltage),
                    charge: format_charge(stats.soc),
                    charge_percent: stats.soc,
                    current: format_current(stats.current, c.charging),
                    remaining: format_capacity(stats.remaining_capacity),
                },
            ),
            None => None,
        };
        let ec_uptime = match c.ec_uptime {
            Some(ms) => format_duration_hms(ms),
            None => na(),
        };
        let ec_git = match c.ec_git_rev {
            Some((rev, dirty)) => format_git_rev(rev, dirty),
            None => na(),
        };
        let ec_fw = match &c.ec_sw_tag {
            Some(v) => format_version(v),
            None => na(),
        };
        let soc = match &c.soc_git_rev {
            Some(v) => format_soc_version(v),
            None => na(),
        };
        let dna = match c.soc_dna {
            Some(d) => format_dna(d),
            None => na(),
        };
        let vbus = match c.adc_vbus {
            Some(raw) => format_volts(vbus_mv(raw)),
            None => na(),
        };
        let temp = match c.adc_temp {
            Some(raw) => format_temperature(raw),
            None => na(),
        };
        let vccint = match c.adc_vccint {
            Some(raw) => format_volts(rail_mv(raw)),
            None => na(),
        };
        let vccaux = match c.adc_vccaux {
            Some(raw) => format_volts(rail_mv(raw)),
            None => na(),
        };
        let gyro = match c.gyro {
            Some((x, y, z)) => format_gyro(x, y, z),
            None => na(),
        };
        SystemTexts { battery, ec_uptime, ec_git, ec_fw, soc, dna, vbus, temp, vccint, vccaux, gyro }
    }
}

/// Width of a value field: wider when a value is shown than for `N/A`.
pub open spec fn value_width<T>(v: Option<T>, wide: int) -> int {
    if v is Some {
        wide
    } else {
        150
    }
}

/// The battery section below its header: voltage, charge with its bar,
/// current and remaining capacity, or a single `unavailable` line.
pub open spec fn battery_items(r: SystemReadings) -> Seq<DrawItem> {
    match r.batt_stats {
        Some(st) => label_value_items(25, 67, 100, 150, "Voltage:"@, voltage_text(st.voltage))
            + label_value_items(25, 85, 100, 60, "Charge:"@, charge_text(st.soc))
            + progress_bar_items(185, 87, 120, 12, st.soc) + label_value_items(
            25,
            103,
            100,
            200,
            "Current:"@,
            current_text(st.current, r.charging),
        ) + label_value_items(25, 121, 100, 150, "Remaining:"@, capacity_text(st.remaining_capacity)),
        None => label_value_items(25, 67, 100, 150, "Status:"@, "unavailable"@),
    }
}

/// The system section below its header: EC uptime, EC git revision, EC
/// firmware, SoC version and DNA.
pub open spec fn system_info_items(r: SystemReadings) -> Seq<DrawItem> {
    label_value_items(
        25,
        169,
        100,
        value_width(r.ec_uptime, 200),
        "EC Uptime:"@,
        or_na(r.ec_uptime, |ms: u64| hms_text(ms)),
    ) + label_value_items(
        25,
        187,
        100,
        value_width(r.ec_git_rev, 200),
        "EC Git:"@,
        or_na(r.ec_git_rev, |g: (u32, bool)| git_rev_text(g.0, g.1)),
    ) + label_value_items(25, 205, 100, 150, "EC FW:"@, or_na(r.ec_sw_tag, |v: Version| version_text(v)))
        + label_value_items(
        25,
        223,
        100,
        value_width(r.soc_git_rev, 200),
        "SoC:"@,
        or_na(r.soc_git_rev, |v: Version| soc_version_text(v)),
    ) + label_value_items(
        25,
        241,
        100,
        value_width(r.soc_dna, 200),
        "DNA:"@,
        or_na(r.soc_dna, |d: u64| dna_text(d)),
    )
}

/// The ADC section below its header: VBUS and temperature, VccInt and
/// VccAux side by side, then the accelerometer.
pub open spec fn adc_items(r: SystemReadings) -> Seq<DrawItem> {
    label_value_items(
        25,
        283,
        80,
        80,
        "VBUS:"@,
        or_na(r.adc_vbus, |raw: u16| volts_text(vbus_millivolts(raw))),
    ) + label_value_items(
        185,
        283,
        80,
        60,
        "Temp:"@,
        or_na(r.adc_temp, |raw: u16| signed_dec(temperature_celsius(raw)) + "C"@),
    ) + label_value_items(
        25,
        301,
        80,
        80,
        "VccInt:"@,
        or_na(r.adc_vccint, |raw: u16| volts_text(rail_millivolts(raw))),
    ) + label_value_items(
        185,
        301,
        80,
        80,
        "VccAux:"@,
        or_na(r.adc_vccaux, |raw: u16| volts_text(rail_millivolts(raw))),
    ) + label_value_items(
        25,
        319,
        80,
        if r.gyro is Some {
            220
        } else {
            150
        },
        "Gyro:"@,
        or_na(r.gyro, |g: (u16, u16, u16)| gyro_text(g.0, g.1, g.2)),
    )
}

/// The whole system tab on a screen of size `screen`.
pub open spec fn system_layout(r: SystemReadings, screen: Point) -> Seq<DrawItem> {
    let width = screen.x - 30;
    seq![section_header_item(15, 45, width, "BATTERY"@)] + battery_items(r) + seq![
        section_header_item(15, 147, width, "SYSTEM"@),
    ] + system_info_items(r) + seq![section_header_item(15, 263, width, "ADC / SENSORS"@)]
        + adc_items(r)
}

impl SystemTab {
    fn draw_battery(&self, cmds: &mut Vec<DrawCmd>, t: &Option<BatteryTexts>)
        requires
            t.is_none() <==> self@.batt_stats is None,
            t matches Some(b) ==> {
                let stats = self@.batt_stats.unwrap();
                &&& b.voltage@ == voltage_text(stats.voltage)
                &&& b.charge@ == charge_text(stats.soc)
                &&& b.charge_percent == stats.soc
                &&& b.current@ == current_text(stats.current, self@.charging)
                &&& b.remaining@ == capacity_text(stats.remaining_capacity)
            },
        ensures
            items(final(cmds)@) == items(old(cmds)@) + battery_items(self@),
    {
        let ghost before = items(cmds@);
        match t {
            Some(b) => {
                draw_label_value(cmds, 25, 67, 100, 150, "Voltage:", b.voltage.clone());
                draw_label_value(cmds, 25, 85, 100, 60, "Charge:", b.charge.clone());
                draw_progress_bar(cmds, 185, 87, 120, 12, b.charge_percent);
                draw_label_value(cmds, 25, 103, 100, 200, "Current:", b.current.clone());
                draw_label_value(cmds, 25, 121, 100, 150, "Remaining:", b.remaining.clone());
            },
            None => {
                draw_label_value(cmds, 25, 67, 100, 150, "Status:", string_of_lit("unavailable"));
            },
        }
        assert(items(cmds@) =~= before + battery_items(self@));
    }

    fn draw_system_info(&self, cmds: &mut Vec<DrawCmd>, t: &SystemTexts)
        requires
            t.ec_uptime@ == or_na(self@.ec_uptime, |ms: u64| hms_text(ms)),
            t.ec_git@ == or_na(self@.ec_git_rev, |r: (u32, bool)| git_rev_text(r.0, r.1)),
            t.ec_fw@ == or_na(self@.ec_sw_tag, |v: Version| version_text(v)),
            t.soc@ == or_na(self@.soc_git_rev, |v: Version| soc_version_text(v)),
            t.dna@ == or_na(self@.soc_dna, |d: u64| dna_text(d)),
        ensures
            items(final(cmds)@) == items(old(cmds)@) + system_info_items(self@),
    {
        let ghost before = items(cmds@);
        let w_up: isize = if self.cached.ec_uptime.is_some() { 200 } else { 150 };
        draw_label_value(cmds, 25, 169, 100, w_up, "EC Uptime:", t.ec_uptime.clone());
        let w_git: isize = if self.cached.ec_git_rev.is_some() { 200 } else { 150 };
        draw_label_value(cmds, 25, 187, 100, w_git, "EC Git:", t.ec_git.clone());
        draw_label_value(cmds, 25, 205, 100, 150, "EC FW:", t.ec_fw.clone());
        let w_soc: isize = if self.cached.soc_git_rev.is_some() { 200 } else { 150 };
        draw_label_value(cmds, 25, 223, 100, w_soc, "SoC:", t.soc.clone());
        let w_dna: isize = if self.cached.soc_dna.is_some() { 200 } else { 150 };
        draw_label_value(cmds, 25, 241, 100, w_dna, "DNA:", t.dna.clone());
        assert(items(cmds@) =~= before + system_info_items(self@));
    }

    fn draw_adc(&self, cmds: &mut Vec<DrawCmd>, t: &SystemTexts)
        requires
            t.vbus@ == or_na(self@.adc_vbus, |raw: u16| volts_text(vbus_millivolts(raw))),
            t.temp@ == or_na(
                self@.adc_temp,
                |raw: u16| signed_dec(temperature_celsius(raw)) + "C"@,
            ),
            t.vccint@ == or_na(self@.adc_vccint, |raw: u16| volts_text(rail_millivolts(raw))),
            t.vccaux@ == or_na(self@.adc_vccaux, |raw: u16| volts_text(rail_millivolts(raw))),
            t.gyro@ == or_na(self@.gyro, |g: (u16, u16, u16)| gyro_text(g.0, g.1, g.2)),
        ensures
            items(final(cmds)@) == items(old(cmds)@) + adc_items(self@),
    {
        let ghost before = items(cmds@);
        draw_label_value(cmds, 25, 283, 80, 80, "VBUS:", t.vbus.clone());
        draw_label_value(cmds, 185, 283, 80, 60, "Temp:", t.temp.clone());
        draw_label_value(cmds, 25, 301, 80, 80, "VccInt:", t.vccint.clone());
        draw_label_value(cmds, 185, 301, 80, 80, "VccAux:", t.vccaux.clone());
        let w_gyro: isize = if self.cached.gyro.is_some() { 220 } else { 150 };
        draw_label_value(cmds, 25, 319, 80, w_gyro, "Gyro:", t.gyro.clone());
        assert(items(cmds@) =~= before + adc_items(self@));
    }

    /// The system tab on a screen of size `screen`: battery, system and ADC
    /// sections, each under its header.
    pub fn draw(&self, screen: Point) -> (cmds: Vec<DrawCmd>)
        requires
            screen_fits(screen),
        ensures
            items(cmds@) == system_layout(self@, screen),
    {
        let t = self.texts();
        let width = screen.x - 30;
        let mut cmds: Vec<DrawCmd> = Vec::new();
        draw_section_header(&mut cmds, 15, 45, width, "BATTERY");
        self.draw_battery(&mut cmds, &t.battery);
        draw_section_header(&mut cmds, 15, 147, width, "SYSTEM");
        self.draw_system_info(&mut cmds, &t);
        draw_section_header(&mut cmds, 15, 263, width, "ADC / SENSORS");
        self.draw_adc(&mut cmds, &t);
        assert(items(cmds@) =~= system_layout(self@, screen));
        cmds
    }
}

fn string_of_lit(t: &str) -> (s: String)
    ensures
        s@ == t@,
{
    crate::ui::string_of(t)
}

/// On the system tab every reading is drawn right of the label that names
/// it, as that reading's own text, or `N/A` where it could not be read: the
/// battery section first, then the system section, then the ADC section,
/// each under its header.
pub proof fn lemma_readings_under_their_labels(r: SystemReadings, screen: Point)
    ensures
        ({
            let l = system_layout(r, screen);
            let n = l.len() as int;
            &&& n >= 23
            &&& item_text(l[0]) == "BATTERY"@
            &&& item_text(l[n - 22]) == "SYSTEM"@
            &&& item_text(l[n - 11]) == "ADC / SENSORS"@
            &&& r.batt_stats matches Some(st) ==> {
                &&& labelled(l, 1, "Voltage:"@, voltage_text(st.voltage))
                &&& labelled(l, 3, "Charge:"@, charge_text(st.soc))
                &&& labelled(l, n - 26, "Current:"@, current_text(st.current, r.charging))
                &&& labelled(l, n - 24, "Remaining:"@, capacity_text(st.remaining_capacity))
            }
            &&& r.batt_stats is None ==> labelled(l, 1, "Status:"@, "unavailable"@)
            &&& labelled(l, n - 21, "EC Uptime:"@, match r.ec_uptime {
                Some(ms) => hms_text(ms),
                None => "N/A"@,
            })
            &&& labelled(l, n - 19, "EC Git:"@, match r.ec_git_rev {
                Some(g) => git_rev_text(g.0, g.1),
                None => "N/A"@,
            })
            &&& labelled(l, n - 17, "EC FW:"@, match r.ec_sw_tag {
                Some(v) => version_text(v),
                None => "N/A"@,
            })
            &&& labelled(l, n - 15, "SoC:"@, match r.soc_git_rev {
                Some(v) => soc_version_text(v),
                None => "N/A"@,
            })
            &&& labelled(l, n - 13, "DNA:"@, match r.soc_dna {
                Some(d) => dna_text(d),
                None => "N/A"@,
            })
            &&& labelled(l, n - 10, "VBUS:"@, match r.adc_vbus {
                Some(raw) => volts_text(vbus_millivolts(raw)),
                None => "N/A"@,
            })
            &&& labelled(l, n - 8, "Temp:"@, match r.adc_temp {
                Some(raw) => signed_dec(temperature_celsius(raw)) + "C"@,
                None => "N/A"@,
            })
            &&& labelled(l, n - 6, "VccInt:"@, match r.adc_vccint {
                Some(raw) => volts_text(rail_millivolts(raw)),
                None => "N/A"@,
            })
            &&& labelled(l, n - 4, "VccAux:"@, match r.adc_vccaux {
                Some(raw) => volts_text(rail_millivolts(raw)),
                None => "N/A"@,
            })
            &&& labelled(l, n - 2, "Gyro:"@, match r.gyro {
                Some(g) => gyro_text(g.0, g.1, g.2),
                None => "N/A"@,
            })
        }),
{
    let l = system_layout(r, screen);
    let b = battery_items(r);
    let si = system_info_items(r);
    let a = adc_items(r);
    assert(si.len() == 10);
    assert(a.len() == 10);
    assert(b.len() >= 2);
    let width = screen.x - 30;
    assert(l =~= seq![section_header_item(15, 45, width, "BATTERY"@)] + b + seq![
        section_header_item(15, 147, width, "SYSTEM"@),
    ] + si + seq![section_header_item(15, 263, width, "ADC / SENSORS"@)] + a);
    let n = l.len() as int;
    assert(n == b.len() + 23);
    assert forall|k: int| 0 <= k < 10 implies l[n - 10 + k] == a[k] by {}
    assert forall|k: int| 0 <= k < 10 implies l[n - 21 + k] == si[k] by {}
    assert forall|k: int| 0 <= k < b.len() implies l[1 + k] == b[k] by {}
}

} // verus!
