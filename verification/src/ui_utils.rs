//! Display helpers: units, truncation, sizes and durations for the interface.

use vstd::prelude::*;
use vstd::string::*;
use crate::text::{chars_of, decimal};

verus! {

/// Unit in which battery energy is shown.
#[derive(Debug, Clone, Copy, PartialEq, Eq, Structural)]
pub enum EnergyUnit {
    /// Watt-hours.
    Wh,
    /// Milliamp-hours at the nominal pack voltage.
    MAh,
}

/// Unit in which temperatures are shown.
#[derive(Debug, Clone, Copy, PartialEq, Eq, Structural)]
pub enum TemperatureUnit {
    Celsius,
    Fahrenheit,
}

/// Unit system for data sizes.
#[derive(Debug, Clone, Copy, PartialEq, Eq, Structural)]
pub enum DataSizeUnit {
    /// Powers of 1000 (kB, MB, GB).
    Si,
    /// Powers of 1024 (KiB, MiB, GiB).
    Binary,
}

/// The short label of an energy unit.
pub open spec fn energy_unit_label_spec(unit: EnergyUnit) -> Seq<char> {
    match unit {
        EnergyUnit::Wh => "Wh"@,
        EnergyUnit::MAh => "mAh"@,
    }
}

/// The short label of an energy unit: `Wh` or `mAh`.
pub fn energy_unit_label(unit: EnergyUnit) -> (s: &'static str)
    ensures
        s@ == energy_unit_label_spec(unit),
{
    match unit {
        EnergyUnit::Wh => "Wh",
        EnergyUnit::MAh => "mAh",
    }
}

/// A text cut to at most `max_len` characters: unchanged when it fits, else its first
/// `max_len` characters when `max_len` is 3 or less, else its first `max_len - 3`
/// characters and `...`.
pub open spec fn truncate_str_spec(s: Seq<char>, max_len: nat) -> Seq<char> {
    if s.len() <= max_len {
        s
    } else if max_len <= 3 {
        s.take(max_len as int)
    } else {
        s.take(max_len - 3) + "..."@
    }
}

fn string_of_chars(v: &Vec<char>, n: usize) -> (s: String)
    requires
        n <= v.len(),
    ensures
        s@ == v@.take(n as int),
{
    let mut s = String::new();
    let mut i: usize = 0;
    while i < n
        invariant
            n <= v.len(),
            i <= n,
            s@ == v@.take(i as int),
        decreases n - i,
    {
        crate::text::push_char(&mut s, v[i]);
        assert(v@.take(i + 1) =~= v@.take(i as int).push(v@[i as int]));
        i = i + 1;
    }
    s
}

/// Cuts a text to at most `max_len` characters, marking a cut with `...` where there
/// is room for it; counts characters, not bytes.
pub fn truncate_str(s: &str, max_len: usize) -> (r: String)
    ensures
        r@ == truncate_str_spec(s@, max_len as nat),
        r@.len() <= max_len || r@ == s@,
{
    let v = chars_of(s);
    if v.len() <= max_len {
        assert(v@.take(v@.len() as int) =~= v@);
        string_of_chars(&v, v.len())
    } else if max_len <= 3 {
        string_of_chars(&v, max_len)
    } else {
        let mut r = string_of_chars(&v, max_len - 3);
        r.append("...");
        proof {
            reveal_strlit("...");
        }
        r
    }
}

/// A cut text never exceeds its limit unless it was left whole, and a text that fits
/// is left whole.
pub proof fn lemma_truncate_str_bounded(s: Seq<char>, max_len: nat)
    ensures
        truncate_str_spec(s, max_len).len() <= max_len || truncate_str_spec(s, max_len) == s,
        s.len() <= max_len ==> truncate_str_spec(s, max_len) == s,
        truncate_str_spec(s, max_len).len() <= s.len(),
{
    reveal_strlit("...");
}

/// One part of a printed duration: the count, the unit, and for the calendar units an
/// `s` when the count is above one.
pub open spec fn duration_part(value: nat, unit: Seq<char>, plural: bool) -> Seq<char> {
    decimal(value) + unit + if plural && value > 1 { "s"@ } else { Seq::<char>::empty() }
}

/// The parts with a non-zero count, joined by single spaces.
pub open spec fn join_duration_parts(items: Seq<(nat, Seq<char>, bool)>) -> Seq<char>
    decreases items.len(),
{
    if items.len() == 0 {
        Seq::empty()
    } else {
        let rest = join_duration_parts(items.drop_first());
        let (v, unit, plural) = items[0];
        if v == 0 {
            rest
        } else if rest.len() == 0 {
            duration_part(v, unit, plural)
        } else {
            duration_part(v, unit, plural) + " "@ + rest
        }
    }
}

/// Text for a number of seconds as `humantime` prints a duration: "0s" for none;
/// otherwise the non-zero counts of years (365.25 days), months (30.44 days), days,
/// hours, minutes and seconds, as in "1year 2months 3days 4h 5m 6s" ("2h 37m").
pub open spec fn humantime_text(secs: u64) -> Seq<char> {
    if secs == 0 {
        "0s"@
    } else {
        let years = secs / 31_557_600;
        let ydays = secs % 31_557_600;
        let months = ydays / 2_630_016;
        let mdays = ydays % 2_630_016;
        let days = mdays / 86400;
        let day_secs = mdays % 86400;
        join_duration_parts(
            seq![
                (years as nat, "year"@, true),
                (months as nat, "month"@, true),
                (days as nat, "day"@, true),
                ((day_secs / 3600) as nat, "h"@, false),
                ((day_secs % 3600 / 60) as nat, "m"@, false),
                ((day_secs % 60) as nat, "s"@, false),
            ],
        )
    }
}

/// `humantime::format_duration` on whole seconds, printed; the text is [`humantime_text`].
#[verifier::external_body]
fn humantime_format_secs(secs: u64) -> (s: String)
    ensures
        s@ == humantime_text(secs),
{
    humantime::format_duration(std::time::Duration::from_secs(secs)).to_string()
}

/// Seconds as a readable duration ("2h 37m", "5days 3h").
pub fn format_duration(secs: u64) -> (s: String)
    ensures
        s@ == humantime_text(secs),
{
    humantime_format_secs(secs)
}

/// Text for a byte count in SI units as `bytesize` prints it ("1.0 kB").
pub uninterp spec fn bytesize_si_text(bytes: u64) -> Seq<char>;

/// Text for a byte count in binary units as `bytesize` prints it ("1.0 KiB").
pub uninterp spec fn bytesize_iec_text(bytes: u64) -> Seq<char>;

/// `ByteSize::b(bytes).display().si()`, printed; named by [`bytesize_si_text`].
#[verifier::external_body]
fn bytesize_si(bytes: u64) -> (s: String)
    ensures
        s@ == bytesize_si_text(bytes),
{
    bytesize::ByteSize::b(bytes).display().si().to_string()
}

/// `ByteSize::b(bytes).display().iec()`, printed; named by [`bytesize_iec_text`].
#[verifier::external_body]
fn bytesize_iec(bytes: u64) -> (s: String)
    ensures
        s@ == bytesize_iec_text(bytes),
{
    bytesize::ByteSize::b(bytes).display().iec().to_string()
}

/// The text of a byte count in the chosen unit system.
pub open spec fn data_size_text(bytes: u64, unit: DataSizeUnit) -> Seq<char> {
    match unit {
        DataSizeUnit::Si => bytesize_si_text(bytes),
        DataSizeUnit::Binary => bytesize_iec_text(bytes),
    }
}

/// A byte count in SI or binary units.
pub fn format_data_size(bytes: u64, unit: DataSizeUnit) -> (s: String)
    ensures
        s@ == data_size_text(bytes, unit),
{
    match unit {
        DataSizeUnit::Si => bytesize_si(bytes),
        DataSizeUnit::Binary => bytesize_iec(bytes),
    }
}

/// `used/total`, each in the chosen unit system.
pub fn format_memory(used_bytes: u64, total_bytes: u64, unit: DataSizeUnit) -> (s: String)
    ensures
        s@ == data_size_text(used_bytes, unit) + "/"@ + data_size_text(total_bytes, unit),
{
    let mut s = format_data_size(used_bytes, unit);
    s.append("/");
    let total = format_data_size(total_bytes, unit);
    s.append(total.as_str());
    s
}

/// A screen rectangle in terminal cells.
#[derive(Debug, Clone, Copy, PartialEq, Eq, Structural)]
pub struct Area {
    pub x: u16,
    pub y: u16,
    pub width: u16,
    pub height: u16,
}

/// `a - b`, or 0 when `b` is larger.
pub open spec fn sat_sub(a: int, b: int) -> int {
    if a > b { a - b } else { 0 }
}

/// A `width` x `height` box centered in `area`, shrunk to leave a margin of two
/// columns at each side and one row at top and bottom.
pub open spec fn centered_spec(area: Area, width: int, height: int) -> Area {
    let w = if width < sat_sub(area.width as int, 4) { width } else { sat_sub(area.width as int, 4) };
    let h = if height < sat_sub(area.height as int, 2) { height } else { sat_sub(area.height as int, 2) };
    Area {
        x: (area.x + sat_sub(area.width as int, w) / 2) as u16,
        y: (area.y + sat_sub(area.height as int, h) / 2) as u16,
        width: w as u16,
        height: h as u16,
    }
}

/// The centered box lies within the bounds of the screen's coordinates.
pub open spec fn centered_fits(area: Area, width: int, height: int) -> bool {
    let w = if width < sat_sub(area.width as int, 4) { width } else { sat_sub(area.width as int, 4) };
    let h = if height < sat_sub(area.height as int, 2) { height } else { sat_sub(area.height as int, 2) };
    area.x + sat_sub(area.width as int, w) / 2 <= u16::MAX && area.y + sat_sub(area.height as int, h)
        / 2 <= u16::MAX
}

/// A fixed-size box centered in `area`, clamped to fit with a margin.
pub fn centered_rect(area: Area, width: u16, height: u16) -> (r: Area)
    requires
        centered_fits(area, width as int, height as int),
    ensures
        r == centered_spec(area, width as int, height as int),
        r.width <= width,
        r.height <= height,
{
    let aw = area.width.saturating_sub(4);
    let ah = area.height.saturating_sub(2);
    let w = if width < aw { width } else { aw };
    let h = if height < ah { height } else { ah };
    let x = area.x + (area.width.saturating_sub(w)) / 2;
    let y = area.y + (area.height.saturating_sub(h)) / 2;
    Area { x, y, width: w, height: h }
}

/// A box of the given percentages of `area`, centered and clamped to fit with a margin.
pub fn centered_rect_percent(area: Area, width_percent: u16, height_percent: u16) -> (r: Area)
    requires
        area.width * width_percent <= u16::MAX,
        area.height * height_percent <= u16::MAX,
        centered_fits(area, area.width * width_percent / 100, area.height * height_percent / 100),
    ensures
        r == centered_spec(area, area.width * width_percent / 100, area.height * height_percent / 100),
{
    let width = area.width * width_percent / 100;
    let height = area.height * height_percent / 100;
    centered_rect(area, width, height)
}

/// Whether the box [`centered_rect`] places lies within the screen's coordinates.
pub fn centered_fits_exec(area: Area, width: u16, height: u16) -> (b: bool)
    ensures
        b == centered_fits(area, width as int, height as int),
{
    let aw = area.width.saturating_sub(4);
    let ah = area.height.saturating_sub(2);
    let w = if width < aw { width } else { aw };
    let h = if height < ah { height } else { ah };
    let x: u32 = area.x as u32 + (area.width.saturating_sub(w) / 2) as u32;
    let y: u32 = area.y as u32 + (area.height.saturating_sub(h) / 2) as u32;
    x <= u16::MAX as u32 && y <= u16::MAX as u32
}

/// [`centered_rect`], or `None` where the box would leave the screen's coordinates.
pub fn centered_rect_checked(area: Area, width: u16, height: u16) -> (r: Option<Area>)
    ensures
        r is Some <==> centered_fits(area, width as int, height as int),
        r matches Some(a) ==> a == centered_spec(area, width as int, height as int),
{
    if centered_fits_exec(area, width, height) {
        Some(centered_rect(area, width, height))
    } else {
        None
    }
}

/// [`centered_rect_percent`], or `None` where a size or the position would not fit in
/// a `u16`.
pub fn centered_rect_percent_checked(area: Area, width_percent: u16, height_percent: u16) -> (r:
    Option<Area>)
    ensures
        r is Some <==> (area.width * width_percent <= u16::MAX && area.height * height_percent
            <= u16::MAX && centered_fits(
            area,
            area.width * width_percent / 100,
            area.height * height_percent / 100,
        )),
        r matches Some(a) ==> a == centered_spec(
            area,
            area.width * width_percent / 100,
            area.height * height_percent / 100,
        ),
{
    assert(area.width * width_percent <= u16::MAX * u16::MAX) by (nonlinear_arith)
        requires
            area.width <= u16::MAX,
            width_percent <= u16::MAX,
    ;
    assert(area.height * height_percent <= u16::MAX * u16::MAX) by (nonlinear_arith)
        requires
            area.height <= u16::MAX,
            height_percent <= u16::MAX,
    ;
    let wp: u32 = area.width as u32 * width_percent as u32;
    let hp: u32 = area.height as u32 * height_percent as u32;
    if wp > u16::MAX as u32 || hp > u16::MAX as u32 {
        return None;
    }
    if centered_fits_exec(area, (wp / 100) as u16, (hp / 100) as u16) {
        Some(centered_rect_percent(area, width_percent, height_percent))
    } else {
        None
    }
}

} // verus!
