//! Reading Linux power-supply and RAPL files: which entries count and what their values mean.

use vstd::prelude::*;
use crate::platform::ChargeState;
use crate::text::{ascii_lower, chars_of, contains_spec, lowercase, str_contains, to_lowercase};
use crate::text_parse::{parse_i64_range, parse_i64_spec, parse_u64_range, parse_u64_spec, trim_bounds, trim_spec};

verus! {

/// The number in a sysfs value file: the text without surrounding white space, read as a
/// `u64`.
pub fn parse_sysfs_u64(content: &str) -> (r: Option<u64>)
    ensures
        r == parse_u64_spec(trim_spec(content@)),
{
    let v = chars_of(content);
    assert(v@.subrange(0, v@.len() as int) =~= v@);
    let (a, b) = trim_bounds(&v, 0, v.len());
    parse_u64_range(&v, a, b)
}

/// The number in a sysfs value file, read as an `i64`.
pub fn parse_sysfs_i64(content: &str) -> (r: Option<i64>)
    ensures
        r == parse_i64_spec(trim_spec(content@)),
{
    let v = chars_of(content);
    assert(v@.subrange(0, v@.len() as int) =~= v@);
    let (a, b) = trim_bounds(&v, 0, v.len());
    parse_i64_range(&v, a, b)
}

/// Energy used since the last reading of a RAPL counter, in microjoules: the difference,
/// or, after the counter wrapped around, the new count.
pub open spec fn energy_delta_spec(energy_uj: u64, last_energy_uj: u64) -> u64 {
    if energy_uj >= last_energy_uj {
        (energy_uj - last_energy_uj) as u64
    } else {
        energy_uj
    }
}

/// Energy used since the last reading of a RAPL counter.
pub fn energy_delta(energy_uj: u64, last_energy_uj: u64) -> (d: u64)
    ensures
        d == energy_delta_spec(energy_uj, last_energy_uj),
        d <= energy_uj,
{
    if energy_uj >= last_energy_uj {
        energy_uj - last_energy_uj
    } else {
        energy_uj
    }
}

/// A reading yields a power figure only after time has passed and a previous count exists.
pub fn reading_counts(elapsed_us: u64, last_energy_uj: u64) -> (b: bool)
    ensures
        b == (elapsed_us > 0 && last_energy_uj > 0),
{
    elapsed_us > 0 && last_energy_uj > 0
}

/// A RAPL domain counts towards processor power when its name mentions `package` or `psys`.
pub fn is_power_domain(name: &str) -> (b: bool)
    ensures
        b == (contains_spec(name@, "package"@) || contains_spec(name@, "psys"@)),
{
    str_contains(name, "package") || str_contains(name, "psys")
}

fn trimmed(content: &str) -> (s: String)
    ensures
        s@ == trim_spec(content@),
{
    let v = chars_of(content);
    assert(v@.subrange(0, v@.len() as int) =~= v@);
    let (a, b) = trim_bounds(&v, 0, v.len());
    crate::battery_parse::string_of_range(&v, a, b)
}

/// A hardware monitor reports graphics power when its (trimmed, lower-cased) name mentions
/// `amdgpu`, `i915` or `nouveau`.
pub open spec fn gpu_monitor_spec(name: Seq<char>) -> bool {
    let l = lowercase(trim_spec(name));
    contains_spec(l, "amdgpu"@) || contains_spec(l, "i915"@) || contains_spec(l, "nouveau"@)
}

/// Whether a hardware monitor's name file names a graphics driver.
pub fn is_gpu_monitor(name: &str) -> (b: bool)
    ensures
        b == gpu_monitor_spec(name@),
{
    let t = trimmed(name);
    let l = to_lowercase(t.as_str());
    str_contains(l.as_str(), "amdgpu") || str_contains(l.as_str(), "i915") || str_contains(
        l.as_str(),
        "nouveau",
    )
}

/// Whether a power supply's `type` file says `want` (after trimming).
pub fn supply_type_is(content: &str, want: &str) -> (b: bool)
    ensures
        b == (trim_spec(content@) == want@),
{
    let t = trimmed(content);
    crate::text::str_eq(t.as_str(), want)
}

/// Equality up to ASCII letter case (`str::eq_ignore_ascii_case`).
pub open spec fn eq_ignore_ascii_case_spec(a: Seq<char>, b: Seq<char>) -> bool {
    a.len() == b.len() && forall|i: int| 0 <= i < a.len() ==> ascii_lower(a[i]) == ascii_lower(b[i])
}

fn ascii_lower_exec(c: char) -> (r: char)
    ensures
        r == ascii_lower(c),
{
    if 'A' <= c && c <= 'Z' {
        let code = (c as u32) + 32;
        assert(code <= 0x7f);
        assert((code as char) == ((c as u32) + 32) as char);
        code as u8 as char
    } else {
        c
    }
}

fn eq_ignore_ascii_case(a: &str, b: &str) -> (r: bool)
    ensures
        r == eq_ignore_ascii_case_spec(a@, b@),
{
    let x = chars_of(a);
    let y = chars_of(b);
    if x.len() != y.len() {
        return false;
    }
    let mut i: usize = 0;
    while i < x.len()
        invariant
            x@ == a@,
            y@ == b@,
            x@.len() == y@.len(),
            i <= x@.len(),
            forall|j: int| 0 <= j < i ==> ascii_lower(x@[j]) == ascii_lower(y@[j]),
        decreases x@.len() - i,
    {
        if ascii_lower_exec(x[i]) != ascii_lower_exec(y[i]) {
            return false;
        }
        i = i + 1;
    }
    true
}

/// The charge state after the Linux-specific checks: a known state becomes "not charging"
/// when external power is connected but the battery neither charges nor is full; an
/// unknown state becomes "not charging" when the status file says so, or when external
/// power is connected.
pub open spec fn linux_charge_state_spec(state: ChargeState, external_connected: bool, status: Option<Seq<char>>) -> ChargeState {
    if state != ChargeState::Unknown {
        if external_connected && state != ChargeState::Charging && state != ChargeState::Full {
            ChargeState::NotCharging
        } else {
            state
        }
    } else {
        match status {
            Some(s) => if eq_ignore_ascii_case_spec(trim_spec(s), "Not charging"@) || external_connected {
                ChargeState::NotCharging
            } else {
                state
            },
            None => state,
        }
    }
}

/// The charge state after reading the battery's `status` file (none when it could not be
/// read).
pub fn linux_charge_state(state: ChargeState, external_connected: bool, status: Option<&str>) -> (r: ChargeState)
    ensures
        r == linux_charge_state_spec(state, external_connected, crate::iterm2::opt_view(status)),
{
    if state != ChargeState::Unknown {
        if external_connected && state != ChargeState::Charging && state != ChargeState::Full {
            return ChargeState::NotCharging;
        }
        return state;
    }
    match status {
        Some(s) => {
            let t = trimmed(s);
            if eq_ignore_ascii_case(t.as_str(), "Not charging") || external_connected {
                ChargeState::NotCharging
            } else {
                state
            }
        },
        None => state,
    }
}

/// Rust's integer division of `a` by a positive `b`, rounding towards zero.
pub open spec fn div_toward_zero(a: int, b: int) -> int {
    if a >= 0 {
        a / b
    } else {
        -((-a) / b)
    }
}

/// Milliamps for a `current_now` reading in microamps (as `i32`), negative while
/// discharging and positive otherwise.
pub open spec fn amperage_spec(microamps: i64, state: ChargeState) -> int {
    let ma = div_toward_zero(microamps as int, 1000) as i32;
    if state == ChargeState::Discharging {
        if ma < 0 { ma as int } else { -(ma as int) }
    } else {
        if ma < 0 { -(ma as int) } else { ma as int }
    }
}

/// The milliamp reading is not the one value whose magnitude an `i32` cannot hold.
pub open spec fn amperage_defined(microamps: i64) -> bool {
    div_toward_zero(microamps as int, 1000) as i32 != i32::MIN
}

/// Milliamps drawn or delivered, signed by the charge state.
pub fn amperage_ma(microamps: i64, state: ChargeState) -> (r: i32)
    requires
        amperage_defined(microamps),
    ensures
        r == amperage_spec(microamps, state),
{
    let q: i128 = if microamps >= 0 {
        (microamps as i128) / 1000
    } else {
        -((-(microamps as i128)) / 1000)
    };
    let ma = q as i32;
    let magnitude: i32 = if ma < 0 { -ma } else { ma };
    if state == ChargeState::Discharging {
        -magnitude
    } else {
        magnitude
    }
}

} // verus!
