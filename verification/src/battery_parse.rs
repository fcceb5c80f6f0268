//! Reading the battery tools' output: `ioreg` registry dumps and `pmset` status lines.

use vstd::prelude::*;
use vstd::string::*;
use crate::text::chars_of;
use crate::platform::ChargeState;
use crate::text_parse::{
    chars_at, chars_contains, chars_find, contains_in_range, find_in_range, first_of, first_of_range, is_ws,
    line_bounds, lines_spec, parse_i64_range, parse_i64_spec, parse_u32_range, parse_u32_spec,
    parse_u64_range, parse_u64_spec, trim_bounds, trim_spec,
};

verus! {

/// The text between the first and the second `=` of a line (or its end), if the line
/// has an `=` (`line.split('=').nth(1)`).
pub open spec fn second_field(s: Seq<char>) -> Option<Seq<char>> {
    let i = first_of(s, '=');
    if i < s.len() {
        let rest = s.skip(i + 1);
        Some(rest.take(first_of(rest, '=')))
    } else {
        None
    }
}

/// The integer after the first `=` of a line, white space around it ignored.
pub open spec fn extract_number_spec(s: Seq<char>) -> Option<i64> {
    match second_field(s) {
        Some(f) => parse_i64_spec(trim_spec(f)),
        None => None,
    }
}

fn extract_number_range(v: &Vec<char>, lo: usize, hi: usize) -> (r: Option<i64>)
    requires
        lo <= hi <= v.len(),
    ensures
        r == extract_number_spec(v@.subrange(lo as int, hi as int)),
{
    let ghost s = v@.subrange(lo as int, hi as int);
    let i = first_of_range(v, lo, hi, '=');
    if lo + i >= hi {
        return None;
    }
    let start = lo + i + 1;
    let j = first_of_range(v, start, hi, '=');
    proof {
        assert(s.skip(i + 1) =~= v@.subrange(start as int, hi as int));
        assert(s.skip(i + 1).take(j as int) =~= v@.subrange(start as int, start + j));
    }
    let (a, b) = trim_bounds(v, start, start + j);
    parse_i64_range(v, a, b)
}

/// The integer after the first `=` of a registry line (`"CycleCount" = 123`).
pub fn extract_number(line: &str) -> (r: Option<i64>)
    ensures
        r == extract_number_spec(line@),
{
    let v = chars_of(line);
    assert(v@.subrange(0, v@.len() as int) =~= v@);
    extract_number_range(&v, 0, v.len())
}

/// Length of the run of ASCII digits at the start of `s`.
pub open spec fn digit_run(s: Seq<char>) -> int
    decreases s.len(),
{
    if s.len() > 0 && '0' <= s[0] && s[0] <= '9' {
        1 + digit_run(s.drop_first())
    } else {
        0
    }
}

pub proof fn lemma_digit_run(s: Seq<char>)
    ensures
        0 <= digit_run(s) <= s.len(),
        forall|j: int| 0 <= j < digit_run(s) ==> '0' <= #[trigger] s[j] && s[j] <= '9',
        digit_run(s) < s.len() ==> !('0' <= s[digit_run(s)] && s[digit_run(s)] <= '9'),
    decreases s.len(),
{
    if s.len() > 0 && '0' <= s[0] && s[0] <= '9' {
        lemma_digit_run(s.drop_first());
        assert forall|j: int| 0 <= j < digit_run(s) implies '0' <= #[trigger] s[j] && s[j] <= '9' by {
            if j > 0 {
                assert(s[j] == s.drop_first()[j - 1]);
            }
        }
    }
}

pub fn digit_run_range(v: &Vec<char>, lo: usize, hi: usize) -> (r: usize)
    requires
        lo <= hi <= v.len(),
    ensures
        r == digit_run(v@.subrange(lo as int, hi as int)),
        r <= hi - lo,
{
    let ghost s = v@.subrange(lo as int, hi as int);
    proof {
        lemma_digit_run(s);
    }
    let mut i = lo;
    while i < hi && '0' <= v[i] && v[i] <= '9'
        invariant
            lo <= i <= hi,
            hi <= v@.len(),
            s == v@.subrange(lo as int, hi as int),
            forall|j: int| lo <= j < i ==> '0' <= v@[j] && v@[j] <= '9',
        decreases hi - i,
    {
        i = i + 1;
    }
    proof {
        let f = digit_run(s);
        if f < i - lo {
            assert(s[f] == v@[lo + f]);
        } else if f > i - lo {
            assert(s[i - lo] == v@[i as int]);
        }
    }
    i - lo
}

/// The line describes the power adapter.
pub open spec fn adapter_line(l: Seq<char>) -> bool {
    chars_contains(l, "\"AdapterDetails\""@) || chars_contains(l, "\"AppleRawAdapterDetails\""@)
}

/// The wattage a line gives after `"Watts"=`, if it gives one.
pub open spec fn line_watts(l: Seq<char>) -> Option<u32> {
    match chars_find(l, "\"Watts\"="@) {
        Some(p) => {
            let after = l.skip(p + 8);
            parse_u32_spec(after.take(digit_run(after)))
        },
        None => None,
    }
}

/// The wattage of the first adapter line that gives one.
pub open spec fn charger_watts_in(lines: Seq<Seq<char>>) -> Option<u32>
    decreases lines.len(),
{
    if lines.len() == 0 {
        None
    } else if adapter_line(lines[0]) && line_watts(lines[0]) is Some {
        line_watts(lines[0])
    } else {
        charger_watts_in(lines.drop_first())
    }
}

fn line_watts_range(v: &Vec<char>, lo: usize, hi: usize) -> (r: Option<u32>)
    requires
        lo <= hi <= v.len(),
    ensures
        r == line_watts(v@.subrange(lo as int, hi as int)),
{
    let ghost l = v@.subrange(lo as int, hi as int);
    match find_in_range(v, lo, hi, "\"Watts\"=") {
        Some(p) => {
            proof {
                crate::text_parse::lemma_chars_find_at(l, "\"Watts\"="@);
                reveal_strlit("\"Watts\"=");
            }
            assert(p + 8 <= hi - lo);
            let start = lo + p + 8;
            let n = digit_run_range(v, start, hi);
            proof {
                assert(l.skip(p + 8) =~= v@.subrange(start as int, hi as int));
                assert(l.skip(p + 8).take(n as int) =~= v@.subrange(start as int, start + n));
            }
            parse_u32_range(v, start, start + n)
        },
        None => None,
    }
}

fn adapter_watts_range(v: &Vec<char>, lo: usize, hi: usize) -> (r: Option<u32>)
    requires
        lo <= hi <= v.len(),
    ensures
        r == (if adapter_line(v@.subrange(lo as int, hi as int)) {
            line_watts(v@.subrange(lo as int, hi as int))
        } else {
            None
        }),
{
    if contains_in_range(v, lo, hi, "\"AdapterDetails\"") || contains_in_range(
        v,
        lo,
        hi,
        "\"AppleRawAdapterDetails\"",
    ) {
        line_watts_range(v, lo, hi)
    } else {
        None
    }
}

/// The wattage of the connected charger, from the first adapter line of `ioreg` output
/// that states one.
#[verifier::rlimit(40)]
pub fn parse_charger_watts(output: &str) -> (r: Option<u32>)
    ensures
        r == charger_watts_in(lines_spec(output@)),
{
    let v = chars_of(output);
    let bounds = line_bounds(&v);
    let ghost lines = bounds@.map_values(|b: (usize, usize)| v@.subrange(b.0 as int, b.1 as int));
    let mut k: usize = 0;
    assert(lines.skip(0) =~= lines);
    while k < bounds.len()
        invariant
            k <= bounds@.len(),
            lines == bounds@.map_values(|b: (usize, usize)| v@.subrange(b.0 as int, b.1 as int)),
            lines == lines_spec(output@),
            v@ == output@,
            forall|m: int| 0 <= m < bounds@.len() ==> (#[trigger] bounds@[m]).0 <= bounds@[m].1 <= v@.len(),
            charger_watts_in(lines) == charger_watts_in(lines.skip(k as int)),
        decreases bounds@.len() - k,
    {
        let (lo, hi) = bounds[k];
        let ghost l = lines[k as int];
        assert(l == v@.subrange(lo as int, hi as int));
        assert(lines.skip(k as int)[0] == l);
        assert(lines.skip(k as int).drop_first() =~= lines.skip(k + 1));
        let w = adapter_watts_range(&v, lo, hi);
        if w.is_some() {
            return w;
        }
        k = k + 1;
    }
    None
}

/// Length of the run of ASCII digits and `.` at the start of `s`.
pub open spec fn number_run(s: Seq<char>) -> int
    decreases s.len(),
{
    if s.len() > 0 && (('0' <= s[0] && s[0] <= '9') || s[0] == '.') {
        1 + number_run(s.drop_first())
    } else {
        0
    }
}

proof fn lemma_number_run(s: Seq<char>)
    ensures
        0 <= number_run(s) <= s.len(),
        forall|j: int| 0 <= j < number_run(s) ==> ('0' <= #[trigger] s[j] && s[j] <= '9') || s[j] == '.',
        number_run(s) < s.len() ==> !(('0' <= s[number_run(s)] && s[number_run(s)] <= '9') || s[number_run(s)] == '.'),
    decreases s.len(),
{
    if s.len() > 0 && (('0' <= s[0] && s[0] <= '9') || s[0] == '.') {
        lemma_number_run(s.drop_first());
        assert forall|j: int| 0 <= j < number_run(s) implies ('0' <= #[trigger] s[j] && s[j] <= '9') || s[j] == '.' by {
            if j > 0 {
                assert(s[j] == s.drop_first()[j - 1]);
            }
        }
    }
}

fn number_run_range(v: &Vec<char>, lo: usize, hi: usize) -> (r: usize)
    requires
        lo <= hi <= v.len(),
    ensures
        r == number_run(v@.subrange(lo as int, hi as int)),
        r <= hi - lo,
{
    let ghost s = v@.subrange(lo as int, hi as int);
    proof {
        lemma_number_run(s);
    }
    let mut i = lo;
    while i < hi && (('0' <= v[i] && v[i] <= '9') || v[i] == '.')
        invariant
            lo <= i <= hi,
            hi <= v@.len(),
            s == v@.subrange(lo as int, hi as int),
            forall|j: int| lo <= j < i ==> ('0' <= v@[j] && v@[j] <= '9') || v@[j] == '.',
        decreases hi - i,
    {
        i = i + 1;
    }
    proof {
        let f = number_run(s);
        if f < i - lo {
            assert(s[f] == v@[lo + f]);
        } else if f > i - lo {
            assert(s[i - lo] == v@[i as int]);
        }
    }
    i - lo
}

/// The number text after `key` in a line (digits and `.`), when something else follows it.
pub open spec fn soc_candidate(l: Seq<char>, key: Seq<char>) -> Option<Seq<char>> {
    match chars_find(l, key) {
        Some(p) => {
            let after = l.skip(p + key.len());
            let e = number_run(after);
            if e < after.len() {
                Some(after.take(e))
            } else {
                None
            }
        },
        None => None,
    }
}

fn soc_candidate_range(v: &Vec<char>, lo: usize, hi: usize, key: &str) -> (r: Option<(usize, usize)>)
    requires
        lo <= hi <= v.len(),
    ensures
        match r {
            Some(b) => b.0 <= b.1 <= v.len() && soc_candidate(v@.subrange(lo as int, hi as int), key@) == Some(
                v@.subrange(b.0 as int, b.1 as int),
            ),
            None => soc_candidate(v@.subrange(lo as int, hi as int), key@) is None,
        },
{
    let ghost l = v@.subrange(lo as int, hi as int);
    let kv = chars_of(key);
    match find_in_range(v, lo, hi, key) {
        Some(p) => {
            proof {
                crate::text_parse::lemma_chars_find_at(l, key@);
            }
            let start = lo + p + kv.len();
            let e = number_run_range(v, start, hi);
            proof {
                assert(l.skip(p + key@.len()) =~= v@.subrange(start as int, hi as int));
            }
            if start + e < hi {
                proof {
                    assert(l.skip(p + key@.len()).take(e as int) =~= v@.subrange(start as int, start + e));
                }
                Some((start, start + e))
            } else {
                None
            }
        },
        None => None,
    }
}

/// What the `ioreg` battery dump says beyond the battery crate: the current (when a line
/// states it), whether external power is connected, whether it charges, and the texts of
/// the daily minimum and maximum charge levels in the order they appear.
#[derive(Debug, Clone)]
pub struct IoregExtras {
    pub amperage_ma: i32,
    pub external_connected: bool,
    pub is_charging: bool,
    pub daily_min_soc: Vec<String>,
    pub daily_max_soc: Vec<String>,
}

/// The readings as plain values: current, external power, charging, and the charge-level
/// texts.
pub type IoregView = (i32, bool, bool, Seq<Seq<char>>, Seq<Seq<char>>);

/// The view of the readings.
pub open spec fn ioreg_view(x: IoregExtras) -> IoregView {
    (
        x.amperage_ma,
        x.external_connected,
        x.is_charging,
        x.daily_min_soc@.map_values(|t: String| t@),
        x.daily_max_soc@.map_values(|t: String| t@),
    )
}

/// The readings after one (trimmed) line of the dump.
pub open spec fn ioreg_step(st: IoregView, l: Seq<char>) -> IoregView {
    if chars_contains(l, "\"Amperage\""@) || chars_contains(l, "\"InstantAmperage\""@) {
        match extract_number_spec(l) {
            Some(val) => (val as i32, st.1, st.2, st.3, st.4),
            None => st,
        }
    } else if chars_contains(l, "\"ExternalConnected\""@) {
        (st.0, chars_contains(l, "Yes"@), st.2, st.3, st.4)
    } else if chars_contains(l, "\"IsCharging\""@) {
        (st.0, st.1, chars_contains(l, "Yes"@), st.3, st.4)
    } else if chars_contains(l, "\"BatteryData\""@) {
        (
            st.0,
            st.1,
            st.2,
            match soc_candidate(l, "\"DailyMinSoc\"="@) {
                Some(t) => st.3.push(t),
                None => st.3,
            },
            match soc_candidate(l, "\"DailyMaxSoc\"="@) {
                Some(t) => st.4.push(t),
                None => st.4,
            },
        )
    } else {
        st
    }
}

/// The readings after the given lines, each trimmed, starting from `init`.
pub open spec fn ioreg_fold(init: IoregView, lines: Seq<Seq<char>>) -> IoregView
    decreases lines.len(),
{
    if lines.len() == 0 {
        init
    } else {
        ioreg_step(ioreg_fold(init, lines.drop_last()), trim_spec(lines.last()))
    }
}

pub fn string_of_range(v: &Vec<char>, lo: usize, hi: usize) -> (s: String)
    requires
        lo <= hi <= v.len(),
    ensures
        s@ == v@.subrange(lo as int, hi as int),
{
    let mut s = String::new();
    let mut k = lo;
    while k < hi
        invariant
            lo <= k <= hi,
            hi <= v@.len(),
            s@ == v@.subrange(lo as int, k as int),
        decreases hi - k,
    {
        crate::text::push_char(&mut s, v[k]);
        assert(v@.subrange(lo as int, k + 1) =~= v@.subrange(lo as int, k as int).push(v@[k as int]));
        k = k + 1;
    }
    s
}

#[verifier::rlimit(50)]
fn ioreg_step_exec(st: &mut IoregExtras, v: &Vec<char>, lo: usize, hi: usize)
    requires
        lo <= hi <= v.len(),
    ensures
        ioreg_view(*final(st)) == ioreg_step(ioreg_view(*old(st)), v@.subrange(lo as int, hi as int)),
{
    let ghost l = v@.subrange(lo as int, hi as int);
    if contains_in_range(v, lo, hi, "\"Amperage\"") || contains_in_range(v, lo, hi, "\"InstantAmperage\"") {
        if let Some(val) = extract_number_range(v, lo, hi) {
            st.amperage_ma = val as i32;
        }
    } else if contains_in_range(v, lo, hi, "\"ExternalConnected\"") {
        st.external_connected = contains_in_range(v, lo, hi, "Yes");
    } else if contains_in_range(v, lo, hi, "\"IsCharging\"") {
        st.is_charging = contains_in_range(v, lo, hi, "Yes");
    } else if contains_in_range(v, lo, hi, "\"BatteryData\"") {
        let ghost before = ioreg_view(*st);
        if let Some((a, b)) = soc_candidate_range(v, lo, hi, "\"DailyMinSoc\"=") {
            let t = string_of_range(v, a, b);
            st.daily_min_soc.push(t);
            assert(st.daily_min_soc@.map_values(|t: String| t@) =~= before.3.push(v@.subrange(a as int, b as int)));
        }
        let ghost mid = ioreg_view(*st);
        if let Some((a, b)) = soc_candidate_range(v, lo, hi, "\"DailyMaxSoc\"=") {
            let t = string_of_range(v, a, b);
            st.daily_max_soc.push(t);
            assert(st.daily_max_soc@.map_values(|t: String| t@) =~= mid.4.push(v@.subrange(a as int, b as int)));
        }
    }
}

/// Reads the `ioreg` battery dump line by line, starting from the previous current and
/// external-power readings.
pub fn parse_ioreg_extras(output: &str, amperage_ma: i32, external_connected: bool) -> (r: IoregExtras)
    ensures
        ioreg_view(r) == ioreg_fold(
            (amperage_ma, external_connected, false, Seq::empty(), Seq::empty()),
            lines_spec(output@),
        ),
{
    let v = chars_of(output);
    let bounds = line_bounds(&v);
    let ghost lines = bounds@.map_values(|b: (usize, usize)| v@.subrange(b.0 as int, b.1 as int));
    let ghost init: IoregView = (amperage_ma, external_connected, false, Seq::empty(), Seq::empty());
    let mut st = IoregExtras {
        amperage_ma,
        external_connected,
        is_charging: false,
        daily_min_soc: Vec::new(),
        daily_max_soc: Vec::new(),
    };
    assert(ioreg_view(st) =~= init);
    assert(lines.take(0) =~= Seq::<Seq<char>>::empty());
    let mut k: usize = 0;
    while k < bounds.len()
        invariant
            k <= bounds@.len(),
            lines == bounds@.map_values(|b: (usize, usize)| v@.subrange(b.0 as int, b.1 as int)),
            lines == lines_spec(output@),
            v@ == output@,
            forall|m: int| 0 <= m < bounds@.len() ==> (#[trigger] bounds@[m]).0 <= bounds@[m].1 <= v@.len(),
            ioreg_view(st) == ioreg_fold(init, lines.take(k as int)),
        decreases bounds@.len() - k,
    {
        let (lo, hi) = bounds[k];
        let (a, b) = trim_bounds(&v, lo, hi);
        ioreg_step_exec(&mut st, &v, a, b);
        proof {
            assert(lines.take(k + 1).drop_last() =~= lines.take(k as int));
            assert(lines.take(k + 1).last() == v@.subrange(lo as int, hi as int));
        }
        k = k + 1;
    }
    assert(lines.take(bounds@.len() as int) =~= lines);
    st
}

/// The charge state the `ioreg` readings imply: with external power, charging if the
/// dump says so, else full when the charge is at least 99 %, else not charging; without
/// it, discharging.
pub open spec fn ioreg_state_spec(external_connected: bool, is_charging: bool, nearly_full: bool) -> ChargeState {
    if external_connected {
        if is_charging {
            ChargeState::Charging
        } else if nearly_full {
            ChargeState::Full
        } else {
            ChargeState::NotCharging
        }
    } else {
        ChargeState::Discharging
    }
}

/// The charge state after reading `ioreg`; `nearly_full` tells whether the charge level
/// is at least 99 %.
pub fn ioreg_charge_state(external_connected: bool, is_charging: bool, nearly_full: bool) -> (s: ChargeState)
    ensures
        s == ioreg_state_spec(external_connected, is_charging, nearly_full),
{
    if external_connected {
        if is_charging {
            ChargeState::Charging
        } else if nearly_full {
            ChargeState::Full
        } else {
            ChargeState::NotCharging
        }
    } else {
        ChargeState::Discharging
    }
}

/// The charger wattage after reading `ioreg`: read from the dump when external power is
/// connected, none otherwise.
pub fn ioreg_charger_watts(output: &str, external_connected: bool) -> (r: Option<u32>)
    ensures
        r == (if external_connected { charger_watts_in(lines_spec(output@)) } else { None }),
{
    if external_connected {
        parse_charger_watts(output)
    } else {
        None
    }
}

/// Capacity figures from the smart-battery registry: the last `MaxCapacity`,
/// `DesignCapacity` and `CycleCount` values that parse.
#[derive(Debug, Clone, Copy, PartialEq, Eq, Structural)]
pub struct CapacityReadings {
    pub max_capacity: Option<i64>,
    pub design_capacity: Option<i64>,
    pub cycle_count: Option<u32>,
}

/// The capacity figures after one (trimmed) registry line.
pub open spec fn capacity_step(st: CapacityReadings, l: Seq<char>) -> CapacityReadings {
    if chars_contains(l, "\"MaxCapacity\""@) {
        match extract_number_spec(l) {
            Some(v) => CapacityReadings { max_capacity: Some(v), ..st },
            None => st,
        }
    } else if chars_contains(l, "\"DesignCapacity\""@) {
        match extract_number_spec(l) {
            Some(v) => CapacityReadings { design_capacity: Some(v), ..st },
            None => st,
        }
    } else if chars_contains(l, "\"CycleCount\""@) {
        match extract_number_spec(l) {
            Some(v) => CapacityReadings { cycle_count: Some(v as u32), ..st },
            None => st,
        }
    } else {
        st
    }
}

/// The capacity figures after the given lines, each trimmed.
pub open spec fn capacity_fold(lines: Seq<Seq<char>>) -> CapacityReadings
    decreases lines.len(),
{
    if lines.len() == 0 {
        CapacityReadings { max_capacity: None, design_capacity: None, cycle_count: None }
    } else {
        capacity_step(capacity_fold(lines.drop_last()), trim_spec(lines.last()))
    }
}

fn capacity_step_exec(st: CapacityReadings, v: &Vec<char>, lo: usize, hi: usize) -> (r: CapacityReadings)
    requires
        lo <= hi <= v.len(),
    ensures
        r == capacity_step(st, v@.subrange(lo as int, hi as int)),
{
    if contains_in_range(v, lo, hi, "\"MaxCapacity\"") {
        match extract_number_range(v, lo, hi) {
            Some(x) => CapacityReadings { max_capacity: Some(x), ..st },
            None => st,
        }
    } else if contains_in_range(v, lo, hi, "\"DesignCapacity\"") {
        match extract_number_range(v, lo, hi) {
            Some(x) => CapacityReadings { design_capacity: Some(x), ..st },
            None => st,
        }
    } else if contains_in_range(v, lo, hi, "\"CycleCount\"") {
        match extract_number_range(v, lo, hi) {
            Some(x) => CapacityReadings { cycle_count: Some(x as u32), ..st },
            None => st,
        }
    } else {
        st
    }
}

/// Reads the capacity figures from the smart-battery registry dump.
pub fn parse_capacity_output(output: &str) -> (r: CapacityReadings)
    ensures
        r == capacity_fold(lines_spec(output@)),
{
    let v = chars_of(output);
    let bounds = line_bounds(&v);
    let ghost lines = bounds@.map_values(|b: (usize, usize)| v@.subrange(b.0 as int, b.1 as int));
    let mut st = CapacityReadings { max_capacity: None, design_capacity: None, cycle_count: None };
    assert(lines.take(0) =~= Seq::<Seq<char>>::empty());
    let mut k: usize = 0;
    while k < bounds.len()
        invariant
            k <= bounds@.len(),
            lines == bounds@.map_values(|b: (usize, usize)| v@.subrange(b.0 as int, b.1 as int)),
            lines == lines_spec(output@),
            forall|m: int| 0 <= m < bounds@.len() ==> (#[trigger] bounds@[m]).0 <= bounds@[m].1 <= v@.len(),
            st == capacity_fold(lines.take(k as int)),
        decreases bounds@.len() - k,
    {
        let (lo, hi) = bounds[k];
        let (a, b) = trim_bounds(&v, lo, hi);
        st = capacity_step_exec(st, &v, a, b);
        proof {
            assert(lines.take(k + 1).drop_last() =~= lines.take(k as int));
            assert(lines.take(k + 1).last() == v@.subrange(lo as int, hi as int));
        }
        k = k + 1;
    }
    assert(lines.take(bounds@.len() as int) =~= lines);
    st
}

/// A dump line that reports the charging flag (and no current or external-power key)
/// sets the flag to whether the line says "Yes" (`"IsCharging" = Yes` gives true,
/// `"IsCharging" = No` false), and keeps every other reading.
pub proof fn lemma_charging_flag_line(st: IoregView, l: Seq<char>)
    requires
        chars_contains(l, "\"IsCharging\""@),
        !chars_contains(l, "\"Amperage\""@),
        !chars_contains(l, "\"InstantAmperage\""@),
        !chars_contains(l, "\"ExternalConnected\""@),
    ensures
        ioreg_step(st, l).2 == chars_contains(l, "Yes"@),
        chars_contains(l, "Yes"@) ==> ioreg_step(st, l).2,
        !chars_contains(l, "Yes"@) ==> !ioreg_step(st, l).2,
        ioreg_step(st, l).0 == st.0 && ioreg_step(st, l).1 == st.1 && ioreg_step(st, l).3 == st.3
            && ioreg_step(st, l).4 == st.4,
{
}

/// A dump line that reports external power (and no current key) sets the external-power
/// reading to whether the line says "Yes", and keeps every other reading.
pub proof fn lemma_external_power_line(st: IoregView, l: Seq<char>)
    requires
        chars_contains(l, "\"ExternalConnected\""@),
        !chars_contains(l, "\"Amperage\""@),
        !chars_contains(l, "\"InstantAmperage\""@),
    ensures
        ioreg_step(st, l).1 == chars_contains(l, "Yes"@),
        ioreg_step(st, l).0 == st.0 && ioreg_step(st, l).2 == st.2 && ioreg_step(st, l).3 == st.3
            && ioreg_step(st, l).4 == st.4,
{
}

/// The charging flag on the two forms the dump writes: `"IsCharging" = Yes` sets it and
/// `"IsCharging" = No` clears it, whatever was read before.
pub proof fn lemma_charging_flag_words(st: IoregView)
    ensures
        ioreg_step(st, "\"IsCharging\" = Yes"@).2,
        !ioreg_step(st, "\"IsCharging\" = No"@).2,
{
    let yes = "\"IsCharging\" = Yes"@;
    let no = "\"IsCharging\" = No"@;
    reveal_strlit("\"IsCharging\" = Yes");
    reveal_strlit("\"IsCharging\" = No");
    reveal_strlit("\"IsCharging\"");
    reveal_strlit("Yes");
    reveal_strlit("\"Amperage\"");
    reveal_strlit("\"InstantAmperage\"");
    reveal_strlit("\"ExternalConnected\"");
    assert(yes.subrange(0, 12) =~= "\"IsCharging\""@);
    assert(no.subrange(0, 12) =~= "\"IsCharging\""@);
    assert(chars_at(yes, "\"IsCharging\""@, 0));
    assert(chars_at(no, "\"IsCharging\""@, 0));
    assert(yes.subrange(15, 18) =~= "Yes"@);
    assert(chars_at(yes, "Yes"@, 15));
    assert forall|i: int| !chars_at(no, "Yes"@, i) by {
        if chars_at(no, "Yes"@, i) {
            assert(no.subrange(i, i + 3)[0] == no[i]);
            assert(no[i] == 'Y');
            assert(0 <= i <= 14);
            assert(i == 0 || i == 1 || i == 2 || i == 3 || i == 4 || i == 5 || i == 6 || i == 7
                || i == 8 || i == 9 || i == 10 || i == 11 || i == 12 || i == 13 || i == 14);
        }
    }
    assert forall|i: int| !chars_at(yes, "\"Amperage\""@, i) by {
        if chars_at(yes, "\"Amperage\""@, i) {
            let w = yes.subrange(i, i + "\"Amperage\""@.len());
            assert(w[0] == yes[i] && w[1] == yes[i + 1]);
            assert(yes[i] == '"' && yes[i + 1] == 'A');
            assert(i == 0 || i == 1 || i == 2 || i == 3 || i == 4 || i == 5 || i == 6 || i == 7 || i == 8 || i == 9 || i == 10 || i == 11 || i == 12 || i == 13 || i == 14 || i == 15 || i == 16 || i == 17);
        }
    }
    assert forall|i: int| !chars_at(yes, "\"InstantAmperage\""@, i) by {
        if chars_at(yes, "\"InstantAmperage\""@, i) {
            let w = yes.subrange(i, i + "\"InstantAmperage\""@.len());
            assert(w[0] == yes[i] && w[1] == yes[i + 1] && w[2] == yes[i + 2]);
            assert(yes[i] == '"' && yes[i + 1] == 'I' && yes[i + 2] == 'n');
            assert(i == 0 || i == 1 || i == 2 || i == 3 || i == 4 || i == 5 || i == 6 || i == 7 || i == 8 || i == 9 || i == 10 || i == 11 || i == 12 || i == 13 || i == 14 || i == 15 || i == 16 || i == 17);
        }
    }
    assert forall|i: int| !chars_at(yes, "\"ExternalConnected\""@, i) by {
        if chars_at(yes, "\"ExternalConnected\""@, i) {
            let w = yes.subrange(i, i + "\"ExternalConnected\""@.len());
            assert(w[0] == yes[i] && w[1] == yes[i + 1]);
            assert(yes[i] == '"' && yes[i + 1] == 'E');
            assert(i == 0 || i == 1 || i == 2 || i == 3 || i == 4 || i == 5 || i == 6 || i == 7 || i == 8 || i == 9 || i == 10 || i == 11 || i == 12 || i == 13 || i == 14 || i == 15 || i == 16 || i == 17);
        }
    }
    assert forall|i: int| !chars_at(no, "\"Amperage\""@, i) by {
        if chars_at(no, "\"Amperage\""@, i) {
            let w = no.subrange(i, i + "\"Amperage\""@.len());
            assert(w[0] == no[i] && w[1] == no[i + 1]);
            assert(no[i] == '"' && no[i + 1] == 'A');
            assert(i == 0 || i == 1 || i == 2 || i == 3 || i == 4 || i == 5 || i == 6 || i == 7 || i == 8 || i == 9 || i == 10 || i == 11 || i == 12 || i == 13 || i == 14 || i == 15 || i == 16);
        }
    }
    assert forall|i: int| !chars_at(no, "\"InstantAmperage\""@, i) by {
        if chars_at(no, "\"InstantAmperage\""@, i) {
            let w = no.subrange(i, i + "\"InstantAmperage\""@.len());
            assert(w[0] == no[i] && w[1] == no[i + 1] && w[2] == no[i + 2]);
            assert(no[i] == '"' && no[i + 1] == 'I' && no[i + 2] == 'n');
            assert(i == 0 || i == 1 || i == 2 || i == 3 || i == 4 || i == 5 || i == 6 || i == 7 || i == 8 || i == 9 || i == 10 || i == 11 || i == 12 || i == 13 || i == 14 || i == 15 || i == 16);
        }
    }
    assert forall|i: int| !chars_at(no, "\"ExternalConnected\""@, i) by {
        if chars_at(no, "\"ExternalConnected\""@, i) {
            let w = no.subrange(i, i + "\"ExternalConnected\""@.len());
            assert(w[0] == no[i] && w[1] == no[i + 1]);
            assert(no[i] == '"' && no[i + 1] == 'E');
            assert(i == 0 || i == 1 || i == 2 || i == 3 || i == 4 || i == 5 || i == 6 || i == 7 || i == 8 || i == 9 || i == 10 || i == 11 || i == 12 || i == 13 || i == 14 || i == 15 || i == 16);
        }
    }
    lemma_charging_flag_line(st, yes);
    lemma_charging_flag_line(st, no);
}

} // verus!
