//! Reading `pmset -g batt` status lines: charge text, charging state and time remaining.

use vstd::prelude::*;
use vstd::string::*;
use crate::battery_parse::string_of_range;
use crate::data::ChargeState;
use crate::text::chars_of;
use crate::text_parse::{
    chars_contains, chars_find, contains_in_range, find_in_range, first_of, first_of_range, is_ws,
    is_ws_char, lemma_chars_find_at, line_bounds,
    lines_spec, parse_u64_range, parse_u64_spec, trim_bounds, trim_spec,
};

verus! {

/// The line is a battery status line.
pub open spec fn pmset_line_relevant(l: Seq<char>) -> bool {
    chars_contains(l, "InternalBattery"@) || chars_contains(l, "%"@)
}

/// One past the last white-space character of `s`, or 0 when there is none.
pub open spec fn after_last_ws(s: Seq<char>) -> int
    decreases s.len(),
{
    if s.len() == 0 {
        0
    } else if is_ws(s.last()) {
        s.len() as int
    } else {
        after_last_ws(s.drop_last())
    }
}

proof fn lemma_after_last_ws(s: Seq<char>)
    ensures
        0 <= after_last_ws(s) <= s.len(),
    decreases s.len(),
{
    if s.len() > 0 && !is_ws(s.last()) {
        lemma_after_last_ws(s.drop_last());
    }
}

/// The charge text of a status line: the word before its first `%`, trimmed.
pub open spec fn percent_text(l: Seq<char>) -> Option<Seq<char>> {
    let p = first_of(l, '%');
    if p < l.len() {
        let head = l.take(p);
        Some(trim_spec(head.skip(after_last_ws(head))))
    } else {
        None
    }
}

/// The charging state a status line states, if any: `discharging`, `not charging`,
/// `charging`, `charged`, tried in that order (so that "discharging" and "not charging"
/// are not read as "charging").
pub open spec fn pmset_state(l: Seq<char>, current: ChargeState) -> ChargeState {
    if chars_contains(l, "discharging"@) {
        ChargeState::Discharging
    } else if chars_contains(l, "not charging"@) {
        ChargeState::NotCharging
    } else if chars_contains(l, "charging"@) {
        ChargeState::Charging
    } else if chars_contains(l, "charged"@) {
        ChargeState::Full
    } else {
        current
    }
}

/// The hours and minutes a status line gives: the `h:mm` word just before its first
/// " remaining" (none when the line gives no estimate).
#[verifier::opaque]
pub open spec fn pmset_time_parts(l: Seq<char>) -> Option<(u64, u64)> {
    match chars_find(l, " remaining"@) {
        None => None,
        Some(p) => {
            let head = l.take(p);
            let tok = head.skip(after_last_ws(head));
            let colon = first_of(tok, ':');
            if colon < tok.len() {
                match (parse_u64_spec(tok.take(colon)), parse_u64_spec(tok.skip(colon + 1))) {
                    (Some(h), Some(m)) => Some((h, m)),
                    _ => None,
                }
            } else {
                None
            }
        },
    }
}

/// The readings a status report gives: charging state, time to full and to empty (in
/// seconds), and the charge texts of its status lines in order.
pub type PmsetView = (ChargeState, Option<u64>, Option<u64>, Seq<Seq<char>>);

/// The readings after one status line.
pub open spec fn pmset_step(st: PmsetView, l: Seq<char>) -> PmsetView {
    if pmset_line_relevant(l) {
        let texts = match percent_text(l) {
            Some(t) => st.3.push(t),
            None => st.3,
        };
        let state = pmset_state(l, st.0);
        match pmset_time_parts(l) {
            Some((h, m)) => {
                let d = (h * 3600 + m * 60) as u64;
                if state == ChargeState::Charging {
                    (state, Some(d), st.2, texts)
                } else {
                    (state, st.1, Some(d), texts)
                }
            },
            None => (state, st.1, st.2, texts),
        }
    } else {
        st
    }
}

/// The readings after the given lines, starting from `init`.
pub open spec fn pmset_fold(init: PmsetView, lines: Seq<Seq<char>>) -> PmsetView
    decreases lines.len(),
{
    if lines.len() == 0 {
        init
    } else {
        pmset_step(pmset_fold(init, lines.drop_last()), lines.last())
    }
}

/// Every time a status line gives fits in seconds in a `u64`.
pub open spec fn pmset_times_fit(output: Seq<char>) -> bool {
    forall|k: int|
        0 <= k < lines_spec(output).len() ==> match pmset_time_parts(#[trigger] lines_spec(output)[k]) {
            Some((h, m)) => h * 3600 + m * 60 <= u64::MAX,
            None => true,
        }
}

/// What a `pmset` report says.
#[derive(Debug, Clone)]
pub struct PmsetReadings {
    pub state: ChargeState,
    pub time_to_full_secs: Option<u64>,
    pub time_to_empty_secs: Option<u64>,
    /// Charge-level texts of the status lines, in order (parsed as numbers by the caller).
    pub percent_texts: Vec<String>,
}

/// The readings as plain values.
pub open spec fn pmset_view(r: PmsetReadings) -> PmsetView {
    (r.state, r.time_to_full_secs, r.time_to_empty_secs, r.percent_texts@.map_values(|t: String| t@))
}

fn percent_text_range(v: &Vec<char>, lo: usize, hi: usize) -> (r: Option<(usize, usize)>)
    requires
        lo <= hi <= v.len(),
    ensures
        match r {
            Some(b) => b.0 <= b.1 <= v.len() && percent_text(v@.subrange(lo as int, hi as int)) == Some(
                v@.subrange(b.0 as int, b.1 as int),
            ),
            None => percent_text(v@.subrange(lo as int, hi as int)) is None,
        },
{
    let ghost l = v@.subrange(lo as int, hi as int);
    let p = first_of_range(v, lo, hi, '%');
    if lo + p >= hi {
        return None;
    }
    let ghost head = l.take(p as int);
    assert(head =~= v@.subrange(lo as int, lo + p));
    let mut s = lo + p;
    while s > lo && !is_ws_char(v[s - 1])
        invariant
            lo <= s <= lo + p,
            lo + p <= v@.len(),
            head == v@.subrange(lo as int, lo + p),
            after_last_ws(head) == after_last_ws(v@.subrange(lo as int, s as int)),
        decreases s - lo,
    {
        assert(v@.subrange(lo as int, s as int).drop_last() =~= v@.subrange(lo as int, s - 1));
        s = s - 1;
    }
    proof {
        assert(after_last_ws(head) == s - lo);
        assert(head.skip(s - lo) =~= v@.subrange(s as int, lo + p));
    }
    let (a, b) = trim_bounds(v, s, lo + p);
    Some((a, b))
}

fn pmset_state_range(v: &Vec<char>, lo: usize, hi: usize, current: ChargeState) -> (r: ChargeState)
    requires
        lo <= hi <= v.len(),
    ensures
        r == pmset_state(v@.subrange(lo as int, hi as int), current),
{
    if contains_in_range(v, lo, hi, "discharging") {
        ChargeState::Discharging
    } else if contains_in_range(v, lo, hi, "not charging") {
        ChargeState::NotCharging
    } else if contains_in_range(v, lo, hi, "charging") {
        ChargeState::Charging
    } else if contains_in_range(v, lo, hi, "charged") {
        ChargeState::Full
    } else {
        current
    }
}

/// Start of the last white-space-free word of `v[lo..e]`, as `lo + after_last_ws`.
fn word_start(v: &Vec<char>, lo: usize, e: usize) -> (s: usize)
    requires
        lo <= e <= v.len(),
    ensures
        lo <= s <= e,
        s - lo == after_last_ws(v@.subrange(lo as int, e as int)),
{
    let ghost head = v@.subrange(lo as int, e as int);
    let mut s = e;
    while s > lo && !is_ws_char(v[s - 1])
        invariant
            lo <= s <= e,
            e <= v@.len(),
            head == v@.subrange(lo as int, e as int),
            after_last_ws(head) == after_last_ws(v@.subrange(lo as int, s as int)),
        decreases s - lo,
    {
        assert(v@.subrange(lo as int, s as int).drop_last() =~= v@.subrange(lo as int, s - 1));
        s = s - 1;
    }
    s
}

fn pmset_time_range(v: &Vec<char>, lo: usize, hi: usize) -> (r: Option<(u64, u64)>)
    requires
        lo <= hi <= v.len(),
    ensures
        r == pmset_time_parts(v@.subrange(lo as int, hi as int)),
{
    let ghost l = v@.subrange(lo as int, hi as int);
    proof {
        reveal(pmset_time_parts);
        lemma_chars_find_at(l, " remaining"@);
    }
    let p = match find_in_range(v, lo, hi, " remaining") {
        None => {
            return None;
        },
        Some(p) => p,
    };
    let e = lo + p;
    let ghost head = l.take(p as int);
    assert(head =~= v@.subrange(lo as int, e as int));
    let w = word_start(v, lo, e);
    let ghost tok = head.skip(w - lo);
    assert(tok =~= v@.subrange(w as int, e as int));
    let colon = first_of_range(v, w, e, ':');
    if w + colon >= e {
        return None;
    }
    assert(tok.take(colon as int) =~= v@.subrange(w as int, w + colon));
    assert(tok.skip(colon + 1) =~= v@.subrange(w + colon + 1, e as int));
    let h = parse_u64_range(v, w, w + colon);
    let m = parse_u64_range(v, w + colon + 1, e);
    match (h, m) {
        (Some(h), Some(m)) => Some((h, m)),
        _ => None,
    }
}

#[verifier::rlimit(40)]
fn pmset_step_exec(st: &mut PmsetReadings, v: &Vec<char>, lo: usize, hi: usize)
    requires
        lo <= hi <= v.len(),
        match pmset_time_parts(v@.subrange(lo as int, hi as int)) {
            Some((h, m)) => h * 3600 + m * 60 <= u64::MAX,
            None => true,
        },
    ensures
        pmset_view(*final(st)) == pmset_step(pmset_view(*old(st)), v@.subrange(lo as int, hi as int)),
{
    let ghost l = v@.subrange(lo as int, hi as int);
    let ghost before = pmset_view(*st);
    if !(contains_in_range(v, lo, hi, "InternalBattery") || contains_in_range(v, lo, hi, "%")) {
        return;
    }
    if let Some((a, b)) = percent_text_range(v, lo, hi) {
        let t = string_of_range(v, a, b);
        st.percent_texts.push(t);
        assert(st.percent_texts@.map_values(|t: String| t@) =~= before.3.push(v@.subrange(a as int, b as int)));
    }
    let state = pmset_state_range(v, lo, hi, st.state);
    st.state = state;
    if let Some((h, m)) = pmset_time_range(v, lo, hi) {
        let d = h * 3600 + m * 60;
        if state == ChargeState::Charging {
            st.time_to_full_secs = Some(d);
        } else {
            st.time_to_empty_secs = Some(d);
        }
    }
}

/// Reads a `pmset -g batt` report line by line, starting from the previous state and
/// times; the charge texts of the status lines are collected for the caller to read as
/// numbers.
pub fn parse_pmset_output(
    output: &str,
    state: ChargeState,
    time_to_full_secs: Option<u64>,
    time_to_empty_secs: Option<u64>,
) -> (r: PmsetReadings)
    requires
        pmset_times_fit(output@),
    ensures
        pmset_view(r) == pmset_fold((state, time_to_full_secs, time_to_empty_secs, Seq::empty()), lines_spec(output@)),
{
    let v = chars_of(output);
    let bounds = line_bounds(&v);
    let ghost lines = bounds@.map_values(|b: (usize, usize)| v@.subrange(b.0 as int, b.1 as int));
    let ghost init: PmsetView = (state, time_to_full_secs, time_to_empty_secs, Seq::empty());
    let mut st = PmsetReadings { state, time_to_full_secs, time_to_empty_secs, percent_texts: Vec::new() };
    assert(pmset_view(st) =~= init);
    assert(lines.take(0) =~= Seq::<Seq<char>>::empty());
    let mut k: usize = 0;
    while k < bounds.len()
        invariant
            k <= bounds@.len(),
            lines == bounds@.map_values(|b: (usize, usize)| v@.subrange(b.0 as int, b.1 as int)),
            lines == lines_spec(output@),
            pmset_times_fit(output@),
            forall|m: int| 0 <= m < bounds@.len() ==> (#[trigger] bounds@[m]).0 <= bounds@[m].1 <= v@.len(),
            pmset_view(st) == pmset_fold(init, lines.take(k as int)),
        decreases bounds@.len() - k,
    {
        let (lo, hi) = bounds[k];
        assert(lines[k as int] == v@.subrange(lo as int, hi as int));
        pmset_step_exec(&mut st, &v, lo, hi);
        proof {
            assert(lines.take(k + 1).drop_last() =~= lines.take(k as int));
            assert(lines.take(k + 1).last() == v@.subrange(lo as int, hi as int));
        }
        k = k + 1;
    }
    assert(lines.take(bounds@.len() as int) =~= lines);
    st
}

/// Whether every time a `pmset` report gives fits in seconds in a `u64`.
pub fn pmset_times_fit_exec(output: &str) -> (b: bool)
    ensures
        b == pmset_times_fit(output@),
{
    let v = chars_of(output);
    let bounds = line_bounds(&v);
    let ghost lines = bounds@.map_values(|b: (usize, usize)| v@.subrange(b.0 as int, b.1 as int));
    let mut k: usize = 0;
    while k < bounds.len()
        invariant
            k <= bounds@.len(),
            lines == bounds@.map_values(|b: (usize, usize)| v@.subrange(b.0 as int, b.1 as int)),
            lines == lines_spec(output@),
            forall|m: int| 0 <= m < bounds@.len() ==> (#[trigger] bounds@[m]).0 <= bounds@[m].1 <= v@.len(),
            forall|m: int|
                0 <= m < k ==> match pmset_time_parts(#[trigger] lines[m]) {
                    Some((h, mm)) => h * 3600 + mm * 60 <= u64::MAX,
                    None => true,
                },
        decreases bounds@.len() - k,
    {
        let (lo, hi) = bounds[k];
        assert(lines[k as int] == v@.subrange(lo as int, hi as int));
        if let Some((h, m)) = pmset_time_range(&v, lo, hi) {
            let secs: u128 = (h as u128) * 3600 + (m as u128) * 60;
            if secs > u64::MAX as u128 {
                assert(match pmset_time_parts(lines[k as int]) {
                    Some((h2, m2)) => h2 * 3600 + m2 * 60 <= u64::MAX,
                    None => true,
                } == false);
                return false;
            }
        }
        k = k + 1;
    }
    true
}

/// [`parse_pmset_output`] on a report whose times all fit in seconds; `None` for one
/// whose times would overflow.
pub fn parse_pmset_output_checked(
    output: &str,
    state: ChargeState,
    time_to_full_secs: Option<u64>,
    time_to_empty_secs: Option<u64>,
) -> (r: Option<PmsetReadings>)
    ensures
        r is Some <==> pmset_times_fit(output@),
        r matches Some(x) ==> pmset_view(x) == pmset_fold(
            (state, time_to_full_secs, time_to_empty_secs, Seq::empty()),
            lines_spec(output@),
        ),
{
    if pmset_times_fit_exec(output) {
        Some(parse_pmset_output(output, state, time_to_full_secs, time_to_empty_secs))
    } else {
        None
    }
}

/// A duration in seconds as `"{h}h {m}m"` (from an hour on) or `"{m}m"`.
pub fn time_remaining_formatted(secs: Option<u64>) -> (r: Option<String>)
    ensures
        match secs {
            Some(s) => r matches Some(t) && t@ == crate::protocol::hours_minutes_text((s / 60) as nat),
            None => r is None,
        },
{
    match secs {
        Some(s) => Some(crate::protocol::format_hours_minutes(s / 60)),
        None => None,
    }
}

/// The power mode `pmset -g` reports: low power when `lowpowermode 1` appears, else high
/// performance when `highpowermode 1` appears, else automatic.
pub open spec fn power_mode_spec(output: Seq<char>) -> crate::data::PowerMode {
    if crate::text::contains_spec(output, "lowpowermode 1"@) {
        crate::data::PowerMode::LowPower
    } else if crate::text::contains_spec(output, "highpowermode 1"@) {
        crate::data::PowerMode::HighPerformance
    } else {
        crate::data::PowerMode::Automatic
    }
}

/// The power mode in `pmset -g` output.
pub fn power_mode_from_pmset(output: &str) -> (m: crate::data::PowerMode)
    ensures
        m == power_mode_spec(output@),
{
    if crate::text::str_contains(output, "lowpowermode 1") {
        crate::data::PowerMode::LowPower
    } else if crate::text::str_contains(output, "highpowermode 1") {
        crate::data::PowerMode::HighPerformance
    } else {
        crate::data::PowerMode::Automatic
    }
}

} // verus!
