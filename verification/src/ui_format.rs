//! Text for table cells and info panels: durations, sizes and names.

use vstd::prelude::*;
use vstd::string::*;
use vstd::utf8::*;
use crate::app::SortColumn;
use crate::text::{
    decimal, double_value, fixed_quotient_text, format_double_quotient, format_fixed_quotient,
    u64_to_decimal,
};

verus! {

/// `"{d}d {h}h {m}m"` from a day on, `"{h}h {m}m"` from an hour on, else `"{m}m"`.
pub open spec fn uptime_text(secs: nat) -> Seq<char> {
    let days = secs / 86400;
    let hours = (secs % 86400) / 3600;
    let mins = (secs % 3600) / 60;
    if days > 0 {
        decimal(days) + "d "@ + decimal(hours) + "h "@ + decimal(mins) + "m"@
    } else if hours > 0 {
        decimal(hours) + "h "@ + decimal(mins) + "m"@
    } else {
        decimal(mins) + "m"@
    }
}

/// An uptime in days, hours and minutes.
pub fn format_uptime(secs: u64) -> (s: String)
    ensures
        s@ == uptime_text(secs as nat),
{
    let days = secs / 86400;
    let hours = (secs % 86400) / 3600;
    let mins = (secs % 3600) / 60;
    if days > 0 {
        let mut s = u64_to_decimal(days);
        s.append("d ");
        let h = u64_to_decimal(hours);
        s.append(h.as_str());
        s.append("h ");
        let m = u64_to_decimal(mins);
        s.append(m.as_str());
        s.append("m");
        s
    } else if hours > 0 {
        let mut s = u64_to_decimal(hours);
        s.append("h ");
        let m = u64_to_decimal(mins);
        s.append(m.as_str());
        s.append("m");
        s
    } else {
        let mut s = u64_to_decimal(mins);
        s.append("m");
        s
    }
}

/// A byte count in B, or in KB, MB, GB (binary multiples) with two decimals rounded half
/// to even; the GB figure is that of the count as a double.
pub open spec fn bytes_text(bytes: nat) -> Seq<char> {
    if bytes >= 1024 * 1024 * 1024 {
        fixed_quotient_text(double_value(bytes), 1024 * 1024 * 1024, 2) + " GB"@
    } else if bytes >= 1024 * 1024 {
        fixed_quotient_text(bytes, 1024 * 1024, 2) + " MB"@
    } else if bytes >= 1024 {
        fixed_quotient_text(bytes, 1024, 2) + " KB"@
    } else {
        decimal(bytes) + " B"@
    }
}

/// A byte count for display.
pub fn format_bytes(bytes: u64) -> (s: String)
    ensures
        s@ == bytes_text(bytes as nat),
{
    if bytes >= 1024 * 1024 * 1024 {
        let mut s = format_double_quotient(bytes, 1024 * 1024 * 1024, 2);
        s.append(" GB");
        s
    } else if bytes >= 1024 * 1024 {
        let mut s = format_fixed_quotient(bytes, 1024 * 1024, 2);
        s.append(" MB");
        s
    } else if bytes >= 1024 {
        let mut s = format_fixed_quotient(bytes, 1024, 2);
        s.append(" KB");
        s
    } else {
        let mut s = u64_to_decimal(bytes);
        s.append(" B");
        s
    }
}

/// A session length: `-` when negative, else hours and minutes.
pub open spec fn session_duration_text(secs: int) -> Seq<char> {
    if secs < 0 {
        "-"@
    } else {
        let hours = secs / 3600;
        let mins = (secs % 3600) / 60;
        if hours > 0 {
            decimal(hours as nat) + "h "@ + decimal(mins as nat) + "m"@
        } else {
            decimal(mins as nat) + "m"@
        }
    }
}

/// A charge or discharge session length for the cycle view.
pub fn format_session_duration(secs: i64) -> (s: String)
    ensures
        s@ == session_duration_text(secs as int),
{
    if secs < 0 {
        return "-".to_string();
    }
    let secs = secs as u64;
    let hours = secs / 3600;
    let mins = (secs % 3600) / 60;
    if hours > 0 {
        let mut s = u64_to_decimal(hours);
        s.append("h ");
        let m = u64_to_decimal(mins);
        s.append(m.as_str());
        s.append("m");
        s
    } else {
        let mut s = u64_to_decimal(mins);
        s.append("m");
        s
    }
}

/// A process run time in its largest units: `45s`, `12m`, `3h5m`, `3h`, `2d4h`, `2d`.
pub open spec fn run_time_text(secs: nat) -> Seq<char> {
    if secs < 60 {
        decimal(secs) + "s"@
    } else if secs < 3600 {
        decimal(secs / 60) + "m"@
    } else if secs < 86400 {
        let hours = secs / 3600;
        let mins = (secs % 3600) / 60;
        if mins > 0 {
            decimal(hours) + "h"@ + decimal(mins) + "m"@
        } else {
            decimal(hours) + "h"@
        }
    } else {
        let days = secs / 86400;
        let hours = (secs % 86400) / 3600;
        if hours > 0 {
            decimal(days) + "d"@ + decimal(hours) + "h"@
        } else {
            decimal(days) + "d"@
        }
    }
}

fn two_units(a: u64, ua: &str, b: u64, ub: &str) -> (s: String)
    ensures
        s@ == decimal(a as nat) + ua@ + decimal(b as nat) + ub@,
{
    let mut s = u64_to_decimal(a);
    s.append(ua);
    let t = u64_to_decimal(b);
    s.append(t.as_str());
    s.append(ub);
    s
}

fn one_unit(a: u64, ua: &str) -> (s: String)
    ensures
        s@ == decimal(a as nat) + ua@,
{
    let mut s = u64_to_decimal(a);
    s.append(ua);
    s
}

/// A process run time for the process table.
pub fn format_duration(secs: u64) -> (s: String)
    ensures
        s@ == run_time_text(secs as nat),
{
    if secs < 60 {
        one_unit(secs, "s")
    } else if secs < 3600 {
        one_unit(secs / 60, "m")
    } else if secs < 86400 {
        let hours = secs / 3600;
        let mins = (secs % 3600) / 60;
        if mins > 0 {
            two_units(hours, "h", mins, "m")
        } else {
            one_unit(hours, "h")
        }
    } else {
        let days = secs / 86400;
        let hours = (secs % 86400) / 3600;
        if hours > 0 {
            two_units(days, "d", hours, "h")
        } else {
            one_unit(days, "d")
        }
    }
}

/// Disk traffic of a process: `-` for none, bytes, whole KiB, or MiB with one decimal
/// (rounded half to even, the MiB figure being that of the total as a double).
pub open spec fn disk_io_text(total: nat) -> Seq<char> {
    if total == 0 {
        "-"@
    } else if total < 1024 {
        decimal(total) + "B"@
    } else if total < 1024 * 1024 {
        fixed_quotient_text(total, 1024, 0) + "K"@
    } else {
        fixed_quotient_text(double_value(total), 1024 * 1024, 1) + "M"@
    }
}

/// Combined disk reads and writes of a process; the sum fits in a `u64`.
pub fn format_disk_io(read_bytes: u64, write_bytes: u64) -> (s: String)
    requires
        read_bytes + write_bytes <= u64::MAX,
    ensures
        s@ == disk_io_text((read_bytes + write_bytes) as nat),
{
    let total = read_bytes + write_bytes;
    if total == 0 {
        "-".to_string()
    } else if total < 1024 {
        one_unit(total, "B")
    } else if total < 1024 * 1024 {
        let mut s = format_fixed_quotient(total, 1024, 0);
        s.append("K");
        s
    } else {
        let mut s = format_double_quotient(total, 1024 * 1024, 1);
        s.append("M");
        s
    }
}

/// A column header, marked with the sort indicator when it is the sort column.
pub open spec fn header_text(name: Seq<char>, col: SortColumn, current: SortColumn, indicator: Seq<char>) -> Seq<char> {
    if col == current {
        name + " "@ + indicator
    } else {
        name
    }
}

/// The header of a process-table column.
pub fn format_header(name: &str, col: SortColumn, current: SortColumn, indicator: &str) -> (s: String)
    ensures
        s@ == header_text(name@, col, current, indicator@),
{
    if col == current {
        let mut s = name.to_string();
        s.append(" ");
        s.append(indicator);
        s
    } else {
        name.to_string()
    }
}

/// A name cut to `max_len` bytes: unchanged when it fits, else its first `max_len - 3`
/// bytes and `...`.
pub open spec fn truncate_name_spec(name: Seq<char>, max_len: nat) -> Seq<u8> {
    let b = encode_utf8(name);
    if b.len() <= max_len {
        b
    } else {
        b.take(max_len - 3) + encode_utf8("..."@)
    }
}

/// The names `truncate_name` can cut without fault: a name that does not fit needs room
/// for the ellipsis and a cut on a character boundary.
pub open spec fn truncate_name_defined(name: Seq<char>, max_len: nat) -> bool {
    let b = encode_utf8(name);
    b.len() > max_len ==> max_len >= 3 && is_char_boundary(b, max_len - 3)
}

/// Cuts a process name to `max_len` bytes, ending a cut with `...`.
pub fn truncate_name(name: &str, max_len: usize) -> (s: String)
    requires
        truncate_name_defined(name@, max_len as nat),
    ensures
        encode_utf8(s@) == truncate_name_spec(name@, max_len as nat),
{
    if name.as_bytes().len() <= max_len {
        return name.to_string();
    }
    let (head, _tail) = name.split_at(max_len - 3);
    let mut s = head.to_string();
    s.append("...");
    proof {
        vstd::utf8::encode_utf8_decode_utf8(head@);
        lemma_encode_utf8_concat(head@, "..."@);
        assert(encode_utf8(head@) =~= encode_utf8(name@).take(max_len - 3));
    }
    s
}

/// [`truncate_name`] where the cut falls on a character boundary; `None` where it would
/// split a character.
pub fn truncate_name_checked(name: &str, max_len: usize) -> (r: Option<String>)
    ensures
        r is Some <==> truncate_name_defined(name@, max_len as nat),
        r matches Some(s) ==> encode_utf8(s@) == truncate_name_spec(name@, max_len as nat),
{
    let n = name.as_bytes().len();
    if n <= max_len {
        return Some(truncate_name(name, max_len));
    }
    if max_len < 3 || !name.is_char_boundary(max_len - 3) {
        return None;
    }
    Some(truncate_name(name, max_len))
}

/// The encoding of two joined texts is the joined encodings.
pub proof fn lemma_encode_utf8_concat(a: Seq<char>, b: Seq<char>)
    ensures
        encode_utf8(a + b) == encode_utf8(a) + encode_utf8(b),
    decreases a.len(),
{
    if a.len() == 0 {
        assert(a + b =~= b);
        assert(encode_utf8(a) =~= Seq::<u8>::empty());
        assert(encode_utf8(a) + encode_utf8(b) =~= encode_utf8(b));
    } else {
        lemma_encode_utf8_concat(a.drop_first(), b);
        assert((a + b).drop_first() =~= a.drop_first() + b);
        assert(encode_utf8(a + b) == encode_scalar((a + b)[0] as u32) + encode_utf8((a + b).drop_first()));
        assert(encode_utf8(a + b) =~= encode_utf8(a) + encode_utf8(b));
    }
}

} // verus!
