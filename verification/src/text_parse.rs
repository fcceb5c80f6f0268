//! Reading command output: lines, trimming and integer fields, as `str`'s methods do.

use vstd::prelude::*;
use crate::text::{chars_of, push_char};

verus! {

/// A character with the Unicode `White_Space` property (`char::is_whitespace`).
pub open spec fn is_ws(c: char) -> bool {
    c == ' ' || ('\t' <= c && c <= '\r') || c == '\u{85}' || c == '\u{a0}' || c == '\u{1680}' || (
    '\u{2000}' <= c && c <= '\u{200a}') || c == '\u{2028}' || c == '\u{2029}' || c == '\u{202f}'
        || c == '\u{205f}' || c == '\u{3000}'
}

/// Whether a character is white space (`char::is_whitespace`).
pub fn is_ws_char(c: char) -> (b: bool)
    ensures
        b == is_ws(c),
{
    c == ' ' || ('\t' <= c && c <= '\r') || c == '\u{85}' || c == '\u{a0}' || c == '\u{1680}' || (
    '\u{2000}' <= c && c <= '\u{200a}') || c == '\u{2028}' || c == '\u{2029}' || c == '\u{202f}'
        || c == '\u{205f}' || c == '\u{3000}'
}

/// `s` without leading white space.
pub open spec fn trim_start_spec(s: Seq<char>) -> Seq<char>
    decreases s.len(),
{
    if s.len() > 0 && is_ws(s[0]) {
        trim_start_spec(s.drop_first())
    } else {
        s
    }
}

/// `s` without trailing white space.
pub open spec fn trim_end_spec(s: Seq<char>) -> Seq<char>
    decreases s.len(),
{
    if s.len() > 0 && is_ws(s.last()) {
        trim_end_spec(s.drop_last())
    } else {
        s
    }
}

/// `s` without leading and trailing white space (`str::trim`).
pub open spec fn trim_spec(s: Seq<char>) -> Seq<char> {
    trim_end_spec(trim_start_spec(s))
}

/// The characters `lo..hi` of `v`, without leading and trailing white space, as bounds.
pub fn trim_bounds(v: &Vec<char>, lo: usize, hi: usize) -> (r: (usize, usize))
    requires
        lo <= hi <= v.len(),
    ensures
        lo <= r.0 <= r.1 <= hi,
        v@.subrange(r.0 as int, r.1 as int) == trim_spec(v@.subrange(lo as int, hi as int)),
{
    let mut a = lo;
    while a < hi && is_ws_char(v[a])
        invariant
            lo <= a <= hi,
            hi <= v@.len(),
            trim_start_spec(v@.subrange(lo as int, hi as int)) == trim_start_spec(
                v@.subrange(a as int, hi as int),
            ),
        decreases hi - a,
    {
        assert(v@.subrange(a as int, hi as int).drop_first() =~= v@.subrange(a + 1, hi as int));
        a = a + 1;
    }
    let mut b = hi;
    assert(trim_start_spec(v@.subrange(a as int, hi as int)) == v@.subrange(a as int, hi as int));
    while b > a && is_ws_char(v[b - 1])
        invariant
            lo <= a <= b <= hi,
            hi <= v@.len(),
            trim_spec(v@.subrange(lo as int, hi as int)) == trim_end_spec(v@.subrange(a as int, b as int)),
        decreases b - a,
    {
        assert(v@.subrange(a as int, b as int).drop_last() =~= v@.subrange(a as int, b - 1));
        b = b - 1;
    }
    (a, b)
}

/// Position of the first `\n` in `s`, or its length when there is none.
pub open spec fn first_newline(s: Seq<char>) -> int
    decreases s.len(),
{
    if s.len() == 0 {
        0
    } else if s[0] == '\n' {
        0
    } else {
        1 + first_newline(s.drop_first())
    }
}

pub proof fn lemma_first_newline(s: Seq<char>)
    ensures
        0 <= first_newline(s) <= s.len(),
        forall|j: int| 0 <= j < first_newline(s) ==> s[j] != '\n',
        first_newline(s) < s.len() ==> s[first_newline(s)] == '\n',
    decreases s.len(),
{
    if s.len() > 0 && s[0] != '\n' {
        lemma_first_newline(s.drop_first());
        assert forall|j: int| 0 <= j < first_newline(s) implies s[j] != '\n' by {
            if j > 0 {
                assert(s[j] == s.drop_first()[j - 1]);
            }
        }
    }
}

/// A line without the `\r` of a `\r\n` ending.
pub open spec fn strip_cr(line: Seq<char>) -> Seq<char> {
    if line.len() > 0 && line.last() == '\r' {
        line.drop_last()
    } else {
        line
    }
}

/// The lines of a text as `str::lines` gives them: split at `\n`, a `\r` before the `\n`
/// dropped, and no empty line after a final `\n`.
pub open spec fn lines_spec(s: Seq<char>) -> Seq<Seq<char>>
    decreases s.len(),
{
    if s.len() == 0 {
        Seq::empty()
    } else {
        let i = first_newline(s);
        if i < s.len() {
            proof {
                lemma_first_newline(s);
            }
            seq![strip_cr(s.take(i))] + lines_spec(s.skip(i + 1))
        } else {
            seq![s]
        }
    }
}

/// Decimal value of a run of ASCII digits.
pub open spec fn digits_value(s: Seq<char>) -> nat
    decreases s.len(),
{
    if s.len() == 0 {
        0
    } else {
        digits_value(s.drop_last()) * 10 + ((s.last() as nat) - 48) as nat
    }
}

/// Every character is an ASCII digit.
pub open spec fn all_digits(s: Seq<char>) -> bool {
    forall|i: int| 0 <= i < s.len() ==> '0' <= #[trigger] s[i] && s[i] <= '9'
}

/// The integer a text denotes as Rust's integer parsing reads it: an optional `+` or
/// `-` (the latter only when `signed`), then one or more ASCII digits.
pub open spec fn int_text_value(s: Seq<char>, signed: bool) -> Option<int> {
    if s.len() > 0 && s[0] == '+' {
        let d = s.drop_first();
        if d.len() > 0 && all_digits(d) { Some(digits_value(d) as int) } else { None }
    } else if signed && s.len() > 0 && s[0] == '-' {
        let d = s.drop_first();
        if d.len() > 0 && all_digits(d) { Some(-(digits_value(d) as int)) } else { None }
    } else {
        if s.len() > 0 && all_digits(s) { Some(digits_value(s) as int) } else { None }
    }
}

/// `s.parse::<i64>()`, as an option.
pub open spec fn parse_i64_spec(s: Seq<char>) -> Option<i64> {
    match int_text_value(s, true) {
        Some(v) => if i64::MIN <= v <= i64::MAX { Some(v as i64) } else { None },
        None => None,
    }
}

/// `s.parse::<u64>()`, as an option.
pub open spec fn parse_u64_spec(s: Seq<char>) -> Option<u64> {
    match int_text_value(s, false) {
        Some(v) => if 0 <= v <= u64::MAX { Some(v as u64) } else { None },
        None => None,
    }
}

/// `s.parse::<u32>()`, as an option.
pub open spec fn parse_u32_spec(s: Seq<char>) -> Option<u32> {
    match int_text_value(s, false) {
        Some(v) => if 0 <= v <= u32::MAX { Some(v as u32) } else { None },
        None => None,
    }
}

proof fn lemma_digits_value_monotone(s: Seq<char>, k: int)
    requires
        0 <= k <= s.len(),
        all_digits(s),
    ensures
        digits_value(s.take(k)) <= digits_value(s),
    decreases s.len() - k,
{
    if k < s.len() {
        lemma_digits_value_monotone(s, k + 1);
        assert(s.take(k + 1).drop_last() =~= s.take(k));
    } else {
        assert(s.take(k) =~= s);
    }
}

/// The value of the digits `v[lo..hi]`, when it is at most `limit`.
fn digits_value_bounded(v: &Vec<char>, lo: usize, hi: usize, limit: u64) -> (r: Option<u64>)
    requires
        lo <= hi <= v.len(),
        limit >= 9,
        all_digits(v@.subrange(lo as int, hi as int)),
    ensures
        match r {
            Some(x) => x == digits_value(v@.subrange(lo as int, hi as int)) && x <= limit,
            None => digits_value(v@.subrange(lo as int, hi as int)) > limit,
        },
{
    let ghost d = v@.subrange(lo as int, hi as int);
    let mut acc: u64 = 0;
    let mut i = lo;
    while i < hi
        invariant
            lo <= i <= hi,
            hi <= v@.len(),
            d == v@.subrange(lo as int, hi as int),
            all_digits(d),
            acc == digits_value(d.take(i - lo)),
            acc <= limit,
            limit >= 9,
        decreases hi - i,
    {
        assert(d.take(i - lo + 1).drop_last() =~= d.take(i - lo));
        assert(d[i - lo] == v@[i as int]);
        assert('0' <= d[i - lo] && d[i - lo] <= '9');
        let digit = (v[i] as u32 - 48) as u64;
        if acc > (limit - digit) / 10 {
            proof {
                assert(digits_value(d.take(i - lo + 1)) == acc * 10 + digit);
                assert(acc * 10 + digit > limit) by (nonlinear_arith)
                    requires
                        acc > (limit - digit) / 10,
                        digit <= 9,
                ;
                lemma_digits_value_monotone(d, i - lo + 1);
            }
            return None;
        }
        assert(acc * 10 + digit <= limit) by (nonlinear_arith)
            requires
                acc <= (limit - digit) / 10,
                digit <= 9,
        ;
        acc = acc * 10 + digit;
        i = i + 1;
    }
    assert(d.take(hi - lo) =~= d);
    Some(acc)
}

fn all_digits_range(v: &Vec<char>, lo: usize, hi: usize) -> (b: bool)
    requires
        lo <= hi <= v.len(),
    ensures
        b == all_digits(v@.subrange(lo as int, hi as int)),
{
    let mut i = lo;
    while i < hi
        invariant
            lo <= i <= hi,
            hi <= v@.len(),
            forall|j: int| lo <= j < i ==> '0' <= v@[j] && v@[j] <= '9',
        decreases hi - i,
    {
        if !('0' <= v[i] && v[i] <= '9') {
            assert(!('0' <= v@.subrange(lo as int, hi as int)[i - lo] && v@.subrange(lo as int, hi as int)[i - lo] <= '9'));
            return false;
        }
        i = i + 1;
    }
    assert forall|j: int| 0 <= j < hi - lo implies '0' <= #[trigger] v@.subrange(lo as int, hi as int)[j]
        && v@.subrange(lo as int, hi as int)[j] <= '9' by {
        assert(v@.subrange(lo as int, hi as int)[j] == v@[lo + j]);
    }
    true
}

/// Parses the unsigned number `v[lo..hi]` (an optional `+`, then digits) up to `limit`.
fn parse_unsigned_range(v: &Vec<char>, lo: usize, hi: usize, limit: u64) -> (r: Option<u64>)
    requires
        lo <= hi <= v.len(),
        limit >= 9,
    ensures
        match int_text_value(v@.subrange(lo as int, hi as int), false) {
            Some(x) => if x <= limit { r == Some(x as u64) } else { r is None },
            None => r is None,
        },
{
    let ghost s = v@.subrange(lo as int, hi as int);
    let mut start = lo;
    if lo < hi && v[lo] == '+' {
        start = lo + 1;
        assert(s.drop_first() =~= v@.subrange(start as int, hi as int));
    } else {
        assert(s =~= v@.subrange(start as int, hi as int));
    }
    if start == hi || !all_digits_range(v, start, hi) {
        return None;
    }
    digits_value_bounded(v, start, hi, limit)
}

/// Parses `v[lo..hi]` as a `u64`.
pub fn parse_u64_range(v: &Vec<char>, lo: usize, hi: usize) -> (r: Option<u64>)
    requires
        lo <= hi <= v.len(),
    ensures
        r == parse_u64_spec(v@.subrange(lo as int, hi as int)),
{
    parse_unsigned_range(v, lo, hi, u64::MAX)
}

/// Parses `v[lo..hi]` as a `u32`.
pub fn parse_u32_range(v: &Vec<char>, lo: usize, hi: usize) -> (r: Option<u32>)
    requires
        lo <= hi <= v.len(),
    ensures
        r == parse_u32_spec(v@.subrange(lo as int, hi as int)),
{
    match parse_unsigned_range(v, lo, hi, 0xffff_ffff) {
        Some(x) => Some(x as u32),
        None => None,
    }
}

/// Parses `v[lo..hi]` as an `i64`.
pub fn parse_i64_range(v: &Vec<char>, lo: usize, hi: usize) -> (r: Option<i64>)
    requires
        lo <= hi <= v.len(),
    ensures
        r == parse_i64_spec(v@.subrange(lo as int, hi as int)),
{
    let ghost s = v@.subrange(lo as int, hi as int);
    if lo < hi && v[lo] == '-' {
        let start = lo + 1;
        assert(s.drop_first() =~= v@.subrange(start as int, hi as int));
        if start == hi || !all_digits_range(v, start, hi) {
            return None;
        }
        match digits_value_bounded(v, start, hi, 0x8000_0000_0000_0000) {
            Some(x) => {
                if x == 0x8000_0000_0000_0000 {
                    Some(i64::MIN)
                } else {
                    Some(-(x as i64))
                }
            },
            None => None,
        }
    } else {
        match parse_unsigned_range(v, lo, hi, 0x7fff_ffff_ffff_ffff) {
            Some(x) => Some(x as i64),
            None => None,
        }
    }
}

/// The bounds of each line of `v`, as `str::lines` splits it.
pub fn line_bounds(v: &Vec<char>) -> (r: Vec<(usize, usize)>)
    ensures
        forall|k: int| 0 <= k < r@.len() ==> (#[trigger] r@[k]).0 <= r@[k].1 <= v@.len(),
        r@.map_values(|b: (usize, usize)| v@.subrange(b.0 as int, b.1 as int)) == lines_spec(v@),
{
    let mut r: Vec<(usize, usize)> = Vec::new();
    let mut pos: usize = 0;
    assert(v@.skip(0) =~= v@);
    assert(r@.map_values(|b: (usize, usize)| v@.subrange(b.0 as int, b.1 as int)) + lines_spec(v@)
        =~= lines_spec(v@));
    while pos < v.len()
        invariant
            pos <= v@.len(),
            forall|k: int| 0 <= k < r@.len() ==> (#[trigger] r@[k]).0 <= r@[k].1 <= v@.len(),
            lines_spec(v@) == r@.map_values(|b: (usize, usize)| v@.subrange(b.0 as int, b.1 as int))
                + lines_spec(v@.skip(pos as int)),
        decreases v@.len() - pos,
    {
        let ghost rest = v@.skip(pos as int);
        proof {
            lemma_first_newline(rest);
        }
        let mut e = pos;
        while e < v.len() && v[e] != '\n'
            invariant
                pos <= e <= v@.len(),
                rest == v@.skip(pos as int),
                forall|j: int| pos <= j < e ==> v@[j] != '\n',
            decreases v@.len() - e,
        {
            e = e + 1;
        }
        proof {
            assert(first_newline(rest) == e - pos) by {
                lemma_first_newline(rest);
                let f = first_newline(rest);
                if f < e - pos {
                    assert(rest[f] == v@[pos + f]);
                } else if f > e - pos {
                    assert(rest[e - pos] == v@[e as int]);
                }
            }
        }
        let ghost old_view = r@.map_values(|b: (usize, usize)| v@.subrange(b.0 as int, b.1 as int));
        if e < v.len() {
            let end = if e > pos && v[e - 1] == '\r' { e - 1 } else { e };
            r.push((pos, end));
            proof {
                assert(strip_cr(rest.take(e - pos)) =~= v@.subrange(pos as int, end as int));
                assert(rest.skip(e - pos + 1) =~= v@.skip(e + 1));
                assert(r@.map_values(|b: (usize, usize)| v@.subrange(b.0 as int, b.1 as int)) =~= old_view.push(
                    v@.subrange(pos as int, end as int),
                ));
            }
            pos = e + 1;
        } else {
            r.push((pos, e));
            proof {
                assert(rest =~= v@.subrange(pos as int, e as int));
                assert(v@.skip(e as int) =~= Seq::<char>::empty());
                assert(r@.map_values(|b: (usize, usize)| v@.subrange(b.0 as int, b.1 as int)) =~= old_view.push(
                    v@.subrange(pos as int, e as int),
                ));
            }
            pos = e;
        }
    }
    assert(v@.skip(pos as int) =~= Seq::<char>::empty());
    r
}

/// `p` occurs in `s` at character position `i`.
pub open spec fn chars_at(s: Seq<char>, p: Seq<char>, i: int) -> bool {
    0 <= i && i + p.len() <= s.len() && s.subrange(i, i + p.len()) == p
}

/// Character position of the first occurrence of `p` in `s` (`str::find` for a pattern
/// whose characters are all ASCII).
pub open spec fn chars_find(s: Seq<char>, p: Seq<char>) -> Option<int> {
    if exists|i: int| chars_at(s, p, i) {
        Some(choose|i: int| chars_at(s, p, i) && forall|j: int| 0 <= j < i ==> !chars_at(s, p, j))
    } else {
        None
    }
}

/// `p` occurs in `s`.
pub open spec fn chars_contains(s: Seq<char>, p: Seq<char>) -> bool {
    exists|i: int| chars_at(s, p, i)
}

fn chars_match_at(v: &Vec<char>, lo: usize, hi: usize, p: &Vec<char>, i: usize) -> (b: bool)
    requires
        lo <= i <= hi <= v.len(),
    ensures
        b == chars_at(v@.subrange(lo as int, hi as int), p@, i - lo),
{
    if p.len() > hi - i {
        return false;
    }
    let mut k: usize = 0;
    while k < p.len()
        invariant
            lo <= i <= hi <= v@.len(),
            i + p@.len() <= hi,
            k <= p@.len(),
            forall|m: int| 0 <= m < k ==> v@[i + m] == p@[m],
        decreases p@.len() - k,
    {
        if v[i + k] != p[k] {
            assert(v@.subrange(lo as int, hi as int).subrange(i - lo, i - lo + p@.len())[k as int] != p@[k as int]);
            return false;
        }
        k = k + 1;
    }
    assert(v@.subrange(lo as int, hi as int).subrange(i - lo, i - lo + p@.len()) =~= p@);
    true
}

/// First occurrence of `p` in `v[lo..hi]`, as a position relative to `lo`.
pub fn find_in_range(v: &Vec<char>, lo: usize, hi: usize, p: &str) -> (r: Option<usize>)
    requires
        lo <= hi <= v.len(),
    ensures
        match r {
            Some(i) => chars_find(v@.subrange(lo as int, hi as int), p@) == Some(i as int),
            None => chars_find(v@.subrange(lo as int, hi as int), p@) is None,
        },
{
    let pv = chars_of(p);
    let ghost s = v@.subrange(lo as int, hi as int);
    let mut i = lo;
    while i <= hi
        invariant
            lo <= i <= hi + 1,
            hi <= v@.len(),
            s == v@.subrange(lo as int, hi as int),
            pv@ == p@,
            forall|j: int| 0 <= j < i - lo ==> !chars_at(s, p@, j),
        decreases hi + 1 - i,
    {
        if chars_match_at(v, lo, hi, &pv, i) {
            proof {
                let c = choose|c: int| chars_at(s, p@, c) && forall|j: int| 0 <= j < c ==> !chars_at(s, p@, j);
                assert(c == i - lo) by {
                    if c < i - lo {
                    } else if c > i - lo {
                        assert(!chars_at(s, p@, i - lo));
                    }
                }
            }
            return Some(i - lo);
        }
        if i == hi {
            proof {
                assert forall|j: int| !chars_at(s, p@, j) by {
                    if 0 <= j && j < i - lo + 1 {
                    }
                }
            }
            return None;
        }
        i = i + 1;
    }
    proof {
        assert forall|j: int| !chars_at(s, p@, j) by {
            if 0 <= j && j <= hi - lo {
            }
        }
    }
    None
}

/// Whether `p` occurs in `v[lo..hi]`.
pub fn contains_in_range(v: &Vec<char>, lo: usize, hi: usize, p: &str) -> (b: bool)
    requires
        lo <= hi <= v.len(),
    ensures
        b == chars_contains(v@.subrange(lo as int, hi as int), p@),
{
    find_in_range(v, lo, hi, p).is_some()
}

/// Position of the first `c` in `s`, or its length when there is none.
pub open spec fn first_of(s: Seq<char>, c: char) -> int
    decreases s.len(),
{
    if s.len() == 0 {
        0
    } else if s[0] == c {
        0
    } else {
        1 + first_of(s.drop_first(), c)
    }
}

pub proof fn lemma_first_of(s: Seq<char>, c: char)
    ensures
        0 <= first_of(s, c) <= s.len(),
        forall|j: int| 0 <= j < first_of(s, c) ==> s[j] != c,
        first_of(s, c) < s.len() ==> s[first_of(s, c)] == c,
    decreases s.len(),
{
    if s.len() > 0 && s[0] != c {
        lemma_first_of(s.drop_first(), c);
        assert forall|j: int| 0 <= j < first_of(s, c) implies s[j] != c by {
            if j > 0 {
                assert(s[j] == s.drop_first()[j - 1]);
            }
        }
    }
}

/// Position (relative to `lo`) of the first `c` in `v[lo..hi]`, or `hi - lo`.
pub fn first_of_range(v: &Vec<char>, lo: usize, hi: usize, c: char) -> (r: usize)
    requires
        lo <= hi <= v.len(),
    ensures
        r == first_of(v@.subrange(lo as int, hi as int), c),
        r <= hi - lo,
{
    let ghost s = v@.subrange(lo as int, hi as int);
    proof {
        lemma_first_of(s, c);
    }
    let mut i = lo;
    while i < hi && v[i] != c
        invariant
            lo <= i <= hi,
            hi <= v@.len(),
            s == v@.subrange(lo as int, hi as int),
            forall|j: int| lo <= j < i ==> v@[j] != c,
        decreases hi - i,
    {
        i = i + 1;
    }
    proof {
        let f = first_of(s, c);
        if f < i - lo {
            assert(s[f] == v@[lo + f]);
        } else if f > i - lo {
            assert(s[i - lo] == v@[i as int]);
        }
    }
    i - lo
}

proof fn lemma_first_occurrence_exists(s: Seq<char>, p: Seq<char>, i: int)
    requires
        chars_at(s, p, i),
    ensures
        exists|m: int| chars_at(s, p, m) && forall|j: int| 0 <= j < m ==> !chars_at(s, p, j),
    decreases i,
{
    if exists|j: int| 0 <= j < i && chars_at(s, p, j) {
        let j = choose|j: int| 0 <= j < i && chars_at(s, p, j);
        lemma_first_occurrence_exists(s, p, j);
    } else {
        assert(forall|j: int| 0 <= j < i ==> !chars_at(s, p, j));
    }
}

/// The position `chars_find` gives is the first occurrence.
pub proof fn lemma_chars_find_at(s: Seq<char>, p: Seq<char>)
    ensures
        match chars_find(s, p) {
            Some(i) => chars_at(s, p, i) && forall|j: int| 0 <= j < i ==> !chars_at(s, p, j),
            None => forall|j: int| !chars_at(s, p, j),
        },
{
    if exists|i: int| chars_at(s, p, i) {
        let i = choose|i: int| chars_at(s, p, i);
        lemma_first_occurrence_exists(s, p, i);
    }
}

} // verus!
