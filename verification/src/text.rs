//! Text primitives shared by the formatting and parsing code.

use vstd::prelude::*;
use vstd::string::*;
use vstd::utf8::*;

verus! {

/// The character for a decimal digit value.
pub open spec fn digit_char(d: nat) -> char
    recommends
        d < 10,
{
    ((48 + d) as u32) as char
}

/// The decimal rendering of a natural number, most significant digit first.
pub open spec fn decimal(n: nat) -> Seq<char>
    decreases n,
{
    if n < 10 {
        seq![digit_char(n)]
    } else {
        decimal(n / 10).push(digit_char(n % 10))
    }
}

/// Unicode lower-casing of a string, as `str::to_lowercase` computes it.
pub uninterp spec fn lowercase(s: Seq<char>) -> Seq<char>;

/// ASCII upper-case letters mapped to lower case; every other character kept.
pub open spec fn ascii_lower(c: char) -> char {
    if 'A' <= c && c <= 'Z' {
        ((c as u32) + 32) as char
    } else {
        c
    }
}

/// Every character of the text is ASCII.
pub open spec fn is_ascii_text(s: Seq<char>) -> bool {
    forall|i: int| 0 <= i < s.len() ==> (s[i] as u32) < 128
}

/// The text with its ASCII upper-case letters lower-cased.
pub open spec fn ascii_lowercase(s: Seq<char>) -> Seq<char> {
    s.map_values(|c: char| ascii_lower(c))
}

/// Lower-cases a string (`str::to_lowercase`); the result is named by [`lowercase`]. On
/// ASCII text only the letters `A`-`Z` change, each to its lower-case letter, as the
/// Unicode lower-case mapping does for the ASCII range.
#[verifier::external_body]
pub(crate) fn to_lowercase(s: &str) -> (r: String)
    ensures
        r@ == lowercase(s@),
        is_ascii_text(s@) ==> r@ == ascii_lowercase(s@),
{
    s.to_lowercase()
}

/// `p` occurs in `h` starting at byte offset `i`.
pub open spec fn occurs_at(h: Seq<u8>, p: Seq<u8>, i: int) -> bool {
    0 <= i && i + p.len() <= h.len() && h.subrange(i, i + p.len()) == p
}

/// `p` occurs somewhere in `h`.
pub open spec fn occurs_in(h: Seq<u8>, p: Seq<u8>) -> bool {
    exists|i: int| occurs_at(h, p, i)
}

/// `i` is the leftmost offset at which `p` occurs in `h`.
pub open spec fn is_first_occurrence(h: Seq<u8>, p: Seq<u8>, i: int) -> bool {
    occurs_at(h, p, i) && forall|j: int| 0 <= j < i ==> !occurs_at(h, p, j)
}

/// Byte offset of the leftmost occurrence of `p` in the UTF-8 encoding of `h`
/// (what `str::find` returns for a string pattern).
pub open spec fn find_spec(h: Seq<char>, p: Seq<char>) -> Option<int> {
    if occurs_in(encode_utf8(h), encode_utf8(p)) {
        Some(choose|i: int| is_first_occurrence(encode_utf8(h), encode_utf8(p), i))
    } else {
        None
    }
}

/// `p` is a substring of `h` (`str::contains`).
pub open spec fn contains_spec(h: Seq<char>, p: Seq<char>) -> bool {
    occurs_in(encode_utf8(h), encode_utf8(p))
}

/// `h` ends with `p` (`str::ends_with`).
pub open spec fn ends_with_spec(h: Seq<char>, p: Seq<char>) -> bool {
    let hb = encode_utf8(h);
    let pb = encode_utf8(p);
    pb.len() <= hb.len() && hb.subrange(hb.len() - pb.len(), hb.len() as int) == pb
}

/// The leftmost occurrence is unique.
pub proof fn lemma_first_occurrence_unique(h: Seq<u8>, p: Seq<u8>, i: int, j: int)
    requires
        is_first_occurrence(h, p, i),
        is_first_occurrence(h, p, j),
    ensures
        i == j,
{
    if i < j {
        assert(!occurs_at(h, p, i));
    } else if j < i {
        assert(!occurs_at(h, p, j));
    }
}

/// Whether `p` occurs in `h` at offset `i`.
pub fn bytes_match_at(h: &[u8], p: &[u8], i: usize) -> (r: bool)
    ensures
        r == occurs_at(h@, p@, i as int),
{
    if i > h.len() || p.len() > h.len() - i {
        return false;
    }
    let mut k: usize = 0;
    while k < p.len()
        invariant
            i + p@.len() <= h@.len(),
            h@.len() <= usize::MAX,
            k <= p@.len(),
            forall|m: int| 0 <= m < k ==> h@[i + m] == p@[m],
        decreases p@.len() - k,
    {
        if h[i + k] != p[k] {
            assert(h@.subrange(i as int, i + p@.len())[k as int] != p@[k as int]);
            return false;
        }
        k = k + 1;
    }
    assert(h@.subrange(i as int, i + p@.len()) =~= p@);
    true
}

/// Leftmost byte offset of `p` in `h`.
pub fn find_bytes(h: &[u8], p: &[u8]) -> (r: Option<usize>)
    ensures
        match r {
            Some(i) => is_first_occurrence(h@, p@, i as int),
            None => !occurs_in(h@, p@),
        },
{
    if p.len() > h.len() {
        return None;
    }
    let last = h.len() - p.len();
    let mut i: usize = 0;
    loop
        invariant
            last == h@.len() - p@.len(),
            i <= last,
            forall|j: int| 0 <= j < i ==> !occurs_at(h@, p@, j),
        decreases last - i,
    {
        if bytes_match_at(h, p, i) {
            return Some(i);
        }
        if i == last {
            assert forall|j: int| #![trigger occurs_at(h@, p@, j)] occurs_at(h@, p@, j) implies false by {
                assert(0 <= j <= last);
            }
            return None;
        }
        i = i + 1;
    }
}

/// Leftmost byte offset of `p` in `h` (`str::find`).
pub fn str_find(h: &str, p: &str) -> (r: Option<usize>)
    ensures
        match r {
            Some(i) => find_spec(h@, p@) == Some(i as int),
            None => find_spec(h@, p@) is None,
        },
{
    let r = find_bytes(h.as_bytes(), p.as_bytes());
    proof {
        if let Some(i) = r {
            let w = choose|k: int| is_first_occurrence(encode_utf8(h@), encode_utf8(p@), k);
            lemma_first_occurrence_unique(encode_utf8(h@), encode_utf8(p@), i as int, w);
        }
    }
    r
}

/// Whether `p` is a substring of `h` (`str::contains`).
pub fn str_contains(h: &str, p: &str) -> (r: bool)
    ensures
        r == contains_spec(h@, p@),
{
    find_bytes(h.as_bytes(), p.as_bytes()).is_some()
}

/// Whether `h` ends with `p` (`str::ends_with`).
pub fn str_ends_with(h: &str, p: &str) -> (r: bool)
    ensures
        r == ends_with_spec(h@, p@),
{
    let hb = h.as_bytes();
    let pb = p.as_bytes();
    if pb.len() > hb.len() {
        return false;
    }
    let r = bytes_match_at(hb, pb, hb.len() - pb.len());
    r
}

/// Appends one character to a string (`String::push`).
#[verifier::external_body]
pub(crate) fn push_char(s: &mut String, c: char)
    ensures
        final(s)@ == old(s)@.push(c),
{
    s.push(c);
}

/// The decimal digit character for `d`.
pub fn digit_to_char(d: u64) -> (c: char)
    requires
        d < 10,
    ensures
        c == digit_char(d as nat),
{
    let b: u8 = (d as u8) + 48;
    b as char
}

/// Appends the decimal rendering of `n` to `s`.
pub fn append_decimal(s: &mut String, n: u64)
    ensures
        final(s)@ == old(s)@ + decimal(n as nat),
    decreases n,
{
    if n >= 10 {
        append_decimal(s, n / 10);
    }
    push_char(s, digit_to_char(n % 10));
    proof {
        assert(decimal(n as nat) == if n < 10 { seq![digit_char(n as nat)] } else {
            decimal((n / 10) as nat).push(digit_char((n % 10) as nat))
        });
    }
}

/// The decimal rendering of `n` (`n.to_string()`).
pub fn u64_to_decimal(n: u64) -> (r: String)
    ensures
        r@ == decimal(n as nat),
{
    let mut s = String::new();
    append_decimal(&mut s, n);
    s
}

/// The characters of a string slice, in order.
pub fn chars_of(s: &str) -> (v: Vec<char>)
    ensures
        v@ == s@,
{
    let mut v: Vec<char> = Vec::new();
    for c in it: s.chars()
        invariant
            v@ == it.seq().take(it.index() as int),
    {
        v.push(c);
    }
    v
}

/// Whether two strings are equal, character by character.
pub fn str_eq(a: &str, b: &str) -> (r: bool)
    ensures
        r == (a@ == b@),
{
    let x = chars_of(a);
    let y = chars_of(b);
    if x.len() != y.len() {
        return false;
    }
    let mut i: usize = 0;
    while i < x.len()
        invariant
            x@ == a@,
            y@ == b@,
            x@.len() == y@.len(),
            i <= x@.len(),
            forall|j: int| 0 <= j < i ==> x@[j] == y@[j],
        decreases x@.len() - i,
    {
        if x[i] != y[i] {
            return false;
        }
        i = i + 1;
    }
    assert(x@ =~= y@);
    true
}

/// `n / d` rounded to the nearest integer, ties to the even neighbour.
pub open spec fn round_half_even(n: nat, d: nat) -> nat
    recommends
        d > 0,
{
    let q = n / d;
    let r = n % d;
    if 2 * r < d {
        q
    } else if 2 * r > d {
        q + 1
    } else if q % 2 == 0 {
        q
    } else {
        q + 1
    }
}

/// Ten to the power `k`.
pub open spec fn pow10(k: nat) -> nat
    decreases k,
{
    if k == 0 {
        1
    } else {
        10 * pow10((k - 1) as nat)
    }
}

/// `s` padded on the left with `0` to at least `k` characters.
pub open spec fn zero_pad(s: Seq<char>, k: nat) -> Seq<char> {
    if s.len() < k {
        Seq::new((k - s.len()) as nat, |_i: int| '0') + s
    } else {
        s
    }
}

/// The decimal text of `m / 10^k` with exactly `k` digits after the point.
pub open spec fn fixed_text(m: nat, k: nat) -> Seq<char> {
    if k == 0 {
        decimal(m)
    } else {
        decimal(m / pow10(k)) + "."@ + zero_pad(decimal(m % pow10(k)), k)
    }
}

/// The text of `n / d` with `k` decimals, rounded half to even: what `{:.k}` prints
/// for the quotient when it is computed exactly.
pub open spec fn fixed_quotient_text(n: nat, d: nat, k: nat) -> Seq<char> {
    fixed_text(round_half_even(n * pow10(k), d), k)
}

fn round_half_even_exec(n: u128, d: u128) -> (r: u128)
    requires
        d > 0,
        n < 0x1_0000_0000_0000_0000_0000_0000,
    ensures
        r == round_half_even(n as nat, d as nat),
{
    let q = n / d;
    let r = n % d;
    if r < d - r {
        q
    } else if r > d - r {
        q + 1
    } else if q % 2 == 0 {
        q
    } else {
        q + 1
    }
}

/// Appends `v` in decimal, padded on the left with `0` to at least `k` digits.
fn append_zero_padded(s: &mut String, v: u64, k: u64)
    requires
        k <= 2,
    ensures
        final(s)@ == old(s)@ + zero_pad(decimal(v as nat), k as nat),
{
    let ghost dv = decimal(v as nat);
    proof {
        lemma_decimal_len_small(v as nat);
    }
    if k == 2 && v < 10 {
        push_char(s, '0');
        append_decimal(s, v);
        assert(zero_pad(dv, 2) =~= seq!['0'] + dv);
    } else {
        append_decimal(s, v);
        assert(zero_pad(dv, k as nat) =~= dv);
    }
}

proof fn lemma_decimal_len_small(v: nat)
    ensures
        v < 10 ==> decimal(v).len() == 1,
        v >= 10 ==> decimal(v).len() >= 2,
{
    if v >= 10 {
        assert(decimal(v) == decimal(v / 10).push(digit_char(v % 10)));
        assert(decimal(v / 10).len() >= 1) by {
            lemma_decimal_nonempty(v / 10);
        }
    }
}

proof fn lemma_decimal_nonempty(v: nat)
    ensures
        decimal(v).len() >= 1,
    decreases v,
{
    if v >= 10 {
        lemma_decimal_nonempty(v / 10);
    }
}

/// `n / d` with `k` (at most 2) decimals, rounded half to even.
pub fn format_fixed_quotient(n: u64, d: u64, k: u64) -> (s: String)
    requires
        d > 0,
        k <= 2,
    ensures
        s@ == fixed_quotient_text(n as nat, d as nat, k as nat),
{
    let scale: u128 = if k == 0 { 1 } else if k == 1 { 10 } else { 100 };
    assert(scale == pow10(k as nat)) by {
        reveal_with_fuel(pow10, 3);
    }
    assert((n as u128) * scale < 0x1_0000_0000_0000_0000_0000_0000) by (nonlinear_arith)
        requires
            n < 0x1_0000_0000_0000_0000,
            scale <= 100,
    ;
    let m = round_half_even_exec((n as u128) * scale, d as u128);
    assert(m <= (n as u128) * scale + 1) by (nonlinear_arith)
        requires
            m == round_half_even(((n as u128) * scale) as nat, d as nat),
            d > 0,
    {
    }
    let mut s = String::new();
    if k == 0 {
        assert(m < 0x1_0000_0000_0000_0000) by (nonlinear_arith)
            requires
                m <= n * 1 + 1,
                scale == 1,
                n < 0x1_0000_0000_0000_0000,
                m == round_half_even((n * scale) as nat, d as nat),
                d > 0,
        {
            assert(n * scale / (d as int) <= n);
        }
        append_decimal(&mut s, m as u64);
    } else {
        let whole = m / scale;
        let frac = m % scale;
        assert(whole < 0x1_0000_0000_0000_0000) by (nonlinear_arith)
            requires
                m <= n * scale + 1,
                scale >= 10,
                n < 0x1_0000_0000_0000_0000,
                whole == m / scale,
        {
        }
        append_decimal(&mut s, whole as u64);
        push_char(&mut s, '.');
        append_zero_padded(&mut s, frac as u64, k);
        proof {
            reveal_strlit(".");
            assert(whole as nat == (m as nat) / pow10(k as nat));
            assert(frac as nat == (m as nat) % pow10(k as nat));
        }
        assert(s@ =~= fixed_text(m as nat, k as nat));
    }
    s
}

/// Two to the power `k`.
pub open spec fn pow2n(k: nat) -> nat
    decreases k,
{
    if k == 0 {
        1
    } else {
        2 * pow2n((k - 1) as nat)
    }
}

/// The exponent of the spacing of doubles around `n` (below 2^64), searching from `e`:
/// the least `e` (at most 11) with `n < 2^(53 + e)`.
pub open spec fn double_exp(n: nat, e: nat) -> nat
    decreases 11 - e,
{
    if e >= 11 || n < pow2n(53 + e) {
        e
    } else {
        double_exp(n, e + 1)
    }
}

/// The value of `n as f64` for an `n` below 2^64: the nearest double, ties to the one
/// with an even significand (Rust's integer-to-float conversion).
pub open spec fn double_value(n: nat) -> nat {
    let u = pow2n(double_exp(n, 0));
    round_half_even(n, u) * u
}

proof fn lemma_pow2n_mono(e: nat, k: nat)
    requires
        e <= k,
    ensures
        pow2n(e) <= pow2n(k),
    decreases k,
{
    if e < k {
        lemma_pow2n_mono(e, (k - 1) as nat);
    }
}

fn double_value_exec(n: u64) -> (r: u128)
    ensures
        r == double_value(n as nat),
        r <= 0x1_0000_0000_0000_0000,
        n < 0x20_0000_0000_0000 ==> r == n,
        n >= 0x20_0000_0000_0000 ==> r % 2 == 0,
{
    let mut e: u64 = 0;
    let mut u: u128 = 1;
    let mut p: u128 = 0x20_0000_0000_0000;
    assert(pow2n(53) == 0x20_0000_0000_0000) by {
        reveal_with_fuel(pow2n, 54);
    }
    assert(pow2n(0) == 1);
    while e < 11 && (n as u128) >= p
        invariant
            e <= 11,
            u == pow2n(e as nat),
            p == pow2n(53 + e as nat),
            p == 0x20_0000_0000_0000 * u,
            e > 0 ==> u % 2 == 0,
            e > 0 ==> n >= 0x20_0000_0000_0000,
            double_exp(n as nat, 0) == double_exp(n as nat, e as nat),
        decreases 11 - e,
    {
        assert(double_exp(n as nat, e as nat) == double_exp(n as nat, (e + 1) as nat));
        assert(pow2n((e + 1) as nat) == 2 * pow2n(e as nat));
        assert(pow2n(53 + (e + 1) as nat) == 2 * pow2n(53 + e as nat));
        e = e + 1;
        u = u * 2;
        p = p * 2;
    }
    assert(double_exp(n as nat, e as nat) == e as nat);
    assert(pow2n(11) == 0x800) by {
        reveal_with_fuel(pow2n, 12);
    }
    proof {
        lemma_pow2n_mono(e as nat, 11);
    }
    assert(u <= 0x800);
    assert(n < p) by {
        if e == 11 {
            assert(p == 0x20_0000_0000_0000 * 0x800);
        }
    }
    let q = round_half_even_exec(n as u128, u);
    assert(q <= 0x20_0000_0000_0000) by (nonlinear_arith)
        requires
            q == round_half_even(n as nat, u as nat),
            u >= 1,
            n < 0x20_0000_0000_0000 * u,
    {
        assert((n as int) / (u as int) < 0x20_0000_0000_0000);
    }
    assert(q * u <= 0x1_0000_0000_0000_0000) by (nonlinear_arith)
        requires
            q <= 0x20_0000_0000_0000,
            u <= 0x800,
    ;
    let r = q * u;
    proof {
        if n < 0x20_0000_0000_0000 {
            assert(e == 0);
            assert(round_half_even(n as nat, 1) == n);
        } else {
            assert(e > 0);
            let w = u / 2;
            assert(q * u == 2 * (q * w)) by (nonlinear_arith)
                requires
                    u == 2 * w,
            ;
        }
    }
    r
}

proof fn lemma_fixed_quotient_halves(a: nat, c: nat, k: nat)
    requires
        c > 0,
    ensures
        fixed_quotient_text(2 * a, 2 * c, k) == fixed_quotient_text(a, c, k),
{
    let x = a * pow10(k);
    assert((2 * a) * pow10(k) == 2 * (a * pow10(k))) by (nonlinear_arith);
    let q = x / c;
    let r = x % c;
    assert(x == q * c + r && 0 <= r < c) by (nonlinear_arith)
        requires
            c > 0,
            q == x / c,
            r == x % c,
    ;
    assert(2 * x == q * (2 * c) + 2 * r) by (nonlinear_arith)
        requires
            x == q * c + r,
    ;
    vstd::arithmetic::div_mod::lemma_fundamental_div_mod_converse(
        (2 * x) as int,
        (2 * c) as int,
        q as int,
        (2 * r) as int,
    );
}

/// What `format!("{:.k}", n as f64 / d as f64)` prints for an even `d` (at least 2,
/// such as a power of two): the double nearest `n`, divided by `d`, with `k` (at most 2)
/// decimals rounded half to even.
pub fn format_double_quotient(n: u64, d: u64, k: u64) -> (s: String)
    requires
        d >= 2,
        d % 2 == 0,
        k <= 2,
    ensures
        s@ == fixed_quotient_text(double_value(n as nat), d as nat, k as nat),
{
    let r = double_value_exec(n);
    if n < 0x20_0000_0000_0000 {
        format_fixed_quotient(n, d, k)
    } else {
        let h = (r / 2) as u64;
        let c = d / 2;
        proof {
            assert(r == 2 * h);
            assert(d == 2 * c);
            lemma_fixed_quotient_halves(h as nat, c as nat, k as nat);
        }
        format_fixed_quotient(h, c, k)
    }
}

} // verus!
