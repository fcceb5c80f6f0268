//! Name handling for iTerm2 colour schemes: dark/light variant detection,
//! counterpart lookup and the filters applied to the scheme listing.

use vstd::prelude::*;
use vstd::string::*;
use vstd::utf8::*;
use crate::sorting::{sort_strings, str_leq, views};
use crate::text::{
    chars_of, push_char,
    contains_spec, ends_with_spec, find_spec, lowercase, str_contains, str_ends_with, str_find,
    to_lowercase,
};

verus! {

broadcast use vstd::utf8::encode_utf8_valid_utf8, vstd::utf8::encode_utf8_decode_utf8;

/// Number of known dark/light pairs.
pub const VARIANT_PAIR_COUNT: usize = 60;

/// The known (dark, light) scheme-name pairs, in table order.
pub open spec fn variant_pair_spec(i: int) -> (Seq<char>, Seq<char>) {
    if i == 0 {
        ("3024 Night"@, "3024 Day"@)
    } else if i == 1 {
        ("Aizen Dark"@, "Aizen Light"@)
    } else if i == 2 {
        ("Atom One Dark"@, "Atom One Light"@)
    } else if i == 3 {
        ("Belafonte Night"@, "Belafonte Day"@)
    } else if i == 4 {
        ("Bluloco Dark"@, "Bluloco Light"@)
    } else if i == 5 {
        ("Builtin Dark"@, "Builtin Light"@)
    } else if i == 6 {
        ("Builtin Tango Dark"@, "Builtin Tango Light"@)
    } else if i == 7 {
        ("Farmhouse Dark"@, "Farmhouse Light"@)
    } else if i == 8 {
        ("Flexoki Dark"@, "Flexoki Light"@)
    } else if i == 9 {
        ("GitHub Dark"@, "GitHub"@)
    } else if i == 10 {
        ("GitHub Dark Colorblind"@, "GitHub Light Colorblind"@)
    } else if i == 11 {
        ("GitHub Dark Default"@, "GitHub Light Default"@)
    } else if i == 12 {
        ("GitHub Dark High Contrast"@, "GitHub Light High Contrast"@)
    } else if i == 13 {
        ("GitLab Dark"@, "GitLab Light"@)
    } else if i == 14 {
        ("Gruvbox Dark"@, "Gruvbox Light"@)
    } else if i == 15 {
        ("Gruvbox Dark Hard"@, "Gruvbox Light Hard"@)
    } else if i == 16 {
        ("Gruvbox Material Dark"@, "Gruvbox Material Light"@)
    } else if i == 17 {
        ("Iceberg Dark"@, "Iceberg Light"@)
    } else if i == 18 {
        ("Melange Dark"@, "Melange Light"@)
    } else if i == 19 {
        ("Neobones Dark"@, "Neobones Light"@)
    } else if i == 20 {
        ("Nvim Dark"@, "Nvim Light"@)
    } else if i == 21 {
        ("One Double Dark"@, "One Double Light"@)
    } else if i == 22 {
        ("One Half Dark"@, "One Half Light"@)
    } else if i == 23 {
        ("Pencil Dark"@, "Pencil Light"@)
    } else if i == 24 {
        ("Raycast Dark"@, "Raycast Light"@)
    } else if i == 25 {
        ("Selenized Dark"@, "Selenized Light"@)
    } else if i == 26 {
        ("Seoulbones Dark"@, "Seoulbones Light"@)
    } else if i == 27 {
        ("Tinacious Design Dark"@, "Tinacious Design Light"@)
    } else if i == 28 {
        ("Violet Dark"@, "Violet Light"@)
    } else if i == 29 {
        ("Xcode Dark"@, "Xcode Light"@)
    } else if i == 30 {
        ("Xcode Dark hc"@, "Xcode Light hc"@)
    } else if i == 31 {
        ("Zenbones Dark"@, "Zenbones Light"@)
    } else if i == 32 {
        ("Zenwritten Dark"@, "Zenwritten Light"@)
    } else if i == 33 {
        ("iTerm2 Dark Background"@, "iTerm2 Light Background"@)
    } else if i == 34 {
        ("iTerm2 Solarized Dark"@, "iTerm2 Solarized Light"@)
    } else if i == 35 {
        ("iTerm2 Tango Dark"@, "iTerm2 Tango Light"@)
    } else if i == 36 {
        ("Adwaita Dark"@, "Adwaita"@)
    } else if i == 37 {
        ("Night Owl"@, "Light Owl"@)
    } else if i == 38 {
        ("Nord"@, "Nord Light"@)
    } else if i == 39 {
        ("Onenord"@, "Onenord Light"@)
    } else if i == 40 {
        ("Pro"@, "Pro Light"@)
    } else if i == 41 {
        ("Terminal Basic Dark"@, "Terminal Basic"@)
    } else if i == 42 {
        ("No Clown Fiesta"@, "No Clown Fiesta Light"@)
    } else if i == 43 {
        ("Rose Pine Moon"@, "Rose Pine Dawn"@)
    } else if i == 44 {
        ("Rose Pine"@, "Rose Pine Dawn"@)
    } else if i == 45 {
        ("TokyoNight Night"@, "TokyoNight Day"@)
    } else if i == 46 {
        ("TokyoNight Moon"@, "TokyoNight Day"@)
    } else if i == 47 {
        ("TokyoNight Storm"@, "TokyoNight Day"@)
    } else if i == 48 {
        ("TokyoNight"@, "TokyoNight Day"@)
    } else if i == 49 {
        ("Ayu"@, "Ayu Light"@)
    } else if i == 50 {
        ("Ayu Mirage"@, "Ayu Light"@)
    } else if i == 51 {
        ("Everforest Dark Hard"@, "Everforest Light Med"@)
    } else if i == 52 {
        ("Tomorrow Night"@, "Tomorrow"@)
    } else if i == 53 {
        ("Tomorrow Night Blue"@, "Tomorrow"@)
    } else if i == 54 {
        ("Tomorrow Night Bright"@, "Tomorrow"@)
    } else if i == 55 {
        ("Tomorrow Night Burns"@, "Tomorrow"@)
    } else if i == 56 {
        ("Tomorrow Night Eighties"@, "Tomorrow"@)
    } else if i == 57 {
        ("Catppuccin Frappe"@, "Catppuccin Latte"@)
    } else if i == 58 {
        ("Catppuccin Macchiato"@, "Catppuccin Latte"@)
    } else if i == 59 {
        ("Catppuccin Mocha"@, "Catppuccin Latte"@)
    } else {
        (Seq::empty(), Seq::empty())
    }
}

/// The `i`-th known (dark, light) pair.
fn variant_pair(i: usize) -> (r: (&'static str, &'static str))
    requires
        i < VARIANT_PAIR_COUNT,
    ensures
        r.0@ == variant_pair_spec(i as int).0,
        r.1@ == variant_pair_spec(i as int).1,
{
    match i {
        0 => ("3024 Night", "3024 Day"),
        1 => ("Aizen Dark", "Aizen Light"),
        2 => ("Atom One Dark", "Atom One Light"),
        3 => ("Belafonte Night", "Belafonte Day"),
        4 => ("Bluloco Dark", "Bluloco Light"),
        5 => ("Builtin Dark", "Builtin Light"),
        6 => ("Builtin Tango Dark", "Builtin Tango Light"),
        7 => ("Farmhouse Dark", "Farmhouse Light"),
        8 => ("Flexoki Dark", "Flexoki Light"),
        9 => ("GitHub Dark", "GitHub"),
        10 => ("GitHub Dark Colorblind", "GitHub Light Colorblind"),
        11 => ("GitHub Dark Default", "GitHub Light Default"),
        12 => ("GitHub Dark High Contrast", "GitHub Light High Contrast"),
        13 => ("GitLab Dark", "GitLab Light"),
        14 => ("Gruvbox Dark", "Gruvbox Light"),
        15 => ("Gruvbox Dark Hard", "Gruvbox Light Hard"),
        16 => ("Gruvbox Material Dark", "Gruvbox Material Light"),
        17 => ("Iceberg Dark", "Iceberg Light"),
        18 => ("Melange Dark", "Melange Light"),
        19 => ("Neobones Dark", "Neobones Light"),
        20 => ("Nvim Dark", "Nvim Light"),
        21 => ("One Double Dark", "One Double Light"),
        22 => ("One Half Dark", "One Half Light"),
        23 => ("Pencil Dark", "Pencil Light"),
        24 => ("Raycast Dark", "Raycast Light"),
        25 => ("Selenized Dark", "Selenized Light"),
        26 => ("Seoulbones Dark", "Seoulbones Light"),
        27 => ("Tinacious Design Dark", "Tinacious Design Light"),
        28 => ("Violet Dark", "Violet Light"),
        29 => ("Xcode Dark", "Xcode Light"),
        30 => ("Xcode Dark hc", "Xcode Light hc"),
        31 => ("Zenbones Dark", "Zenbones Light"),
        32 => ("Zenwritten Dark", "Zenwritten Light"),
        33 => ("iTerm2 Dark Background", "iTerm2 Light Background"),
        34 => ("iTerm2 Solarized Dark", "iTerm2 Solarized Light"),
        35 => ("iTerm2 Tango Dark", "iTerm2 Tango Light"),
        36 => ("Adwaita Dark", "Adwaita"),
        37 => ("Night Owl", "Light Owl"),
        38 => ("Nord", "Nord Light"),
        39 => ("Onenord", "Onenord Light"),
        40 => ("Pro", "Pro Light"),
        41 => ("Terminal Basic Dark", "Terminal Basic"),
        42 => ("No Clown Fiesta", "No Clown Fiesta Light"),
        43 => ("Rose Pine Moon", "Rose Pine Dawn"),
        44 => ("Rose Pine", "Rose Pine Dawn"),
        45 => ("TokyoNight Night", "TokyoNight Day"),
        46 => ("TokyoNight Moon", "TokyoNight Day"),
        47 => ("TokyoNight Storm", "TokyoNight Day"),
        48 => ("TokyoNight", "TokyoNight Day"),
        49 => ("Ayu", "Ayu Light"),
        50 => ("Ayu Mirage", "Ayu Light"),
        51 => ("Everforest Dark Hard", "Everforest Light Med"),
        52 => ("Tomorrow Night", "Tomorrow"),
        53 => ("Tomorrow Night Blue", "Tomorrow"),
        54 => ("Tomorrow Night Bright", "Tomorrow"),
        55 => ("Tomorrow Night Burns", "Tomorrow"),
        56 => ("Tomorrow Night Eighties", "Tomorrow"),
        57 => ("Catppuccin Frappe", "Catppuccin Latte"),
        58 => ("Catppuccin Macchiato", "Catppuccin Latte"),
        _ => ("Catppuccin Mocha", "Catppuccin Latte"),
    }
}

/// Pair `i` names `name`, ignoring case.
pub open spec fn pair_matches(i: int, name: Seq<char>) -> bool {
    lowercase(variant_pair_spec(i).0) == lowercase(name) || lowercase(variant_pair_spec(i).1)
        == lowercase(name)
}

/// Index of the first known pair that names `name`, ignoring case.
pub open spec fn lookup_index(name: Seq<char>) -> Option<int> {
    if exists|i: int| 0 <= i < VARIANT_PAIR_COUNT && #[trigger] pair_matches(i, name) {
        Some(
            choose|i: int|
                0 <= i < VARIANT_PAIR_COUNT && #[trigger] pair_matches(i, name) && forall|j: int|
                    0 <= j < i ==> !pair_matches(j, name),
        )
    } else {
        None
    }
}

/// Looks up a known variant pair by theme name (case-insensitive).
/// Returns `(dark_name, light_name)` of the first pair in the table that
/// names `name` on either side.
pub fn lookup_variant_pair(name: &str) -> (r: Option<(&'static str, &'static str)>)
    ensures
        match r {
            Some(p) => lookup_index(name@) matches Some(i) && p.0@ == variant_pair_spec(i).0
                && p.1@ == variant_pair_spec(i).1,
            None => lookup_index(name@) is None,
        },
{
    let lower = to_lowercase(name);
    let mut i: usize = 0;
    while i < VARIANT_PAIR_COUNT
        invariant
            lower@ == lowercase(name@),
            i <= VARIANT_PAIR_COUNT,
            forall|j: int| 0 <= j < i ==> !pair_matches(j, name@),
        decreases VARIANT_PAIR_COUNT - i,
    {
        let (dark, light) = variant_pair(i);
        if to_lowercase(dark) == lower || to_lowercase(light) == lower {
            proof {
                assert(pair_matches(i as int, name@));
                let w = lookup_index(name@)->0;
                assert(0 <= w < VARIANT_PAIR_COUNT && pair_matches(w, name@) && forall|j: int|
                    0 <= j < w ==> !pair_matches(j, name@));
                if w < i {
                    assert(!pair_matches(w, name@));
                } else if w > i {
                    assert(!pair_matches(i as int, name@));
                }
            }
            return Some((dark, light));
        }
        i = i + 1;
    }
    None
}

/// Whether a colour scheme is the dark or the light half of a pair.
#[derive(Debug, Clone, Copy, PartialEq, Eq, Structural)]
pub enum SchemeVariant {
    Dark,
    Light,
    Unknown,
}

/// Variant guessed from keywords in the lower-cased name.
pub open spec fn keyword_variant(lower: Seq<char>) -> SchemeVariant {
    if contains_spec(lower, "light"@) || contains_spec(lower, "day"@) || contains_spec(
        lower,
        "dawn"@,
    ) {
        SchemeVariant::Light
    } else if contains_spec(lower, "dark"@) || contains_spec(lower, "night"@) || contains_spec(
        lower,
        "moon"@,
    ) {
        SchemeVariant::Dark
    } else {
        SchemeVariant::Unknown
    }
}

/// The variant of a scheme: from the known pairs when the name is listed
/// there, otherwise from the keywords in its name.
pub open spec fn detect_variant_spec(name: Seq<char>) -> SchemeVariant {
    match lookup_index(name) {
        Some(i) => if lowercase(variant_pair_spec(i).0) == lowercase(name) {
            SchemeVariant::Dark
        } else {
            SchemeVariant::Light
        },
        None => keyword_variant(lowercase(name)),
    }
}

fn keyword_variant_of(lower: &str) -> (r: SchemeVariant)
    ensures
        r == keyword_variant(lower@),
{
    if str_contains(lower, "light") || str_contains(lower, "day") || str_contains(lower, "dawn") {
        SchemeVariant::Light
    } else if str_contains(lower, "dark") || str_contains(lower, "night") || str_contains(
        lower,
        "moon",
    ) {
        SchemeVariant::Dark
    } else {
        SchemeVariant::Unknown
    }
}

/// Detects whether a scheme name denotes a dark or a light variant.
pub fn detect_variant(name: &str) -> (r: SchemeVariant)
    ensures
        r == detect_variant_spec(name@),
{
    let lower = to_lowercase(name);
    if let Some((dark, light)) = lookup_variant_pair(name) {
        if to_lowercase(dark) == lower {
            return SchemeVariant::Dark;
        } else if to_lowercase(light) == lower {
            return SchemeVariant::Light;
        }
    }
    keyword_variant_of(lower.as_str())
}

/// Splitting `name` at the first occurrence of `word` in its lower-cased
/// form falls on character boundaries of `name` itself.
pub open spec fn word_slice_ok(name: Seq<char>, word: Seq<char>) -> bool {
    match find_spec(lowercase(name), word) {
        None => true,
        Some(pos) => {
            let nb = encode_utf8(name);
            let end = pos + encode_utf8(word).len();
            &&& end <= nb.len()
            &&& is_char_boundary(nb, pos)
            &&& is_char_boundary(nb, end)
        },
    }
}

/// `name` with the bytes at the first occurrence of `word` (located in the
/// lower-cased name) replaced by `cap_repl` when they spell `cap`, and by
/// `low_repl` otherwise.
pub open spec fn swap_word_spec(
    name: Seq<char>,
    word: Seq<char>,
    cap: Seq<char>,
    cap_repl: Seq<char>,
    low_repl: Seq<char>,
) -> Option<Seq<char>> {
    match find_spec(lowercase(name), word) {
        None => None,
        Some(pos) => {
            let nb = encode_utf8(name);
            let end = pos + encode_utf8(word).len();
            let repl = if nb.subrange(pos, end) == encode_utf8(cap) {
                cap_repl
            } else {
                low_repl
            };
            Some(decode_utf8(nb.subrange(0, pos)) + repl + decode_utf8(nb.subrange(end, nb.len() as int)))
        },
    }
}

/// The inputs on which [`find_counterpart_name`] is defined: the
/// keyword-based rename slices the name itself at the byte offsets found
/// in its lower-cased form.
pub open spec fn counterpart_defined(name: Seq<char>) -> bool {
    lookup_index(name) is None ==> match keyword_variant(lowercase(name)) {
        SchemeVariant::Dark => word_slice_ok(name, "dark"@),
        SchemeVariant::Light => word_slice_ok(name, "light"@),
        SchemeVariant::Unknown => true,
    }
}

/// The name of the opposite variant of a scheme.
pub open spec fn counterpart_spec(name: Seq<char>) -> Option<Seq<char>> {
    match lookup_index(name) {
        Some(i) => if lowercase(variant_pair_spec(i).0) == lowercase(name) {
            Some(variant_pair_spec(i).1)
        } else {
            Some(variant_pair_spec(i).0)
        },
        None => match keyword_variant(lowercase(name)) {
            SchemeVariant::Dark => swap_word_spec(name, "dark"@, "Dark"@, "Light"@, "light"@),
            SchemeVariant::Light => swap_word_spec(name, "light"@, "Light"@, "Dark"@, "dark"@),
            SchemeVariant::Unknown => None,
        },
    }
}

/// A boundary of `b` at `end` is a boundary of the suffix starting at `pos`.
proof fn lemma_boundary_in_suffix(b: Seq<u8>, pos: int, end: int)
    requires
        valid_utf8(b),
        0 <= pos <= end <= b.len(),
        is_char_boundary(b, pos),
        is_char_boundary(b, end),
    ensures
        valid_utf8(b.subrange(pos, b.len() as int)),
        is_char_boundary(b.subrange(pos, b.len() as int), end - pos),
{
    let r = b.subrange(pos, b.len() as int);
    vstd::utf8::valid_utf8_split(b, pos);
    if end == b.len() {
        vstd::utf8::is_char_boundary_start_end_of_seq(r);
    } else {
        vstd::utf8::is_char_boundary_iff_not_is_continuation_byte(b, end);
        vstd::utf8::is_char_boundary_iff_not_is_continuation_byte(r, end - pos);
    }
}

/// Whether two byte slices are equal.
fn bytes_eq(a: &[u8], b: &[u8]) -> (r: bool)
    ensures
        r == (a@ == b@),
{
    if a.len() != b.len() {
        return false;
    }
    let mut i: usize = 0;
    while i < a.len()
        invariant
            a@.len() == b@.len(),
            i <= a@.len(),
            forall|k: int| 0 <= k < i ==> a@[k] == b@[k],
        decreases a@.len() - i,
    {
        if a[i] != b[i] {
            return false;
        }
        i = i + 1;
    }
    assert(a@ =~= b@);
    true
}

/// The keyword-based rename used by [`find_counterpart_name`].
fn swap_word(name: &str, lower: &str, word: &str, cap: &str, cap_repl: &str, low_repl: &str) -> (r:
    Option<String>)
    requires
        lower@ == lowercase(name@),
        word_slice_ok(name@, word@),
    ensures
        match r {
            Some(s) => swap_word_spec(name@, word@, cap@, cap_repl@, low_repl@) == Some(s@),
            None => swap_word_spec(name@, word@, cap@, cap_repl@, low_repl@) is None,
        },
{
    match str_find(lower, word) {
        None => None,
        Some(pos) => {
            let ghost nb = encode_utf8(name@);
            let ghost end = pos + encode_utf8(word@).len();
            let wlen = word.as_bytes().len();
            proof {
                lemma_boundary_in_suffix(nb, pos as int, end);
            }
            let (a, rest) = name.split_at(pos);
            assert(rest.spec_bytes() =~= nb.subrange(pos as int, nb.len() as int));
            assert(wlen == end - pos);
            assert(is_char_boundary(rest.spec_bytes(), wlen as int));
            let (mid, c) = rest.split_at(wlen);
            assert(mid.spec_bytes() =~= nb.subrange(pos as int, end));
            assert(c.spec_bytes() =~= nb.subrange(end, nb.len() as int));
            let repl = if bytes_eq(mid.as_bytes(), cap.as_bytes()) {
                cap_repl
            } else {
                low_repl
            };
            let mut out = a.to_owned();
            out.append(repl);
            out.append(c);
            proof {
                assert(decode_utf8(encode_utf8(a@)) == a@);
                assert(decode_utf8(encode_utf8(c@)) == c@);
            }
            Some(out)
        },
    }
}

/// Finds the name of the opposite variant of a scheme: the other side of a
/// known pair, or the name with its first "dark"/"light" swapped.
pub fn find_counterpart_name(name: &str) -> (r: Option<String>)
    requires
        counterpart_defined(name@),
    ensures
        match r {
            Some(s) => counterpart_spec(name@) == Some(s@),
            None => counterpart_spec(name@) is None,
        },
{
    if let Some((dark, light)) = lookup_variant_pair(name) {
        let lower = to_lowercase(name);
        if to_lowercase(dark) == lower {
            return Some(light.to_owned());
        } else {
            return Some(dark.to_owned());
        }
    }
    let variant = detect_variant(name);
    let lower = to_lowercase(name);
    match variant {
        SchemeVariant::Dark => swap_word(name, lower.as_str(), "dark", "Dark", "Light", "light"),
        SchemeVariant::Light => swap_word(name, lower.as_str(), "light", "Light", "Dark", "dark"),
        SchemeVariant::Unknown => None,
    }
}

/// Candidate names for the variants of a scheme whose variant is unknown.
pub open spec fn variant_names_spec(name: Seq<char>) -> Seq<Seq<char>> {
    if detect_variant_spec(name) == SchemeVariant::Unknown {
        seq![name + " Light"@, name + " Dark"@, name + "-light"@, name + "-dark"@]
    } else {
        seq![]
    }
}

fn with_suffix(name: &str, suffix: &str) -> (r: String)
    ensures
        r@ == name@ + suffix@,
{
    let mut s = name.to_owned();
    s.append(suffix);
    s
}

/// Names to try when looking for the other variants of a scheme whose
/// variant cannot be told from its name.
pub fn find_variant_names(name: &str) -> (r: Vec<String>)
    ensures
        r@.map_values(|s: String| s@) == variant_names_spec(name@),
{
    let variant = detect_variant(name);
    if variant == SchemeVariant::Unknown {
        let v = vec![
            with_suffix(name, " Light"),
            with_suffix(name, " Dark"),
            with_suffix(name, "-light"),
            with_suffix(name, "-dark"),
        ];
        assert(v@.map_values(|s: String| s@) =~= variant_names_spec(name@));
        v
    } else {
        let v: Vec<String> = Vec::new();
        assert(v@.map_values(|s: String| s@) =~= variant_names_spec(name@));
        v
    }
}

/// The variant suffixes stripped by [`derive_base_name`], in the order tried.
pub open spec fn base_suffix(k: int) -> Seq<char> {
    if k == 0 {
        " light"@
    } else if k == 1 {
        " dark"@
    } else if k == 2 {
        "-light"@
    } else {
        "-dark"@
    }
}

/// The first suffix (by [`base_suffix`] order) that the lower-cased name ends with.
pub open spec fn base_suffix_index(name: Seq<char>) -> Option<int> {
    if ends_with_spec(lowercase(name), base_suffix(0)) {
        Some(0)
    } else if ends_with_spec(lowercase(name), base_suffix(1)) {
        Some(1)
    } else if ends_with_spec(lowercase(name), base_suffix(2)) {
        Some(2)
    } else if ends_with_spec(lowercase(name), base_suffix(3)) {
        Some(3)
    } else {
        None
    }
}

/// Byte length of `name` without the matched suffix.
pub open spec fn base_cut(name: Seq<char>, k: int) -> int {
    encode_utf8(name).len() - encode_utf8(base_suffix(k)).len()
}

/// The inputs on which [`derive_base_name`] is defined: the suffix found in
/// the lower-cased name is cut from the name itself by byte length.
pub open spec fn base_name_defined(name: Seq<char>) -> bool {
    match base_suffix_index(name) {
        Some(k) => 0 <= base_cut(name, k) && is_char_boundary(encode_utf8(name), base_cut(name, k)),
        None => true,
    }
}

/// A scheme name without its variant suffix.
pub open spec fn base_name_spec(name: Seq<char>) -> Seq<char> {
    match base_suffix_index(name) {
        Some(k) => decode_utf8(encode_utf8(name).subrange(0, base_cut(name, k))),
        None => name,
    }
}

fn suffix_at(k: usize) -> (r: &'static str)
    requires
        k < 4,
    ensures
        r@ == base_suffix(k as int),
{
    if k == 0 {
        " light"
    } else if k == 1 {
        " dark"
    } else if k == 2 {
        "-light"
    } else {
        "-dark"
    }
}

/// Strips a trailing " light", " dark", "-light" or "-dark" (any case).
pub fn derive_base_name(name: &str) -> (r: String)
    requires
        base_name_defined(name@),
    ensures
        r@ == base_name_spec(name@),
{
    let lower = to_lowercase(name);
    let mut k: usize = 0;
    while k < 4
        invariant
            lower@ == lowercase(name@),
            k <= 4,
            base_name_defined(name@),
            forall|j: int| 0 <= j < k ==> !ends_with_spec(lowercase(name@), #[trigger] base_suffix(j)),
        decreases 4 - k,
    {
        let suffix = suffix_at(k);
        if str_ends_with(lower.as_str(), suffix) {
            proof {
                if k >= 1 {
                    assert(!ends_with_spec(lowercase(name@), base_suffix(0)));
                }
                if k >= 2 {
                    assert(!ends_with_spec(lowercase(name@), base_suffix(1)));
                }
                if k >= 3 {
                    assert(!ends_with_spec(lowercase(name@), base_suffix(2)));
                }
                assert(base_suffix_index(name@) == Some(k as int));
            }
            let cut = name.as_bytes().len() - suffix.as_bytes().len();
            let (head, _) = name.split_at(cut);
            proof {
                assert(decode_utf8(encode_utf8(head@)) == head@);
            }
            return head.to_owned();
        }
        k = k + 1;
    }
    proof {
        assert(!ends_with_spec(lowercase(name@), base_suffix(0)));
        assert(!ends_with_spec(lowercase(name@), base_suffix(1)));
        assert(!ends_with_spec(lowercase(name@), base_suffix(2)));
        assert(!ends_with_spec(lowercase(name@), base_suffix(3)));
    }
    name.to_owned()
}

/// Whether [`derive_base_name`] is defined on `name`.
pub fn base_name_defined_exec(name: &str) -> (b: bool)
    ensures
        b == base_name_defined(name@),
{
    let lower = to_lowercase(name);
    let mut k: usize = 0;
    while k < 4
        invariant
            lower@ == lowercase(name@),
            k <= 4,
            forall|j: int| 0 <= j < k ==> !ends_with_spec(lowercase(name@), #[trigger] base_suffix(j)),
        decreases 4 - k,
    {
        let suffix = suffix_at(k);
        if str_ends_with(lower.as_str(), suffix) {
            proof {
                if k >= 1 {
                    assert(!ends_with_spec(lowercase(name@), base_suffix(0)));
                }
                if k >= 2 {
                    assert(!ends_with_spec(lowercase(name@), base_suffix(1)));
                }
                if k >= 3 {
                    assert(!ends_with_spec(lowercase(name@), base_suffix(2)));
                }
                assert(base_suffix_index(name@) == Some(k as int));
            }
            let nlen = name.as_bytes().len();
            let slen = suffix.as_bytes().len();
            if nlen < slen {
                return false;
            }
            return name.is_char_boundary(nlen - slen);
        }
        k = k + 1;
    }
    proof {
        assert(!ends_with_spec(lowercase(name@), base_suffix(0)));
        assert(!ends_with_spec(lowercase(name@), base_suffix(1)));
        assert(!ends_with_spec(lowercase(name@), base_suffix(2)));
        assert(!ends_with_spec(lowercase(name@), base_suffix(3)));
    }
    true
}

/// [`derive_base_name`] where it is defined; `None` where the suffix found in the
/// lower-cased name cannot be cut from the name itself.
pub fn try_derive_base_name(name: &str) -> (r: Option<String>)
    ensures
        r is Some <==> base_name_defined(name@),
        r matches Some(s) ==> s@ == base_name_spec(name@),
{
    if base_name_defined_exec(name) {
        Some(derive_base_name(name))
    } else {
        None
    }
}

/// Whether [`find_counterpart_name`] is defined on `name`.
pub fn counterpart_defined_exec(name: &str) -> (b: bool)
    ensures
        b == counterpart_defined(name@),
{
    if lookup_variant_pair(name).is_some() {
        return true;
    }
    let lower = to_lowercase(name);
    let word = match keyword_variant_of(lower.as_str()) {
        SchemeVariant::Dark => "dark",
        SchemeVariant::Light => "light",
        SchemeVariant::Unknown => {
            return true;
        },
    };
    match str_find(lower.as_str(), word) {
        None => true,
        Some(pos) => {
            let nlen = name.as_bytes().len();
            let wlen = word.as_bytes().len();
            if wlen > nlen || pos > nlen - wlen {
                false
            } else {
                name.is_char_boundary(pos) && name.is_char_boundary(pos + wlen)
            }
        },
    }
}

/// [`find_counterpart_name`] where it is defined; `None` where it is not.
pub fn try_find_counterpart_name(name: &str) -> (r: Option<Option<String>>)
    ensures
        r is Some <==> counterpart_defined(name@),
        r matches Some(c) ==> match c {
            Some(s) => counterpart_spec(name@) == Some(s@),
            None => counterpart_spec(name@) is None,
        },
{
    if counterpart_defined_exec(name) {
        Some(find_counterpart_name(name))
    } else {
        None
    }
}

/// Errors raised while listing, fetching or importing schemes.
#[derive(Debug)]
pub enum Iterm2Error {
    NetworkError(String),
    ParseError(String),
    NotFound(String),
    IoError(String),
}

/// The user-facing message of an [`Iterm2Error`].
pub open spec fn error_message_spec(e: Iterm2Error) -> Seq<char> {
    match e {
        Iterm2Error::NetworkError(m) => "Network error: "@ + m@,
        Iterm2Error::ParseError(m) => "Parse error: "@ + m@,
        Iterm2Error::NotFound(m) => "Not found: "@ + m@,
        Iterm2Error::IoError(m) => "IO error: "@ + m@,
    }
}

impl Iterm2Error {
    /// The user-facing message, e.g. "Network error: timed out".
    pub fn message(&self) -> (r: String)
        ensures
            r@ == error_message_spec(*self),
    {
        match self {
            Iterm2Error::NetworkError(m) => with_suffix("Network error: ", m.as_str()),
            Iterm2Error::ParseError(m) => with_suffix("Parse error: ", m.as_str()),
            Iterm2Error::NotFound(m) => with_suffix("Not found: ", m.as_str()),
            Iterm2Error::IoError(m) => with_suffix("IO error: ", m.as_str()),
        }
    }
}

/// Filesystem paths are carried through unchanged.
#[verifier::external_type_specification]
#[verifier::external_body]
pub struct ExPathBuf(std::path::PathBuf);

/// Where an imported theme was written and which schemes filled it.
pub struct ImportResult {
    pub path: std::path::PathBuf,
    pub dark_source: Option<String>,
    pub light_source: Option<String>,
}

/// A scheme name matches a search query when its lower-cased form contains
/// the lower-cased query.
pub open spec fn matches_query(query: Seq<char>) -> spec_fn(Seq<char>) -> bool {
    |s: Seq<char>| contains_spec(lowercase(s), lowercase(query))
}

/// Searches the listed scheme names for `query` (case-insensitive),
/// keeping the listing's order. A failed listing is passed through.
pub fn search_schemes(query: &str, listed: Result<Vec<String>, Iterm2Error>) -> (r: Result<
    Vec<String>,
    Iterm2Error,
>)
    ensures
        match listed {
            Err(e) => r == Err::<Vec<String>, Iterm2Error>(e),
            Ok(all) => r matches Ok(found) && views(found@) == views(all@).filter(
                matches_query(query@),
            ),
        },
{
    let all = match listed {
        Err(e) => return Err(e),
        Ok(all) => all,
    };
    let query_lower = to_lowercase(query);
    let mut found: Vec<String> = Vec::new();
    let mut i: usize = 0;
    while i < all.len()
        invariant
            i <= all@.len(),
            query_lower@ == lowercase(query@),
            views(found@) == views(all@).take(i as int).filter(matches_query(query@)),
        decreases all@.len() - i,
    {
        let lower = to_lowercase(all[i].as_str());
        proof {
            assert(views(all@).take(i + 1) =~= views(all@).take(i as int).push(all@[i as int]@));
            views(all@).take(i as int).lemma_filter_push(all@[i as int]@, matches_query(query@));
        }
        if str_contains(lower.as_str(), query_lower.as_str()) {
            found.push(all[i].clone());
            assert(views(found@) =~= views(all@).take(i + 1).filter(matches_query(query@)));
        }
        i = i + 1;
    }
    assert(views(all@).take(all@.len() as int) =~= views(all@));
    Ok(found)
}

/// A listed scheme is suggested as a variant of `name` when it is not `name`
/// itself, shares its base name, and is of the target (or an unknown) variant.
pub open spec fn suggestion_pred(name: Seq<char>, target: SchemeVariant) -> spec_fn(
    Seq<char>,
) -> bool {
    |s: Seq<char>|
        {
            let base_lower = lowercase(base_name_spec(name));
            &&& lowercase(s) != lowercase(name)
            &&& (contains_spec(lowercase(s), base_lower) || contains_spec(
                base_lower,
                lowercase(base_name_spec(s)),
            ))
            &&& (detect_variant_spec(s) == target || detect_variant_spec(s)
                == SchemeVariant::Unknown)
        }
}

/// The listed names whose base name is taken while filtering suggestions
/// have a well-defined base name.
pub open spec fn suggestions_defined(name: Seq<char>, all: Seq<Seq<char>>) -> bool {
    forall|i: int|
        0 <= i < all.len() && lowercase(#[trigger] all[i]) != lowercase(name) && !contains_spec(
            lowercase(all[i]),
            lowercase(base_name_spec(name)),
        ) ==> base_name_defined(all[i])
}

/// Finds listed schemes that are variants of `name` of the `target` kind,
/// sorted by name. A failed listing is passed through.
pub fn find_variant_suggestions(
    name: &str,
    target_variant: SchemeVariant,
    listed: Result<Vec<String>, Iterm2Error>,
) -> (r: Result<Vec<String>, Iterm2Error>)
    requires
        base_name_defined(name@),
        listed matches Ok(all) ==> suggestions_defined(name@, views(all@)),
    ensures
        match listed {
            Err(e) => r == Err::<Vec<String>, Iterm2Error>(e),
            Ok(all) => r matches Ok(found) && views(found@) == views(all@).filter(
                suggestion_pred(name@, target_variant),
            ).sort_by(str_leq()),
        },
{
    let base_name = derive_base_name(name);
    let all = match listed {
        Err(e) => return Err(e),
        Ok(all) => all,
    };
    let base_lower = to_lowercase(base_name.as_str());
    let name_lower = to_lowercase(name);
    let ghost pred = suggestion_pred(name@, target_variant);
    let mut kept: Vec<String> = Vec::new();
    let mut i: usize = 0;
    while i < all.len()
        invariant
            i <= all@.len(),
            base_lower@ == lowercase(base_name_spec(name@)),
            name_lower@ == lowercase(name@),
            pred == suggestion_pred(name@, target_variant),
            suggestions_defined(name@, views(all@)),
            views(kept@) == views(all@).take(i as int).filter(pred),
        decreases all@.len() - i,
    {
        let s = all[i].as_str();
        let s_lower = to_lowercase(s);
        proof {
            assert(views(all@).take(i + 1) =~= views(all@).take(i as int).push(s@));
            views(all@).take(i as int).lemma_filter_push(s@, pred);
            assert(views(all@)[i as int] == s@);
        }
        if s_lower == name_lower {
            i = i + 1;
            continue;
        }
        let matches_base = if str_contains(s_lower.as_str(), base_lower.as_str()) {
            true
        } else {
            let s_base = derive_base_name(s);
            let s_base_lower = to_lowercase(s_base.as_str());
            str_contains(base_lower.as_str(), s_base_lower.as_str())
        };
        if matches_base {
            let variant = detect_variant(s);
            if variant == target_variant || variant == SchemeVariant::Unknown {
                kept.push(all[i].clone());
                assert(views(kept@) =~= views(all@).take(i + 1).filter(pred));
            }
        }
        i = i + 1;
    }
    assert(views(all@).take(all@.len() as int) =~= views(all@));
    Ok(sort_strings(&kept))
}

/// File stem of an imported theme: the lower-cased name with spaces as dashes.
pub open spec fn theme_file_stem_spec(base_name: Seq<char>) -> Seq<char> {
    lowercase(base_name).map_values(|c: char| if c == ' ' { '-' } else { c })
}

/// File stem for a theme: `base_name.to_lowercase().replace(' ', "-")`.
pub fn theme_file_stem(base_name: &str) -> (r: String)
    ensures
        r@ == theme_file_stem_spec(base_name@),
{
    let lower = to_lowercase(base_name);
    let cs = chars_of(lower.as_str());
    let mut out = String::new();
    let mut i: usize = 0;
    while i < cs.len()
        invariant
            i <= cs@.len(),
            cs@ == lowercase(base_name@),
            out@ == cs@.take(i as int).map_values(|c: char| if c == ' ' { '-' } else { c }),
        decreases cs@.len() - i,
    {
        let c = cs[i];
        if c == ' ' {
            push_char(&mut out, '-');
        } else {
            push_char(&mut out, c);
        }
        assert(out@ =~= cs@.take(i + 1).map_values(|c: char| if c == ' ' { '-' } else { c }));
        i = i + 1;
    }
    assert(cs@.take(cs@.len() as int) =~= cs@);
    out
}

/// Contents of an imported theme file: the name line followed by the dark
/// and light colour tables that were obtained.
pub open spec fn import_toml_spec(
    base_name: Seq<char>,
    dark: Option<Seq<char>>,
    light: Option<Seq<char>>,
) -> Seq<char> {
    "name = \""@ + base_name + "\"\n"@ + match dark {
        Some(d) => "\n[dark]\n"@ + d + "\n"@,
        None => Seq::empty(),
    } + match light {
        Some(l) => "\n[light]\n"@ + l + "\n"@,
        None => Seq::empty(),
    }
}

/// The view of an optional string slice.
pub open spec fn opt_view(o: Option<&str>) -> Option<Seq<char>> {
    match o {
        Some(s) => Some(s@),
        None => None,
    }
}

/// Assembles the theme file for an import from the colour tables of the
/// dark and light schemes that were found.
pub fn import_toml(base_name: &str, dark: Option<&str>, light: Option<&str>) -> (r: String)
    ensures
        r@ == import_toml_spec(base_name@, opt_view(dark), opt_view(light)),
{
    let mut out = with_suffix("name = \"", base_name);
    out.append("\"\n");
    if let Some(d) = dark {
        out.append("\n[dark]\n");
        out.append(d);
        out.append("\n");
    }
    if let Some(l) = light {
        out.append("\n[light]\n");
        out.append(l);
        out.append("\n");
    }
    out
}

/// What an import fetches besides the named scheme: whether that scheme
/// fills the dark slot, and the counterpart names to try, in order, for the
/// other slot. When `only_light` is set a fetched candidate is taken only if
/// its name reads as a light variant.
pub struct ImportPlan {
    pub primary_is_dark: bool,
    pub candidates: Vec<String>,
    pub only_light: bool,
}

/// Plans an import of scheme `name`: a dark or light scheme is paired with
/// its counterpart, a scheme of unknown variant fills the dark slot and
/// tries the name variants for the light one.
pub fn import_plan(name: &str) -> (r: ImportPlan)
    requires
        counterpart_defined(name@),
    ensures
        r.primary_is_dark == (detect_variant_spec(name@) != SchemeVariant::Light),
        r.only_light == (detect_variant_spec(name@) == SchemeVariant::Unknown),
        detect_variant_spec(name@) == SchemeVariant::Unknown ==> views(r.candidates@)
            == variant_names_spec(name@),
        detect_variant_spec(name@) != SchemeVariant::Unknown ==> views(r.candidates@) == match counterpart_spec(name@) {
            Some(c) => seq![c],
            None => Seq::<Seq<char>>::empty(),
        },
{
    let variant = detect_variant(name);
    match variant {
        SchemeVariant::Unknown => ImportPlan {
            primary_is_dark: true,
            candidates: find_variant_names(name),
            only_light: true,
        },
        _ => {
            let candidates = match find_counterpart_name(name) {
                Some(c) => vec![c],
                None => Vec::new(),
            };
            assert(views(candidates@) =~= match counterpart_spec(name@) {
                Some(c) => seq![c],
                None => Seq::<Seq<char>>::empty(),
            });
            ImportPlan { primary_is_dark: variant == SchemeVariant::Dark, candidates, only_light: false }
        },
    }
}

/// Whether every listed name whose base name the suggestion filter takes has one.
fn listed_bases_defined(name_lower: &str, base_lower: &str, all: &Vec<String>) -> (b: bool)
    ensures
        b == (forall|i: int|
            0 <= i < all@.len() && lowercase(#[trigger] views(all@)[i]) != name_lower@
                && !contains_spec(lowercase(views(all@)[i]), base_lower@) ==> base_name_defined(
                views(all@)[i],
            )),
{
    let mut i: usize = 0;
    while i < all.len()
        invariant
            i <= all@.len(),
            forall|j: int|
                0 <= j < i && lowercase(#[trigger] views(all@)[j]) != name_lower@ && !contains_spec(
                    lowercase(views(all@)[j]),
                    base_lower@,
                ) ==> base_name_defined(views(all@)[j]),
        decreases all@.len() - i,
    {
        let s = all[i].as_str();
        assert(views(all@)[i as int] == s@);
        let s_lower = to_lowercase(s);
        if !crate::text::str_eq(s_lower.as_str(), name_lower) && !str_contains(
            s_lower.as_str(),
            base_lower,
        ) && !base_name_defined_exec(s) {
            return false;
        }
        i = i + 1;
    }
    true
}

/// [`find_variant_suggestions`] where it is defined: `name` has a base name, and so has
/// every listed name that the filter cuts; `None` otherwise.
pub fn try_find_variant_suggestions(
    name: &str,
    target_variant: SchemeVariant,
    listed: Result<Vec<String>, Iterm2Error>,
) -> (r: Option<Result<Vec<String>, Iterm2Error>>)
    ensures
        r is Some <==> (base_name_defined(name@) && (listed matches Ok(all) ==> suggestions_defined(
            name@,
            views(all@),
        ))),
        r matches Some(res) ==> match listed {
            Err(e) => res == Err::<Vec<String>, Iterm2Error>(e),
            Ok(all) => res matches Ok(found) && views(found@) == views(all@).filter(
                suggestion_pred(name@, target_variant),
            ).sort_by(str_leq()),
        },
{
    if !base_name_defined_exec(name) {
        return None;
    }
    let base_name = derive_base_name(name);
    let base_lower = to_lowercase(base_name.as_str());
    let name_lower = to_lowercase(name);
    let ok = match &listed {
        Ok(all) => listed_bases_defined(name_lower.as_str(), base_lower.as_str(), all),
        Err(_) => true,
    };
    if ok {
        Some(find_variant_suggestions(name, target_variant, listed))
    } else {
        None
    }
}

/// [`import_plan`] where it is defined; `None` where the counterpart of `name` is not.
pub fn try_import_plan(name: &str) -> (r: Option<ImportPlan>)
    ensures
        r is Some <==> counterpart_defined(name@),
        r matches Some(p) ==> {
            &&& p.primary_is_dark == (detect_variant_spec(name@) != SchemeVariant::Light)
            &&& p.only_light == (detect_variant_spec(name@) == SchemeVariant::Unknown)
            &&& detect_variant_spec(name@) == SchemeVariant::Unknown ==> views(p.candidates@)
                == variant_names_spec(name@)
            &&& detect_variant_spec(name@) != SchemeVariant::Unknown ==> views(p.candidates@)
                == match counterpart_spec(name@) {
                Some(c) => seq![c],
                None => Seq::<Seq<char>>::empty(),
            }
        },
{
    if counterpart_defined_exec(name) {
        Some(import_plan(name))
    } else {
        None
    }
}

/// What an import does with a fetched (or not fetched) candidate scheme.
#[derive(Debug, Clone, Copy, PartialEq, Eq, Structural)]
pub enum CandidateUse {
    /// Leave it.
    Skip,
    /// Put it in the slot the primary scheme left open (the light one when the primary is
    /// dark or of unknown variant, the dark one otherwise).
    Fill,
    /// Put it in that slot and try no further candidates.
    FillAndStop,
}

/// A candidate that could not be fetched is left. Otherwise, for a scheme of unknown
/// variant, the first light candidate fills the light slot and ends the search; for a
/// dark or light scheme the counterpart fills the other slot.
pub open spec fn candidate_use_spec(only_light: bool, slot_filled: bool, fetched: bool, candidate: Seq<char>) -> CandidateUse {
    if !fetched {
        CandidateUse::Skip
    } else if only_light {
        if detect_variant_spec(candidate) == SchemeVariant::Light && !slot_filled {
            CandidateUse::FillAndStop
        } else {
            CandidateUse::Skip
        }
    } else {
        CandidateUse::Fill
    }
}

/// What the import does with one of the plan's candidates, given whether it was fetched
/// and whether the open slot is already filled.
pub fn candidate_use(plan: &ImportPlan, slot_filled: bool, fetched: bool, candidate: &str) -> (r: CandidateUse)
    ensures
        r == candidate_use_spec(plan.only_light, slot_filled, fetched, candidate@),
{
    if !fetched {
        CandidateUse::Skip
    } else if plan.only_light {
        if detect_variant(candidate) == SchemeVariant::Light && !slot_filled {
            CandidateUse::FillAndStop
        } else {
            CandidateUse::Skip
        }
    } else {
        CandidateUse::Fill
    }
}

/// A scheme that is not in the known pair table is dark when its lower-cased name
/// mentions "dark", "night" or "moon" and none of "light", "day", "dawn"; it is light
/// when it mentions any of "light", "day", "dawn"; otherwise its variant is unknown.
pub proof fn lemma_keyword_variants(name: Seq<char>)
    requires
        lookup_index(name) is None,
    ensures
        ({
            let l = lowercase(name);
            let lightish = contains_spec(l, "light"@) || contains_spec(l, "day"@) || contains_spec(
                l,
                "dawn"@,
            );
            let darkish = contains_spec(l, "dark"@) || contains_spec(l, "night"@) || contains_spec(
                l,
                "moon"@,
            );
            &&& lightish ==> detect_variant_spec(name) == SchemeVariant::Light
            &&& !lightish && darkish ==> detect_variant_spec(name) == SchemeVariant::Dark
            &&& !lightish && !darkish ==> detect_variant_spec(name) == SchemeVariant::Unknown
            &&& !lightish && contains_spec(l, "night"@) ==> detect_variant_spec(name)
                == SchemeVariant::Dark
            &&& !lightish && contains_spec(l, "moon"@) ==> detect_variant_spec(name)
                == SchemeVariant::Dark
            &&& !lightish && contains_spec(l, "dark"@) ==> detect_variant_spec(name)
                == SchemeVariant::Dark
        }),
{
}

} // verus!
