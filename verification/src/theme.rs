//! Theme colors: RGB values, their `#rrggbb` notation, and named themes.

use vstd::prelude::*;
use vstd::utf8::*;
use vstd::string::*;
use crate::text::{ascii_lower, ascii_lowercase, chars_of, push_char, str_eq};
use crate::builtin_themes::DEFAULT_DARK;

verus! {

/// An RGB color, each component 0-255.
#[derive(Debug, Clone, Copy, PartialEq, Eq, Structural)]
pub struct Color {
    pub r: u8,
    pub g: u8,
    pub b: u8,
}

/// The value of a hexadecimal digit, either case.
pub open spec fn hex_digit_value(c: char) -> Option<nat> {
    if '0' <= c && c <= '9' {
        Some((c as nat - 48) as nat)
    } else if 'a' <= c && c <= 'f' {
        Some((c as nat - 87) as nat)
    } else if 'A' <= c && c <= 'F' {
        Some((c as nat - 55) as nat)
    } else {
        None
    }
}

/// The byte that a two-character hexadecimal field denotes, as `u8::from_str_radix(_, 16)`
/// reads it: two digits, or a `+` sign and one digit.
pub open spec fn hex_pair_value(a: char, b: char) -> Option<u8> {
    if a == '+' {
        match hex_digit_value(b) {
            Some(d) => Some(d as u8),
            None => None,
        }
    } else {
        match (hex_digit_value(a), hex_digit_value(b)) {
            (Some(x), Some(y)) => Some((16 * x + y) as u8),
            _ => None,
        }
    }
}

/// The text with every leading `#` removed.
pub open spec fn strip_hashes(s: Seq<char>) -> Seq<char>
    decreases s.len(),
{
    if s.len() > 0 && s[0] == '#' {
        strip_hashes(s.drop_first())
    } else {
        s
    }
}

/// The color that a `#rrggbb` (or `rrggbb`) text denotes, if any.
pub open spec fn color_from_hex_spec(s: Seq<char>) -> Option<Color> {
    let t = strip_hashes(s);
    if t.len() == 6 {
        match (hex_pair_value(t[0], t[1]), hex_pair_value(t[2], t[3]), hex_pair_value(t[4], t[5])) {
            (Some(r), Some(g), Some(b)) => Some(Color { r, g, b }),
            _ => None,
        }
    } else {
        None
    }
}

/// The texts on which parsing a color is defined: when the part after the leading
/// `#`s is six bytes long, its two-byte fields must fall on character boundaries.
pub open spec fn color_hex_defined(s: Seq<char>) -> bool {
    let b = encode_utf8(strip_hashes(s));
    b.len() == 6 ==> is_char_boundary(b, 2) && is_char_boundary(b, 4)
}

/// Lower-case hexadecimal digit for a value below 16.
pub open spec fn lower_hex_digit(d: nat) -> char {
    if d < 10 {
        ((48 + d) as u32) as char
    } else {
        ((87 + d) as u32) as char
    }
}

/// Two lower-case hexadecimal digits for a byte.
pub open spec fn hex_byte(v: u8) -> Seq<char> {
    seq![lower_hex_digit((v / 16) as nat), lower_hex_digit((v % 16) as nat)]
}

/// The `#rrggbb` notation of a color.
pub open spec fn color_hex(c: Color) -> Seq<char> {
    seq!['#'] + hex_byte(c.r) + hex_byte(c.g) + hex_byte(c.b)
}

fn hex_value(c: char) -> (r: Option<u8>)
    ensures
        match hex_digit_value(c) {
            Some(d) => r == Some(d as u8),
            None => r is None,
        },
{
    if '0' <= c && c <= '9' {
        Some(((c as u32) - 48) as u8)
    } else if 'a' <= c && c <= 'f' {
        Some(((c as u32) - 87) as u8)
    } else if 'A' <= c && c <= 'F' {
        Some(((c as u32) - 55) as u8)
    } else {
        None
    }
}

fn parse_hex_pair(a: char, b: char) -> (r: Option<u8>)
    ensures
        r == hex_pair_value(a, b),
{
    if a == '+' {
        hex_value(b)
    } else {
        match (hex_value(a), hex_value(b)) {
            (Some(x), Some(y)) => Some(16 * x + y),
            _ => None,
        }
    }
}

fn lower_hex_char(d: u8) -> (c: char)
    requires
        d < 16,
    ensures
        c == lower_hex_digit(d as nat),
{
    if d < 10 {
        ((d + 48) as u8) as char
    } else {
        ((d + 87) as u8) as char
    }
}

proof fn lemma_strip_hashes_skip(s: Seq<char>, k: int)
    requires
        0 <= k <= s.len(),
        forall|i: int| 0 <= i < k ==> s[i] == '#',
    ensures
        strip_hashes(s) == strip_hashes(s.skip(k)),
    decreases k,
{
    if k > 0 {
        lemma_strip_hashes_skip(s.drop_first(), k - 1);
        assert(s.drop_first().skip(k - 1) =~= s.skip(k));
    } else {
        assert(s.skip(0) =~= s);
    }
}

proof fn lemma_lower_hex_digit_value(d: nat)
    requires
        d < 16,
    ensures
        hex_digit_value(lower_hex_digit(d)) == Some(d),
        lower_hex_digit(d) != '+',
        lower_hex_digit(d) != '#',
        (lower_hex_digit(d) as nat) < 128,
{
}

proof fn lemma_hex_byte_value(v: u8)
    ensures
        hex_pair_value(hex_byte(v)[0], hex_byte(v)[1]) == Some(v),
        hex_byte(v)[0] != '#',
        (hex_byte(v)[0] as nat) < 128,
        (hex_byte(v)[1] as nat) < 128,
{
    lemma_lower_hex_digit_value((v / 16) as nat);
    lemma_lower_hex_digit_value((v % 16) as nat);
}

/// Reading back the `#rrggbb` notation of a color gives the color: `from_hex` is
/// defined on every `to_hex` text and undoes it.
pub proof fn lemma_color_hex_roundtrip(c: Color)
    ensures
        color_hex_defined(color_hex(c)),
        color_from_hex_spec(color_hex(c)) == Some(c),
{
    let s = color_hex(c);
    let t = hex_byte(c.r) + hex_byte(c.g) + hex_byte(c.b);
    lemma_hex_byte_value(c.r);
    lemma_hex_byte_value(c.g);
    lemma_hex_byte_value(c.b);
    assert(s.drop_first() =~= t);
    assert(t[0] == hex_byte(c.r)[0]);
    assert(strip_hashes(t) == t);
    assert(strip_hashes(s) == t);
    assert(is_ascii_chars(t));
    is_ascii_chars_encode_utf8(t);
    encode_utf8_valid_utf8(t);
    let b = encode_utf8(t);
    assert(b[2] == t[2] as u8);
    assert(b[4] == t[4] as u8);
    is_char_boundary_iff_not_is_continuation_byte(b, 2);
    is_char_boundary_iff_not_is_continuation_byte(b, 4);
}

/// Every character is a hexadecimal digit, of either case.
pub open spec fn is_hex_text(h: Seq<char>) -> bool {
    forall|i: int| 0 <= i < h.len() ==> #[trigger] hex_digit_value(h[i]) is Some
}

proof fn lemma_hex_digit_lowered(c: char)
    requires
        hex_digit_value(c) is Some,
    ensures
        lower_hex_digit(hex_digit_value(c)->0) == ascii_lower(c),
        hex_digit_value(c)->0 < 16,
        c != '+',
        c != '#',
        (c as u32) < 128,
{
    let d = hex_digit_value(c)->0;
    if '0' <= c && c <= '9' {
        assert(((48 + d) as u32) == (c as u32));
        char_u32_cast(c, c as u32);
    } else if 'a' <= c && c <= 'f' {
        assert(((87 + d) as u32) == (c as u32));
        char_u32_cast(c, c as u32);
    } else {
        assert(((87 + d) as u32) == (c as u32) + 32);
    }
}

proof fn lemma_hex_pair_lowered(a: char, b: char)
    requires
        hex_digit_value(a) is Some,
        hex_digit_value(b) is Some,
    ensures
        hex_pair_value(a, b) matches Some(v) && hex_byte(v) == seq![ascii_lower(a), ascii_lower(b)],
{
    lemma_hex_digit_lowered(a);
    lemma_hex_digit_lowered(b);
    let x = hex_digit_value(a)->0;
    let y = hex_digit_value(b)->0;
    let v = (16 * x + y) as u8;
    assert(16 * x + y < 256);
    assert(v / 16 == x && v % 16 == y) by (nonlinear_arith)
        requires
            x < 16,
            y < 16,
            v == 16 * x + y,
    ;
    assert(hex_byte(v) =~= seq![ascii_lower(a), ascii_lower(b)]);
}

/// Reading `#` and six hexadecimal digits of either case, and writing the color back,
/// gives the same text with its letters in lower case (`to_lowercase` does exactly this
/// on ASCII text): hex is read case-insensitively and written in lower case.
pub proof fn lemma_hex_text_normalised(h: Seq<char>)
    requires
        h.len() == 6,
        is_hex_text(h),
    ensures
        color_hex_defined(seq!['#'] + h),
        color_from_hex_spec(seq!['#'] + h) matches Some(c) && color_hex(c) == seq!['#']
            + ascii_lowercase(h),
{
    let s = seq!['#'] + h;
    assert(hex_digit_value(h[0]) is Some);
    assert(hex_digit_value(h[1]) is Some);
    assert(hex_digit_value(h[2]) is Some);
    assert(hex_digit_value(h[3]) is Some);
    assert(hex_digit_value(h[4]) is Some);
    assert(hex_digit_value(h[5]) is Some);
    lemma_hex_digit_lowered(h[0]);
    lemma_hex_digit_lowered(h[1]);
    lemma_hex_digit_lowered(h[2]);
    lemma_hex_digit_lowered(h[3]);
    lemma_hex_digit_lowered(h[4]);
    lemma_hex_digit_lowered(h[5]);
    assert(s.drop_first() =~= h);
    assert(strip_hashes(h) == h);
    assert(strip_hashes(s) == h);
    lemma_hex_pair_lowered(h[0], h[1]);
    lemma_hex_pair_lowered(h[2], h[3]);
    lemma_hex_pair_lowered(h[4], h[5]);
    let c = color_from_hex_spec(s)->0;
    assert(color_hex(c) =~= seq!['#'] + ascii_lowercase(h));
    assert(is_ascii_chars(h));
    is_ascii_chars_encode_utf8(h);
    encode_utf8_valid_utf8(h);
    let b = encode_utf8(h);
    assert(b[2] == h[2] as u8);
    assert(b[4] == h[4] as u8);
    is_char_boundary_iff_not_is_continuation_byte(b, 2);
    is_char_boundary_iff_not_is_continuation_byte(b, 4);
}

impl Color {
    /// A color from its components.
    pub fn new(r: u8, g: u8, b: u8) -> (c: Color)
        ensures
            c == (Color { r, g, b }),
    {
        Color { r, g, b }
    }

    /// Parses `#rrggbb` or `rrggbb`; any number of leading `#` is skipped.
    pub fn from_hex(hex: &str) -> (r: Option<Color>)
        requires
            color_hex_defined(hex@),
        ensures
            r == color_from_hex_spec(hex@),
    {
        let v = chars_of(hex);
        let mut k: usize = 0;
        while k < v.len() && v[k] == '#'
            invariant
                v@ == hex@,
                k <= v.len(),
                forall|i: int| 0 <= i < k ==> v@[i] == '#',
            decreases v.len() - k,
        {
            k = k + 1;
        }
        proof {
            lemma_strip_hashes_skip(v@, k as int);
            assert(strip_hashes(v@.skip(k as int)) == v@.skip(k as int));
        }
        if v.len() - k != 6 {
            return None;
        }
        let r = parse_hex_pair(v[k], v[k + 1]);
        let g = parse_hex_pair(v[k + 2], v[k + 3]);
        let b = parse_hex_pair(v[k + 4], v[k + 5]);
        match (r, g, b) {
            (Some(r), Some(g), Some(b)) => Some(Color { r, g, b }),
            _ => None,
        }
    }

    /// The `#rrggbb` notation, lower case.
    pub fn to_hex(&self) -> (s: String)
        ensures
            s@ == color_hex(*self),
    {
        let mut s = String::new();
        push_char(&mut s, '#');
        push_char(&mut s, lower_hex_char(self.r / 16));
        push_char(&mut s, lower_hex_char(self.r % 16));
        push_char(&mut s, lower_hex_char(self.g / 16));
        push_char(&mut s, lower_hex_char(self.g % 16));
        push_char(&mut s, lower_hex_char(self.b / 16));
        push_char(&mut s, lower_hex_char(self.b % 16));
        assert(s@ =~= color_hex(*self));
        s
    }
}

impl Default for Color {
    fn default() -> (c: Color)
        ensures
            c == (Color { r: 128, g: 128, b: 128 }),
    {
        Color::new(128, 128, 128)
    }
}

/// The color that a `0xRRGGBB` number denotes.
pub open spec fn rgb_color(x: u32) -> Color {
    Color { r: (x / 65536 % 256) as u8, g: (x / 256 % 256) as u8, b: (x % 256) as u8 }
}

/// The color for a `0xRRGGBB` number.
pub fn color_from_rgb(x: u32) -> (c: Color)
    ensures
        c == rgb_color(x),
{
    Color { r: (x / 65536 % 256) as u8, g: (x / 256 % 256) as u8, b: (x % 256) as u8 }
}

/// The fourteen semantic colors of the interface.
#[derive(Debug, Clone, Copy, PartialEq, Eq, Structural)]
pub struct ThemeColors {
    pub bg: Color,
    pub dialog_bg: Color,
    pub fg: Color,
    pub accent: Color,
    pub accent_secondary: Color,
    pub highlight: Color,
    pub muted: Color,
    pub success: Color,
    pub warning: Color,
    pub danger: Color,
    pub border: Color,
    pub selection_bg: Color,
    pub selection_fg: Color,
    pub graph_line: Color,
}

/// The colors that a palette of fourteen `0xRRGGBB` numbers lists, in field order.
pub open spec fn palette_colors(p: Seq<u32>) -> ThemeColors {
    ThemeColors {
        bg: rgb_color(p[0]),
        dialog_bg: rgb_color(p[1]),
        fg: rgb_color(p[2]),
        accent: rgb_color(p[3]),
        accent_secondary: rgb_color(p[4]),
        highlight: rgb_color(p[5]),
        muted: rgb_color(p[6]),
        success: rgb_color(p[7]),
        warning: rgb_color(p[8]),
        danger: rgb_color(p[9]),
        border: rgb_color(p[10]),
        selection_bg: rgb_color(p[11]),
        selection_fg: rgb_color(p[12]),
        graph_line: rgb_color(p[13]),
    }
}

/// The colors of a palette of fourteen `0xRRGGBB` numbers, in field order.
pub fn colors_from_palette(p: &[u32; 14]) -> (c: ThemeColors)
    ensures
        c == palette_colors(p@),
{
    ThemeColors {
        bg: color_from_rgb(p[0]),
        dialog_bg: color_from_rgb(p[1]),
        fg: color_from_rgb(p[2]),
        accent: color_from_rgb(p[3]),
        accent_secondary: color_from_rgb(p[4]),
        highlight: color_from_rgb(p[5]),
        muted: color_from_rgb(p[6]),
        success: color_from_rgb(p[7]),
        warning: color_from_rgb(p[8]),
        danger: color_from_rgb(p[9]),
        border: color_from_rgb(p[10]),
        selection_bg: color_from_rgb(p[11]),
        selection_fg: color_from_rgb(p[12]),
        graph_line: color_from_rgb(p[13]),
    }
}

impl Default for ThemeColors {
    /// The default dark colors.
    fn default() -> (c: ThemeColors)
        ensures
            c == palette_colors(DEFAULT_DARK@),
    {
        colors_from_palette(&DEFAULT_DARK)
    }
}

/// The dark and the light colors of a theme, where it has them.
#[derive(Debug, Clone, Copy, PartialEq, Eq, Structural)]
pub struct ThemeVariants {
    pub dark: Option<ThemeColors>,
    pub light: Option<ThemeColors>,
}

impl Default for ThemeVariants {
    fn default() -> (v: ThemeVariants)
        ensures
            v.dark is None,
            v.light is None,
    {
        ThemeVariants { dark: None, light: None }
    }
}

/// A theme with its identifier (file stem) and display name.
#[derive(Debug, Clone)]
pub struct NamedTheme {
    pub id: String,
    pub name: String,
    pub variants: ThemeVariants,
    pub is_builtin: bool,
}

/// The colors a theme shows in the given appearance: the matching variant, else the other.
pub open spec fn theme_colors_for(v: ThemeVariants, is_dark: bool) -> ThemeColors {
    if is_dark {
        if v.dark is Some { v.dark.unwrap() } else { v.light.unwrap() }
    } else {
        if v.light is Some { v.light.unwrap() } else { v.dark.unwrap() }
    }
}

/// The label naming the variants a theme has.
pub open spec fn variants_label_spec(has_dark: bool, has_light: bool) -> Seq<char> {
    if has_dark && has_light {
        "dark + light"@
    } else if has_dark {
        "dark only"@
    } else if has_light {
        "light only"@
    } else {
        "unknown"@
    }
}

impl NamedTheme {
    /// The colors for the current appearance, falling back to the other variant.
    pub fn get_colors(&self, is_dark: bool) -> (c: ThemeColors)
        requires
            self.variants.dark is Some || self.variants.light is Some,
        ensures
            c == theme_colors_for(self.variants, is_dark),
    {
        if is_dark {
            match self.variants.dark {
                Some(c) => c,
                None => self.variants.light.unwrap(),
            }
        } else {
            match self.variants.light {
                Some(c) => c,
                None => self.variants.dark.unwrap(),
            }
        }
    }

    /// Whether the theme has a dark variant.
    pub fn has_dark(&self) -> (b: bool)
        ensures
            b == (self.variants.dark is Some),
    {
        self.variants.dark.is_some()
    }

    /// Whether the theme has a light variant.
    pub fn has_light(&self) -> (b: bool)
        ensures
            b == (self.variants.light is Some),
    {
        self.variants.light.is_some()
    }

    /// "dark + light", "dark only", "light only" or "unknown".
    pub fn variants_label(&self) -> (s: &'static str)
        ensures
            s@ == variants_label_spec(self.variants.dark is Some, self.variants.light is Some),
    {
        match (self.has_dark(), self.has_light()) {
            (true, true) => "dark + light",
            (true, false) => "dark only",
            (false, true) => "light only",
            _ => "unknown",
        }
    }
}

/// One `key = "#rrggbb"` line of a theme file, without its line break.
pub open spec fn toml_color_line(indent: Seq<char>, key: Seq<char>, c: Color) -> Seq<char> {
    indent + key + " = \""@ + color_hex(c) + "\""@
}

/// The fourteen color lines of a theme variant, joined by line breaks (no final break).
#[verifier::opaque]
pub open spec fn colors_toml_spec(c: ThemeColors, indent: Seq<char>) -> Seq<char> {
    toml_color_line(indent, "bg"@, c.bg)
        + "\n"@ + toml_color_line(indent, "dialog_bg"@, c.dialog_bg)
        + "\n"@ + toml_color_line(indent, "fg"@, c.fg)
        + "\n"@ + toml_color_line(indent, "accent"@, c.accent)
        + "\n"@ + toml_color_line(indent, "accent_secondary"@, c.accent_secondary)
        + "\n"@ + toml_color_line(indent, "highlight"@, c.highlight)
        + "\n"@ + toml_color_line(indent, "muted"@, c.muted)
        + "\n"@ + toml_color_line(indent, "success"@, c.success)
        + "\n"@ + toml_color_line(indent, "warning"@, c.warning)
        + "\n"@ + toml_color_line(indent, "danger"@, c.danger)
        + "\n"@ + toml_color_line(indent, "border"@, c.border)
        + "\n"@ + toml_color_line(indent, "selection_bg"@, c.selection_bg)
        + "\n"@ + toml_color_line(indent, "selection_fg"@, c.selection_fg)
        + "\n"@ + toml_color_line(indent, "graph_line"@, c.graph_line)
}

fn append_color_line(out: &mut String, indent: &str, key: &str, c: Color, last: bool)
    ensures
        final(out)@ == old(out)@ + toml_color_line(indent@, key@, c) + (if last {
            Seq::<char>::empty()
        } else {
            "\n"@
        }),
{
    out.append(indent);
    out.append(key);
    out.append(" = \"");
    let h = c.to_hex();
    out.append(h.as_str());
    out.append("\"");
    if !last {
        out.append("\n");
    }
    assert(final(out)@ =~= old(out)@ + toml_color_line(indent@, key@, c) + (if last {
        Seq::<char>::empty()
    } else {
        "\n"@
    }));
}

/// The color lines of a theme variant, each prefixed by `indent`.
pub fn colors_to_toml(colors: &ThemeColors, indent: &str) -> (s: String)
    ensures
        s@ == colors_toml_spec(*colors, indent@),
{
    let mut out = String::new();
    append_color_line(&mut out, indent, "bg", colors.bg, false);
    append_color_line(&mut out, indent, "dialog_bg", colors.dialog_bg, false);
    append_color_line(&mut out, indent, "fg", colors.fg, false);
    append_color_line(&mut out, indent, "accent", colors.accent, false);
    append_color_line(&mut out, indent, "accent_secondary", colors.accent_secondary, false);
    append_color_line(&mut out, indent, "highlight", colors.highlight, false);
    append_color_line(&mut out, indent, "muted", colors.muted, false);
    append_color_line(&mut out, indent, "success", colors.success, false);
    append_color_line(&mut out, indent, "warning", colors.warning, false);
    append_color_line(&mut out, indent, "danger", colors.danger, false);
    append_color_line(&mut out, indent, "border", colors.border, false);
    append_color_line(&mut out, indent, "selection_bg", colors.selection_bg, false);
    append_color_line(&mut out, indent, "selection_fg", colors.selection_fg, false);
    append_color_line(&mut out, indent, "graph_line", colors.graph_line, true);
    assert(out@ =~= colors_toml_spec(*colors, indent@)) by {
        reveal(colors_toml_spec);
    }
    out
}

/// The `#rrggbb` notation of a color.
pub fn color_to_hex(color: &Color) -> (s: String)
    ensures
        s@ == color_hex(*color),
{
    color.to_hex()
}

/// The theme file text for a copy of `base` under the name `name`.
pub open spec fn theme_toml_spec(name: Seq<char>, v: ThemeVariants) -> Seq<char> {
    "name = \""@ + name + "\"\n\n"@
        + (match v.dark {
            Some(d) => "[dark]\n"@ + colors_toml_spec(d, ""@) + "\n\n"@,
            None => Seq::empty(),
        })
        + (match v.light {
            Some(l) => "[light]\n"@ + colors_toml_spec(l, ""@) + "\n"@,
            None => Seq::empty(),
        })
}

/// A theme file that names the theme `name` and lists the variants of `base`.
pub fn generate_theme_toml(name: &str, base: &NamedTheme) -> (s: String)
    ensures
        s@ == theme_toml_spec(name@, base.variants),
{
    let mut content = String::new();
    content.append("name = \"");
    content.append(name);
    content.append("\"\n\n");
    let ghost head = content@;
    if let Some(dark) = &base.variants.dark {
        content.append("[dark]\n");
        let body = colors_to_toml(dark, "");
        content.append(body.as_str());
        content.append("\n\n");
    }
    let ghost mid = content@;
    assert(mid =~= head + match base.variants.dark {
        Some(d) => "[dark]\n"@ + colors_toml_spec(d, ""@) + "\n\n"@,
        None => Seq::empty(),
    });
    if let Some(light) = &base.variants.light {
        content.append("[light]\n");
        let body = colors_to_toml(light, "");
        content.append(body.as_str());
        content.append("\n");
    }
    assert(content@ =~= theme_toml_spec(name@, base.variants));
    content
}

/// The part of a new blank theme file that follows its name.
pub const BLANK_THEME_BODY: &'static str = "\"

[dark]
bg = \"#1e1e2e\"
dialog_bg = \"#313244\"
fg = \"#cdd6f4\"
accent = \"#89b4fa\"
accent_secondary = \"#cba6f7\"
highlight = \"#f9e2af\"
muted = \"#6c7086\"
success = \"#a6e3a1\"
warning = \"#fab387\"
danger = \"#f38ba8\"
border = \"#45475a\"
selection_bg = \"#585b70\"
selection_fg = \"#cdd6f4\"
graph_line = \"#89b4fa\"

[light]
bg = \"#eff1f5\"
dialog_bg = \"#e6e9ef\"
fg = \"#4c4f69\"
accent = \"#1e66f5\"
accent_secondary = \"#8839ef\"
highlight = \"#df8e1d\"
muted = \"#6c6f85\"
success = \"#40a02b\"
warning = \"#fe640b\"
danger = \"#d20f39\"
border = \"#bcc0cc\"
selection_bg = \"#acb0be\"
selection_fg = \"#4c4f69\"
graph_line = \"#1e66f5\"
";

/// A new theme file named `name`, with a starter dark and light palette.
pub fn generate_blank_theme_toml(name: &str) -> (s: String)
    ensures
        s@ == "name = \""@ + name@ + BLANK_THEME_BODY@,
{
    let mut content = String::new();
    content.append("name = \"");
    content.append(name);
    content.append(BLANK_THEME_BODY);
    content
}

/// The fourteen colors of a theme-file variant, as the file writes them.
#[derive(Debug, Clone)]
pub struct ThemeColorsToml {
    pub bg: String,
    pub dialog_bg: String,
    pub fg: String,
    pub accent: String,
    pub accent_secondary: String,
    pub highlight: String,
    pub muted: String,
    pub success: String,
    pub warning: String,
    pub danger: String,
    pub border: String,
    pub selection_bg: String,
    pub selection_fg: String,
    pub graph_line: String,
}

/// The contents of a theme file: its display name and the variants it lists.
#[derive(Debug, Clone)]
pub struct ThemeFile {
    pub name: String,
    pub dark: Option<ThemeColorsToml>,
    pub light: Option<ThemeColorsToml>,
}

/// Every color text of the variant can be parsed without fault.
pub open spec fn colors_toml_defined(t: ThemeColorsToml) -> bool {
    &&& color_hex_defined(t.bg@)
    &&& color_hex_defined(t.dialog_bg@)
    &&& color_hex_defined(t.fg@)
    &&& color_hex_defined(t.accent@)
    &&& color_hex_defined(t.accent_secondary@)
    &&& color_hex_defined(t.highlight@)
    &&& color_hex_defined(t.muted@)
    &&& color_hex_defined(t.success@)
    &&& color_hex_defined(t.warning@)
    &&& color_hex_defined(t.danger@)
    &&& color_hex_defined(t.border@)
    &&& color_hex_defined(t.selection_bg@)
    &&& color_hex_defined(t.selection_fg@)
    &&& color_hex_defined(t.graph_line@)
}

/// Every color text of the variant denotes a color.
pub open spec fn colors_toml_valid(t: ThemeColorsToml) -> bool {
    &&& color_from_hex_spec(t.bg@) is Some
    &&& color_from_hex_spec(t.dialog_bg@) is Some
    &&& color_from_hex_spec(t.fg@) is Some
    &&& color_from_hex_spec(t.accent@) is Some
    &&& color_from_hex_spec(t.accent_secondary@) is Some
    &&& color_from_hex_spec(t.highlight@) is Some
    &&& color_from_hex_spec(t.muted@) is Some
    &&& color_from_hex_spec(t.success@) is Some
    &&& color_from_hex_spec(t.warning@) is Some
    &&& color_from_hex_spec(t.danger@) is Some
    &&& color_from_hex_spec(t.border@) is Some
    &&& color_from_hex_spec(t.selection_bg@) is Some
    &&& color_from_hex_spec(t.selection_fg@) is Some
    &&& color_from_hex_spec(t.graph_line@) is Some
}

/// The colors a theme-file variant denotes, when every one of them parses.
pub open spec fn convert_colors_spec(t: ThemeColorsToml) -> Option<ThemeColors> {
    if colors_toml_valid(t) {
        Some(ThemeColors {
            bg: color_from_hex_spec(t.bg@).unwrap(),
            dialog_bg: color_from_hex_spec(t.dialog_bg@).unwrap(),
            fg: color_from_hex_spec(t.fg@).unwrap(),
            accent: color_from_hex_spec(t.accent@).unwrap(),
            accent_secondary: color_from_hex_spec(t.accent_secondary@).unwrap(),
            highlight: color_from_hex_spec(t.highlight@).unwrap(),
            muted: color_from_hex_spec(t.muted@).unwrap(),
            success: color_from_hex_spec(t.success@).unwrap(),
            warning: color_from_hex_spec(t.warning@).unwrap(),
            danger: color_from_hex_spec(t.danger@).unwrap(),
            border: color_from_hex_spec(t.border@).unwrap(),
            selection_bg: color_from_hex_spec(t.selection_bg@).unwrap(),
            selection_fg: color_from_hex_spec(t.selection_fg@).unwrap(),
            graph_line: color_from_hex_spec(t.graph_line@).unwrap(),
        })
    } else {
        None
    }
}

/// The colors of a theme-file variant; `None` when any color text is not `#rrggbb`.
pub fn convert_colors(colors: &ThemeColorsToml) -> (r: Option<ThemeColors>)
    requires
        colors_toml_defined(*colors),
    ensures
        r == convert_colors_spec(*colors),
{
    let bg = match Color::from_hex(colors.bg.as_str()) {
        Some(c) => c,
        None => return None,
    };
    let dialog_bg = match Color::from_hex(colors.dialog_bg.as_str()) {
        Some(c) => c,
        None => return None,
    };
    let fg = match Color::from_hex(colors.fg.as_str()) {
        Some(c) => c,
        None => return None,
    };
    let accent = match Color::from_hex(colors.accent.as_str()) {
        Some(c) => c,
        None => return None,
    };
    let accent_secondary = match Color::from_hex(colors.accent_secondary.as_str()) {
        Some(c) => c,
        None => return None,
    };
    let highlight = match Color::from_hex(colors.highlight.as_str()) {
        Some(c) => c,
        None => return None,
    };
    let muted = match Color::from_hex(colors.muted.as_str()) {
        Some(c) => c,
        None => return None,
    };
    let success = match Color::from_hex(colors.success.as_str()) {
        Some(c) => c,
        None => return None,
    };
    let warning = match Color::from_hex(colors.warning.as_str()) {
        Some(c) => c,
        None => return None,
    };
    let danger = match Color::from_hex(colors.danger.as_str()) {
        Some(c) => c,
        None => return None,
    };
    let border = match Color::from_hex(colors.border.as_str()) {
        Some(c) => c,
        None => return None,
    };
    let selection_bg = match Color::from_hex(colors.selection_bg.as_str()) {
        Some(c) => c,
        None => return None,
    };
    let selection_fg = match Color::from_hex(colors.selection_fg.as_str()) {
        Some(c) => c,
        None => return None,
    };
    let graph_line = match Color::from_hex(colors.graph_line.as_str()) {
        Some(c) => c,
        None => return None,
    };
    Some(ThemeColors {
        bg,
        dialog_bg,
        fg,
        accent,
        accent_secondary,
        highlight,
        muted,
        success,
        warning,
        danger,
        border,
        selection_bg,
        selection_fg,
        graph_line,
    })
}

/// Every color text of every variant of the file can be parsed without fault.
pub open spec fn theme_file_defined(f: ThemeFile) -> bool {
    &&& (f.dark matches Some(d) ==> colors_toml_defined(d))
    &&& (f.light matches Some(l) ==> colors_toml_defined(l))
}

/// The colors a variant of a theme file yields, if it is there and valid.
pub open spec fn file_variant_spec(v: Option<ThemeColorsToml>) -> Option<ThemeColors> {
    match v {
        Some(t) => convert_colors_spec(t),
        None => None,
    }
}

/// The theme that a parsed theme file describes: `None` when neither variant yields colors.
pub fn theme_from_file(id: &str, file: &ThemeFile, is_builtin: bool) -> (r: Option<NamedTheme>)
    requires
        theme_file_defined(*file),
    ensures
        match r {
            Some(t) => {
                &&& t.id@ == id@
                &&& t.name@ == file.name@
                &&& t.is_builtin == is_builtin
                &&& t.variants.dark == file_variant_spec(file.dark)
                &&& t.variants.light == file_variant_spec(file.light)
                &&& (t.variants.dark is Some || t.variants.light is Some)
            },
            None => file_variant_spec(file.dark) is None && file_variant_spec(file.light) is None,
        },
{
    let dark = match &file.dark {
        Some(d) => convert_colors(d),
        None => None,
    };
    let light = match &file.light {
        Some(l) => convert_colors(l),
        None => None,
    };
    if dark.is_none() && light.is_none() {
        return None;
    }
    Some(NamedTheme {
        id: id.to_string(),
        name: file.name.clone(),
        variants: ThemeVariants { dark, light },
        is_builtin,
    })
}

/// Whether parsing `hex` as a color is defined (see [`color_hex_defined`]).
pub fn color_hex_defined_exec(hex: &str) -> (b: bool)
    ensures
        b == color_hex_defined(hex@),
{
    let v = chars_of(hex);
    let mut k: usize = 0;
    while k < v.len() && v[k] == '#'
        invariant
            v@ == hex@,
            k <= v.len(),
            forall|i: int| 0 <= i < k ==> v@[i] == '#',
        decreases v.len() - k,
    {
        k = k + 1;
    }
    proof {
        lemma_strip_hashes_skip(v@, k as int);
        assert(strip_hashes(v@.skip(k as int)) == v@.skip(k as int));
    }
    let t = crate::battery_parse::string_of_range(&v, k, v.len());
    assert(t@ =~= v@.skip(k as int));
    let ts = t.as_str();
    if ts.as_bytes().len() != 6 {
        return true;
    }
    ts.is_char_boundary(2) && ts.is_char_boundary(4)
}

/// Whether every color text of a theme-file variant can be parsed without fault.
pub fn colors_toml_defined_exec(t: &ThemeColorsToml) -> (b: bool)
    ensures
        b == colors_toml_defined(*t),
{
    color_hex_defined_exec(t.bg.as_str()) && color_hex_defined_exec(t.dialog_bg.as_str())
        && color_hex_defined_exec(t.fg.as_str()) && color_hex_defined_exec(t.accent.as_str())
        && color_hex_defined_exec(t.accent_secondary.as_str()) && color_hex_defined_exec(
        t.highlight.as_str(),
    ) && color_hex_defined_exec(t.muted.as_str()) && color_hex_defined_exec(t.success.as_str())
        && color_hex_defined_exec(t.warning.as_str()) && color_hex_defined_exec(t.danger.as_str())
        && color_hex_defined_exec(t.border.as_str()) && color_hex_defined_exec(
        t.selection_bg.as_str(),
    ) && color_hex_defined_exec(t.selection_fg.as_str()) && color_hex_defined_exec(
        t.graph_line.as_str(),
    )
}

/// [`theme_from_file`] on a file whose color texts can all be parsed; `None` for one with
/// a color text that would split a character.
pub fn try_theme_from_file(id: &str, file: &ThemeFile, is_builtin: bool) -> (r: Option<
    Option<NamedTheme>,
>)
    ensures
        r is Some <==> theme_file_defined(*file),
        r matches Some(res) ==> match res {
            Some(t) => {
                &&& t.id@ == id@
                &&& t.name@ == file.name@
                &&& t.is_builtin == is_builtin
                &&& t.variants.dark == file_variant_spec(file.dark)
                &&& t.variants.light == file_variant_spec(file.light)
                &&& (t.variants.dark is Some || t.variants.light is Some)
            },
            None => file_variant_spec(file.dark) is None && file_variant_spec(file.light) is None,
        },
{
    let dark_ok = match &file.dark {
        Some(d) => colors_toml_defined_exec(d),
        None => true,
    };
    let light_ok = match &file.light {
        Some(l) => colors_toml_defined_exec(l),
        None => true,
    };
    if dark_ok && light_ok {
        Some(theme_from_file(id, file, is_builtin))
    } else {
        None
    }
}

/// The display name a theme loaded from the user's theme directory gets.
pub fn user_theme_name(name: &str) -> (s: String)
    ensures
        s@ == name@ + " (user)"@,
{
    let mut s = name.to_string();
    s.append(" (user)");
    s
}

/// "builtin" or "user".
pub fn theme_type_label(is_builtin: bool) -> (s: &'static str)
    ensures
        s@ == (if is_builtin { "builtin"@ } else { "user"@ }),
{
    if is_builtin {
        "builtin"
    } else {
        "user"
    }
}

/// Position of the first theme whose identifier is `id`.
pub fn find_theme_index(themes: &Vec<NamedTheme>, id: &str) -> (r: Option<usize>)
    ensures
        match r {
            Some(i) => i < themes.len() && themes@[i as int].id@ == id@ && forall|j: int|
                0 <= j < i ==> themes@[j].id@ != id@,
            None => forall|j: int| 0 <= j < themes.len() ==> themes@[j].id@ != id@,
        },
{
    let mut i: usize = 0;
    while i < themes.len()
        invariant
            i <= themes.len(),
            forall|j: int| 0 <= j < i ==> themes@[j].id@ != id@,
        decreases themes.len() - i,
    {
        if str_eq(themes[i].id.as_str(), id) {
            return Some(i);
        }
        i = i + 1;
    }
    None
}

} // verus!
