//! The themes that ship with the program.

use vstd::prelude::*;
use crate::iterm2::opt_view;
use crate::text::str_eq;
use crate::theme::{
    colors_from_palette, find_theme_index, generate_blank_theme_toml, generate_theme_toml,
    palette_colors, theme_toml_spec, NamedTheme, ThemeVariants, BLANK_THEME_BODY,
};

verus! {

pub const DEFAULT_DARK: [u32; 14] = [
    0x16161e, 0x23232d, 0xe6e6f0, 0x8ab4f8, 0xbb86fc, 0xffcb6b, 0x80808c,
    0x81c784, 0xffb74d, 0xef5350, 0x3c3c50, 0x323246, 0xffffff, 0x8ab4f8,
];

pub const DEFAULT_LIGHT: [u32; 14] = [
    0xfafafc, 0xffffff, 0x1e1e28, 0x1976d2, 0x7b1fa2, 0xffa000, 0x8c8c96,
    0x2e7d32, 0xef6c00, 0xd32f2f, 0xc8c8d2, 0xdce6f5, 0x000000, 0x1976d2,
];

pub const CATPPUCCIN_DARK: [u32; 14] = [
    0x1e1e2e, 0x313244, 0xcdd6f4, 0x89b4fa, 0xcba6f7, 0xf9e2af, 0x6c7086,
    0xa6e3a1, 0xfab387, 0xf38ba8, 0x45475a, 0x585b70, 0xcdd6f4, 0x89b4fa,
];

pub const CATPPUCCIN_LIGHT: [u32; 14] = [
    0xeff1f5, 0xe6e9ef, 0x4c4f69, 0x1e66f5, 0x8839ef, 0xdf8e1d, 0x6c6f85,
    0x40a02b, 0xfe640b, 0xd20f39, 0xbcc0cc, 0xacb0be, 0x4c4f69, 0x1e66f5,
];

pub const DRACULA_DARK: [u32; 14] = [
    0x282a36, 0x44475a, 0xf8f8f2, 0xbd93f9, 0xff79c6, 0xf1fa8c, 0x6272a4,
    0x50fa7b, 0xffb86c, 0xff5555, 0x44475a, 0x44475a, 0xf8f8f2, 0x8be9fd,
];

pub const DRACULA_LIGHT: [u32; 14] = [
    0xf8f8f2, 0xffffff, 0x282a36, 0x8959c1, 0xc85096, 0xb4a03c, 0x6272a4,
    0x28b450, 0xc8823c, 0xc83232, 0xc8c8d2, 0xdcdce6, 0x282a36, 0x50b4c8,
];

pub const NORD_DARK: [u32; 14] = [
    0x2e3440, 0x3b4252, 0xd8dee9, 0x88c0d0, 0xb48ead, 0xebcb8b, 0x4c566a,
    0xa3be8c, 0xd08770, 0xbf616a, 0x434c5e, 0x4c566a, 0xeceff4, 0x81a1c1,
];

pub const NORD_LIGHT: [u32; 14] = [
    0xeceff4, 0xe5e9f0, 0x3b4252, 0x5e81ac, 0xb48ead, 0xebcb8b, 0x4c566a,
    0xa3be8c, 0xd08770, 0xbf616a, 0xd8dee9, 0xd8dee9, 0x2e3440, 0x5e81ac,
];

pub const GRUVBOX_DARK: [u32; 14] = [
    0x282828, 0x3c3836, 0xebdbb2, 0x83a598, 0xd3869b, 0xfabd2f, 0x928374,
    0xb8bb26, 0xfe8019, 0xfb4934, 0x504945, 0x665c54, 0xebdbb2, 0x8ec07c,
];

pub const GRUVBOX_LIGHT: [u32; 14] = [
    0xfbf1c7, 0xf2e5bc, 0x3c3836, 0x458588, 0xb16286, 0xd79921, 0x928374,
    0x98971a, 0xd65d0e, 0xcc241d, 0xd5c4a1, 0xbdae93, 0x3c3836, 0x689d6a,
];

pub const TOKYO_NIGHT_DARK: [u32; 14] = [
    0x1a1b26, 0x24283b, 0xc0caf5, 0x7aa2f7, 0xbb9af7, 0xe0af68, 0x565f89,
    0x9ece6a, 0xff9e64, 0xf7768e, 0x292e42, 0x3b4261, 0xc0caf5, 0x7dcfff,
];

pub const TOKYO_NIGHT_LIGHT: [u32; 14] = [
    0xe1e2e7, 0xffffff, 0x3760bf, 0x2e7de9, 0x9854f1, 0x8f691b, 0x848eb3,
    0x387d44, 0x966030, 0xc74a61, 0xb8bbd4, 0xb6bfe2, 0x3760bf, 0x007ba8,
];

pub const SOLARIZED_DARK: [u32; 14] = [
    0x002b36, 0x073642, 0x839496, 0x268bd2, 0x6c71c4, 0xb58900, 0x586e75,
    0x859900, 0xcb4b16, 0xdc322f, 0x586e75, 0x073642, 0x93a1a1, 0x2aa198,
];

pub const SOLARIZED_LIGHT: [u32; 14] = [
    0xfdf6e3, 0xeee8d5, 0x657b83, 0x268bd2, 0x6c71c4, 0xb58900, 0x93a1a1,
    0x859900, 0xcb4b16, 0xdc322f, 0x93a1a1, 0xeee8d5, 0x586e75, 0x2aa198,
];

pub const ROSE_PINE_DARK: [u32; 14] = [
    0x191724, 0x1f1d2e, 0xe0def4, 0x31748f, 0xc4a7e7, 0xf6c177, 0x6e6a86,
    0x9ccfd8, 0xf6c177, 0xeb6f92, 0x26233a, 0x403d52, 0xe0def4, 0xebbcba,
];

pub const ROSE_PINE_LIGHT: [u32; 14] = [
    0xfaf4ed, 0xfffaf3, 0x575279, 0x286983, 0x907aa9, 0xea9d34, 0x9893a5,
    0x56949f, 0xea9d34, 0xb4637a, 0xf2e9de, 0xdfdad9, 0x575279, 0xd7827e,
];

pub const ONE_DARK_DARK: [u32; 14] = [
    0x282c34, 0x353b45, 0xabb2bf, 0x61afef, 0xc678dd, 0xe5c07b, 0x5c6370,
    0x98c379, 0xd19a66, 0xe06c75, 0x636d83, 0x3e4451, 0xabb2bf, 0x56b6c2,
];

pub const ONE_DARK_LIGHT: [u32; 14] = [
    0xfafafa, 0xffffff, 0x383a42, 0x4078f2, 0xa626a4, 0xc18401, 0xa0a1a7,
    0x50a14f, 0x986801, 0xe45649, 0xc8c8c8, 0xe6e6e6, 0x383a42, 0x0184bc,
];

pub const MONOKAI_DARK: [u32; 14] = [
    0x272822, 0x35362f, 0xf8f8f2, 0x66d9ef, 0xae81ff, 0xe6db74, 0x75715e,
    0xa6e22e, 0xfd971f, 0xf92672, 0x49483e, 0x49483e, 0xf8f8f2, 0x66d9ef,
];

pub const MONOKAI_LIGHT: [u32; 14] = [
    0xfdfdfd, 0xffffff, 0x272822, 0x29abb8, 0x7e57c2, 0x9c8e24, 0x75715e,
    0x689f38, 0xc8750f, 0xc2185b, 0xc8c8be, 0xe6e6dc, 0x272822, 0x29abb8,
];

/// Number of built-in themes.
pub const BUILTIN_THEME_COUNT: usize = 10;

/// Identifier of the `i`-th built-in theme.
pub open spec fn builtin_theme_id(i: int) -> Seq<char> {
    if i == 0 {
        "default"@
    } else if i == 1 {
        "catppuccin"@
    } else if i == 2 {
        "dracula"@
    } else if i == 3 {
        "nord"@
    } else if i == 4 {
        "gruvbox"@
    } else if i == 5 {
        "tokyo-night"@
    } else if i == 6 {
        "solarized"@
    } else if i == 7 {
        "rose-pine"@
    } else if i == 8 {
        "one-dark"@
    } else {
        "monokai"@
    }
}

/// Display name of the `i`-th built-in theme.
pub open spec fn builtin_theme_name(i: int) -> Seq<char> {
    if i == 0 {
        "Default"@
    } else if i == 1 {
        "Catppuccin"@
    } else if i == 2 {
        "Dracula"@
    } else if i == 3 {
        "Nord"@
    } else if i == 4 {
        "Gruvbox"@
    } else if i == 5 {
        "Tokyo Night"@
    } else if i == 6 {
        "Solarized"@
    } else if i == 7 {
        "Rosé Pine"@
    } else if i == 8 {
        "One Dark"@
    } else {
        "Monokai"@
    }
}

/// Palette (fourteen `0xRRGGBB` numbers) of a variant of the `i`-th built-in theme.
pub open spec fn builtin_palette(i: int, dark: bool) -> Seq<u32> {
    if i == 0 {
        if dark { DEFAULT_DARK@ } else { DEFAULT_LIGHT@ }
    } else if i == 1 {
        if dark { CATPPUCCIN_DARK@ } else { CATPPUCCIN_LIGHT@ }
    } else if i == 2 {
        if dark { DRACULA_DARK@ } else { DRACULA_LIGHT@ }
    } else if i == 3 {
        if dark { NORD_DARK@ } else { NORD_LIGHT@ }
    } else if i == 4 {
        if dark { GRUVBOX_DARK@ } else { GRUVBOX_LIGHT@ }
    } else if i == 5 {
        if dark { TOKYO_NIGHT_DARK@ } else { TOKYO_NIGHT_LIGHT@ }
    } else if i == 6 {
        if dark { SOLARIZED_DARK@ } else { SOLARIZED_LIGHT@ }
    } else if i == 7 {
        if dark { ROSE_PINE_DARK@ } else { ROSE_PINE_LIGHT@ }
    } else if i == 8 {
        if dark { ONE_DARK_DARK@ } else { ONE_DARK_LIGHT@ }
    } else {
        if dark { MONOKAI_DARK@ } else { MONOKAI_LIGHT@ }
    }
}

/// The `i`-th built-in theme is `t`.
pub open spec fn is_builtin_theme(t: NamedTheme, i: int) -> bool {
    &&& t.id@ == builtin_theme_id(i)
    &&& t.name@ == builtin_theme_name(i)
    &&& t.is_builtin
    &&& t.variants.dark == Some(palette_colors(builtin_palette(i, true)))
    &&& t.variants.light == Some(palette_colors(builtin_palette(i, false)))
}

fn builtin_theme(id: &str, name: &str, dark: &[u32; 14], light: &[u32; 14]) -> (t: NamedTheme)
    ensures
        t.id@ == id@,
        t.name@ == name@,
        t.is_builtin,
        t.variants.dark == Some(palette_colors(dark@)),
        t.variants.light == Some(palette_colors(light@)),
{
    NamedTheme {
        id: id.to_string(),
        name: name.to_string(),
        variants: ThemeVariants {
            dark: Some(colors_from_palette(dark)),
            light: Some(colors_from_palette(light)),
        },
        is_builtin: true,
    }
}

/// The built-in themes, in display order; each has a dark and a light variant.
pub fn get_builtin_themes() -> (v: Vec<NamedTheme>)
    ensures
        v.len() == BUILTIN_THEME_COUNT,
        forall|i: int| 0 <= i < v.len() ==> is_builtin_theme(#[trigger] v@[i], i),
{
    let mut v: Vec<NamedTheme> = Vec::new();
    v.push(builtin_theme("default", "Default", &DEFAULT_DARK, &DEFAULT_LIGHT));
    v.push(builtin_theme("catppuccin", "Catppuccin", &CATPPUCCIN_DARK, &CATPPUCCIN_LIGHT));
    v.push(builtin_theme("dracula", "Dracula", &DRACULA_DARK, &DRACULA_LIGHT));
    v.push(builtin_theme("nord", "Nord", &NORD_DARK, &NORD_LIGHT));
    v.push(builtin_theme("gruvbox", "Gruvbox", &GRUVBOX_DARK, &GRUVBOX_LIGHT));
    v.push(builtin_theme("tokyo-night", "Tokyo Night", &TOKYO_NIGHT_DARK, &TOKYO_NIGHT_LIGHT));
    v.push(builtin_theme("solarized", "Solarized", &SOLARIZED_DARK, &SOLARIZED_LIGHT));
    v.push(builtin_theme("rose-pine", "Rosé Pine", &ROSE_PINE_DARK, &ROSE_PINE_LIGHT));
    v.push(builtin_theme("one-dark", "One Dark", &ONE_DARK_DARK, &ONE_DARK_LIGHT));
    v.push(builtin_theme("monokai", "Monokai", &MONOKAI_DARK, &MONOKAI_LIGHT));
    v
}

/// No two built-in themes share an identifier, so looking a built-in theme up by
/// identifier finds at most one.
pub proof fn lemma_builtin_theme_ids_distinct(i: int, j: int)
    requires
        0 <= i < BUILTIN_THEME_COUNT,
        0 <= j < BUILTIN_THEME_COUNT,
        i != j,
    ensures
        builtin_theme_id(i) != builtin_theme_id(j),
{
    reveal_strlit("default");
    reveal_strlit("catppuccin");
    reveal_strlit("dracula");
    reveal_strlit("nord");
    reveal_strlit("gruvbox");
    reveal_strlit("tokyo-night");
    reveal_strlit("solarized");
    reveal_strlit("rose-pine");
    reveal_strlit("one-dark");
    reveal_strlit("monokai");
    let a = builtin_theme_id(i);
    let b = builtin_theme_id(j);
    if a == b {
        assert(a[0] == b[0]);
        assert(a[1] == b[1]);
    }
}

/// Position of the built-in theme with identifier `id`, if there is one.
pub open spec fn builtin_index_of(id: Seq<char>) -> Option<int> {
    if exists|i: int| 0 <= i < BUILTIN_THEME_COUNT && builtin_theme_id(i) == id {
        Some(choose|i: int| 0 <= i < BUILTIN_THEME_COUNT && builtin_theme_id(i) == id)
    } else {
        None
    }
}

/// The variants of the `i`-th built-in theme.
pub open spec fn builtin_variants(i: int) -> ThemeVariants {
    ThemeVariants {
        dark: Some(palette_colors(builtin_palette(i, true))),
        light: Some(palette_colors(builtin_palette(i, false))),
    }
}

/// The text of a new theme file named `name`: with the `copy` template, a copy of the
/// built-in theme `base` (default: `default`), else the starter palette; no text when
/// the base theme does not exist.
pub open spec fn new_theme_content_spec(
    name: Seq<char>,
    template: Seq<char>,
    base: Option<Seq<char>>,
) -> Option<Seq<char>> {
    if template == "copy"@ {
        let base_id = match base {
            Some(b) => b,
            None => "default"@,
        };
        match builtin_index_of(base_id) {
            Some(i) => Some(theme_toml_spec(name, builtin_variants(i))),
            None => None,
        }
    } else {
        Some("name = \""@ + name + BLANK_THEME_BODY@)
    }
}

/// The text of the theme file that `theme create` writes.
pub fn new_theme_content(name: &str, template: &str, base: Option<&str>) -> (r: Option<String>)
    ensures
        match r {
            Some(s) => new_theme_content_spec(name@, template@, opt_view(base)) == Some(s@),
            None => new_theme_content_spec(name@, template@, opt_view(base)) is None,
        },
{
    if !str_eq(template, "copy") {
        return Some(generate_blank_theme_toml(name));
    }
    let base_id: &str = match base {
        Some(b) => b,
        None => "default",
    };
    let themes = get_builtin_themes();
    match find_theme_index(&themes, base_id) {
        Some(i) => {
            proof {
                let k = choose|k: int| 0 <= k < BUILTIN_THEME_COUNT && builtin_theme_id(k) == base_id@;
                assert(is_builtin_theme(themes@[i as int], i as int));
                if k != i {
                    lemma_builtin_theme_ids_distinct(k, i as int);
                }
            }
            Some(generate_theme_toml(name, &themes[i]))
        },
        None => {
            proof {
                assert forall|k: int| 0 <= k < BUILTIN_THEME_COUNT implies builtin_theme_id(k) != base_id@ by {
                    assert(is_builtin_theme(themes@[k], k));
                }
            }
            None
        },
    }
}

} // verus!
