use jolt::builtin_themes::{get_builtin_themes, new_theme_content, BUILTIN_THEME_COUNT};
use jolt::theme::{
    color_to_hex, colors_to_toml, convert_colors, find_theme_index, generate_blank_theme_toml,
    generate_theme_toml, theme_from_file, theme_type_label, user_theme_name, Color, NamedTheme,
    ThemeColors, ThemeColorsToml, ThemeFile, ThemeVariants,
};

fn toml_colors(hex: &str) -> ThemeColorsToml {
    let h = hex.to_string();
    ThemeColorsToml {
        bg: h.clone(),
        dialog_bg: h.clone(),
        fg: h.clone(),
        accent: h.clone(),
        accent_secondary: h.clone(),
        highlight: h.clone(),
        muted: h.clone(),
        success: h.clone(),
        warning: h.clone(),
        danger: h.clone(),
        border: h.clone(),
        selection_bg: h.clone(),
        selection_fg: h.clone(),
        graph_line: h,
    }
}

#[test]
fn hex_parsing_accepts_optional_hashes() {
    assert_eq!(Color::from_hex("#ff8000"), Some(Color::new(255, 128, 0)));
    assert_eq!(Color::from_hex("ff8000"), Some(Color::new(255, 128, 0)));
    assert_eq!(Color::from_hex("##FF8000"), Some(Color::new(255, 128, 0)));
    assert_eq!(Color::from_hex("#fff"), None);
    assert_eq!(Color::from_hex("#gg0000"), None);
    assert_eq!(Color::from_hex(""), None);
}

#[test]
fn hex_parsing_reads_a_sign_like_from_str_radix() {
    assert_eq!(Color::from_hex("+f0000"), Some(Color::new(15, 0, 0)));
    assert_eq!(Color::from_hex("-f0000"), None);
}

#[test]
fn hex_text_is_lower_case_with_hash() {
    assert_eq!(Color::new(255, 128, 0).to_hex(), "#ff8000");
    assert_eq!(Color::new(0, 10, 171).to_hex(), "#000aab");
    assert_eq!(color_to_hex(&Color::new(1, 2, 3)), "#010203");
}

#[test]
fn hex_roundtrip_on_samples() {
    for &(r, g, b) in &[(0u8, 0u8, 0u8), (255, 255, 255), (18, 52, 86), (171, 205, 239)] {
        let c = Color::new(r, g, b);
        assert_eq!(Color::from_hex(&c.to_hex()), Some(c));
    }
}

#[test]
fn default_color_is_mid_grey() {
    assert_eq!(Color::default(), Color::new(128, 128, 128));
}

#[test]
fn default_theme_colors_are_the_default_dark_palette() {
    let d = ThemeColors::default();
    assert_eq!(d.bg, Color::new(0x16, 0x16, 0x1e));
    assert_eq!(d.selection_fg, Color::new(255, 255, 255));
    assert_eq!(d.graph_line, Color::new(0x8a, 0xb4, 0xf8));
}

#[test]
fn builtin_themes_have_both_variants_and_distinct_ids() {
    let themes = get_builtin_themes();
    assert_eq!(themes.len(), BUILTIN_THEME_COUNT);
    assert_eq!(themes[0].id, "default");
    assert_eq!(themes[7].name, "Rosé Pine");
    for (i, t) in themes.iter().enumerate() {
        assert!(t.is_builtin);
        assert!(t.has_dark() && t.has_light());
        assert_eq!(t.variants_label(), "dark + light");
        for u in &themes[i + 1..] {
            assert_ne!(t.id, u.id);
        }
    }
    let catppuccin = &themes[1];
    assert_eq!(catppuccin.get_colors(true).bg, Color::new(30, 30, 46));
    assert_eq!(catppuccin.get_colors(false).bg, Color::new(239, 241, 245));
}

#[test]
fn colors_fall_back_to_the_other_variant() {
    let dark_only = NamedTheme {
        id: "x".to_string(),
        name: "X".to_string(),
        variants: ThemeVariants { dark: Some(ThemeColors::default()), light: None },
        is_builtin: false,
    };
    assert_eq!(dark_only.get_colors(false), ThemeColors::default());
    assert_eq!(dark_only.variants_label(), "dark only");
    let none = NamedTheme {
        variants: ThemeVariants::default(),
        ..dark_only.clone()
    };
    assert_eq!(none.variants_label(), "unknown");
}

#[test]
fn theme_toml_lists_each_variant() {
    let themes = get_builtin_themes();
    let text = generate_theme_toml("Mine", &themes[0]);
    assert!(text.starts_with("name = \"Mine\"\n\n[dark]\nbg = \"#16161e\"\n"));
    assert!(text.contains("\n\n[light]\nbg = \"#fafafc\"\n"));
    assert!(text.ends_with("graph_line = \"#1976d2\"\n"));
    let lines = colors_to_toml(&ThemeColors::default(), "  ");
    assert_eq!(lines.lines().count(), 14);
    assert!(lines.starts_with("  bg = \"#16161e\"\n  dialog_bg"));
}

#[test]
fn blank_theme_names_the_theme() {
    let text = generate_blank_theme_toml("Ocean");
    assert!(text.starts_with("name = \"Ocean\"\n\n[dark]\nbg = \"#1e1e2e\""));
    assert!(text.ends_with("graph_line = \"#1e66f5\"\n"));
}

#[test]
fn new_theme_content_choices() {
    let blank = new_theme_content("A", "blank", None).unwrap();
    assert_eq!(blank, generate_blank_theme_toml("A"));
    let copy = new_theme_content("A", "copy", Some("nord")).unwrap();
    assert_eq!(copy, generate_theme_toml("A", &get_builtin_themes()[3]));
    let default_copy = new_theme_content("A", "copy", None).unwrap();
    assert_eq!(default_copy, generate_theme_toml("A", &get_builtin_themes()[0]));
    assert_eq!(new_theme_content("A", "copy", Some("missing")), None);
}

#[test]
fn theme_file_conversion() {
    assert!(convert_colors(&toml_colors("#102030")).is_some());
    let mut bad = toml_colors("#102030");
    bad.muted = "nope".to_string();
    assert_eq!(convert_colors(&bad), None);

    let file = ThemeFile { name: "Sea".to_string(), dark: Some(toml_colors("#102030")), light: Some(bad) };
    let t = theme_from_file("sea", &file, false).unwrap();
    assert_eq!(t.id, "sea");
    assert_eq!(t.name, "Sea");
    assert_eq!(t.get_colors(true).bg, Color::new(16, 32, 48));
    assert!(t.variants.light.is_none());

    let empty = ThemeFile { name: "None".to_string(), dark: None, light: None };
    assert!(theme_from_file("none", &empty, false).is_none());
    assert_eq!(user_theme_name("Sea"), "Sea (user)");
    assert_eq!(theme_type_label(true), "builtin");
    assert_eq!(theme_type_label(false), "user");
}

#[test]
fn theme_lookup_by_id() {
    let themes = get_builtin_themes();
    assert_eq!(find_theme_index(&themes, "dracula"), Some(2));
    assert_eq!(find_theme_index(&themes, "monokai"), Some(9));
    assert_eq!(find_theme_index(&themes, "Dracula"), None);
}
