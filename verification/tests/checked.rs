use jolt::iterm2::{candidate_use, CandidateUse};
use jolt::app::{Action, ActionContext, AppState, Effect, Settings};
use jolt::data::ChargeState;
use jolt::iterm2::{
    base_name_defined_exec, counterpart_defined_exec, try_derive_base_name,
    try_find_counterpart_name, try_find_variant_suggestions, try_import_plan, SchemeVariant,
};
use jolt::pmset_parse::{parse_pmset_output_checked, pmset_times_fit_exec};
use jolt::theme::{color_hex_defined_exec, try_theme_from_file, Color, ThemeColorsToml, ThemeFile};
use jolt::ui_format::truncate_name_checked;
use jolt::ui_utils::{centered_rect_checked, centered_rect_percent_checked, Area};

fn all_colors(hex: &str) -> ThemeColorsToml {
    let h = hex.to_string();
    ThemeColorsToml {
        bg: h.clone(),
        dialog_bg: h.clone(),
        fg: h.clone(),
        accent: h.clone(),
        accent_secondary: h.clone(),
        highlight: h.clone(),
        muted: h.clone(),
        success: h.clone(),
        warning: h.clone(),
        danger: h.clone(),
        border: h.clone(),
        selection_bg: h.clone(),
        selection_fg: h.clone(),
        graph_line: h,
    }
}

#[test]
fn hex_texts_that_would_split_a_character() {
    assert!(color_hex_defined_exec("#ff0000"));
    assert!(color_hex_defined_exec("##ff0000"));
    assert!(color_hex_defined_exec("short"));
    // "éé" and "a" make six bytes with boundaries at 0, 2, 4, 5, 6.
    assert!(color_hex_defined_exec("ééa1"));
    // a, é, a, é: bytes 0, 1, 3, 4, 6 start characters, so byte 2 does not.
    assert!(!color_hex_defined_exec("#aéaé"));
}

#[test]
fn theme_file_checked_before_conversion() {
    let good = ThemeFile {
        name: "Ok".to_string(),
        dark: Some(all_colors("#102030")),
        light: None,
    };
    let r = try_theme_from_file("ok", &good, false).expect("defined");
    let theme = r.expect("dark colors parse");
    assert_eq!(theme.variants.dark.unwrap().bg, Color::new(0x10, 0x20, 0x30));
    let bad = ThemeFile {
        name: "Bad".to_string(),
        dark: None,
        light: Some(all_colors("aéaé")),
    };
    assert!(try_theme_from_file("bad", &bad, false).is_none());
}

#[test]
fn base_name_cut_checked() {
    assert!(base_name_defined_exec("Solarized Dark"));
    assert_eq!(try_derive_base_name("Solarized Dark"), Some("Solarized".to_string()));
    assert_eq!(try_derive_base_name("Gruvbox-Light"), Some("Gruvbox".to_string()));
    assert_eq!(try_derive_base_name("Plain"), Some("Plain".to_string()));
    assert!(base_name_defined_exec("Aİ DARK"));
    assert_eq!(try_derive_base_name("Aİ DARK"), Some("Aİ".to_string()));
}

#[test]
fn counterpart_rename_checked() {
    assert!(counterpart_defined_exec("Solarized Dark"));
    assert_eq!(
        try_find_counterpart_name("Solarized Dark"),
        Some(Some("Solarized Light".to_string()))
    );
    assert_eq!(try_find_counterpart_name("Plain"), Some(None));
    // 'İ' lower-cases to two characters, so "dark" sits further right in the
    // lower-cased name than the name itself reaches.
    assert!(!counterpart_defined_exec("İİ dark"));
    assert_eq!(try_find_counterpart_name("İİ dark"), None);
    let plan = try_import_plan("Solarized Dark").expect("defined");
    assert!(plan.primary_is_dark);
    assert!(!plan.only_light);
    assert_eq!(plan.candidates, vec!["Solarized Light".to_string()]);
    assert!(try_import_plan("İİ dark").is_none());
}

#[test]
fn suggestions_checked() {
    let listed = Ok(vec![
        "Nord Light".to_string(),
        "Nord".to_string(),
        "Other Dark".to_string(),
    ]);
    let found = try_find_variant_suggestions("Nord", SchemeVariant::Light, listed)
        .expect("defined")
        .expect("listing succeeded");
    assert_eq!(found, vec!["Nord Light".to_string()]);
}

#[test]
fn pmset_overflowing_times_refused() {
    let ok = "discharging; 3:30 remaining; 80%\n";
    assert!(pmset_times_fit_exec(ok));
    let r = parse_pmset_output_checked(ok, ChargeState::Unknown, None, None).expect("fits");
    assert_eq!(r.state, ChargeState::Discharging);
    assert_eq!(r.time_to_empty_secs, Some(3 * 3600 + 30 * 60));
    assert_eq!(r.percent_texts, vec!["80".to_string()]);
    let huge = "discharging; 18446744073709551615:00 remaining; 80%\n";
    assert!(!pmset_times_fit_exec(huge));
    assert!(parse_pmset_output_checked(huge, ChargeState::Unknown, None, None).is_none());
}

#[test]
fn centered_boxes_checked() {
    let area = Area { x: 0, y: 0, width: 100, height: 40 };
    assert_eq!(
        centered_rect_checked(area, 60, 20),
        Some(Area { x: 20, y: 10, width: 60, height: 20 })
    );
    assert_eq!(
        centered_rect_percent_checked(area, 50, 50),
        Some(Area { x: 25, y: 10, width: 50, height: 20 })
    );
    let far = Area { x: 65530, y: 0, width: 40, height: 10 };
    assert_eq!(centered_rect_checked(far, 4, 4), None);
    assert_eq!(centered_rect_percent_checked(area, 1000, 50), None);
}

#[test]
fn truncation_checked() {
    assert_eq!(truncate_name_checked("short", 30), Some("short".to_string()));
    assert_eq!(truncate_name_checked("abcdefghij", 8), Some("abcde...".to_string()));
    // The cut at byte 5 falls inside 'é' (bytes 4 and 5).
    assert_eq!(truncate_name_checked("abcdéfghij", 8), None);
}

#[test]
fn actions_checked_for_overflow() {
    let ctx = ActionContext { visible_count: 3, selected: None, is_dark_mode: true };
    let mut s = AppState::new(Settings::defaults(), false);
    let o = s.handle_action_checked(Action::Quit, ctx).expect("in range");
    assert!(!o.keep_running);
    assert_eq!(o.effect, Effect::Nothing);
    s.refresh_ms = u64::MAX - 10;
    assert!(!s.action_in_range_exec(Action::IncreaseRefreshRate, ctx));
    assert!(s.handle_action_checked(Action::IncreaseRefreshRate, ctx).is_none());
    assert_eq!(s.refresh_ms, u64::MAX - 10);
    s.selected_process_index = usize::MAX - 5;
    assert!(!s.action_in_range_exec(Action::PageDown, ctx));
    let empty = ActionContext { visible_count: 0, selected: None, is_dark_mode: true };
    assert!(s.action_in_range_exec(Action::PageDown, empty));
}

#[test]
fn import_candidates_fill_the_open_slot() {
    let unknown = try_import_plan("Qwerty").expect("defined");
    assert!(unknown.only_light);
    assert_eq!(candidate_use(&unknown, false, false, "Qwerty Light"), CandidateUse::Skip);
    assert_eq!(candidate_use(&unknown, false, true, "Qwerty Dark"), CandidateUse::Skip);
    assert_eq!(candidate_use(&unknown, false, true, "Qwerty Light"), CandidateUse::FillAndStop);
    assert_eq!(candidate_use(&unknown, true, true, "Qwerty Light"), CandidateUse::Skip);
    let dark = try_import_plan("Solarized Dark").expect("defined");
    assert_eq!(candidate_use(&dark, false, true, "Solarized Light"), CandidateUse::Fill);
    assert_eq!(candidate_use(&dark, false, false, "Solarized Light"), CandidateUse::Skip);
}
