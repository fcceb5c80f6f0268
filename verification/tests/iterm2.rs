use jolt::iterm2::{
    derive_base_name, detect_variant, find_counterpart_name, lookup_variant_pair, SchemeVariant,
};

#[test]
fn test_detect_variant() {
    assert_eq!(detect_variant("Gruvbox Dark"), SchemeVariant::Dark);
    assert_eq!(detect_variant("Gruvbox Light"), SchemeVariant::Light);
    assert_eq!(detect_variant("Dracula"), SchemeVariant::Unknown);
    assert_eq!(detect_variant("One Dark"), SchemeVariant::Dark);
    assert_eq!(detect_variant("Solarized Light"), SchemeVariant::Light);
}

#[test]
fn test_find_counterpart_name() {
    assert_eq!(
        find_counterpart_name("Gruvbox Dark"),
        Some("Gruvbox Light".to_string())
    );
    assert_eq!(
        find_counterpart_name("Gruvbox Light"),
        Some("Gruvbox Dark".to_string())
    );
    assert_eq!(
        find_counterpart_name("Gruvbox Dark Hard"),
        Some("Gruvbox Light Hard".to_string())
    );
    assert_eq!(find_counterpart_name("Dracula"), None);
}

#[test]
fn test_derive_base_name() {
    assert_eq!(derive_base_name("Gruvbox Dark"), "Gruvbox");
    assert_eq!(derive_base_name("Gruvbox Light"), "Gruvbox");
    assert_eq!(derive_base_name("Gruvbox Dark Hard"), "Gruvbox Dark Hard");
    assert_eq!(derive_base_name("One Dark"), "One");
    assert_eq!(derive_base_name("Dracula"), "Dracula");
}

#[test]
fn test_lookup_variant_pair() {
    let mocha = lookup_variant_pair("Catppuccin Mocha");
    assert!(mocha.is_some());
    assert_eq!(mocha.unwrap().1, "Catppuccin Latte");

    let latte = lookup_variant_pair("Catppuccin Latte");
    assert!(latte.is_some());
    assert_eq!(latte.unwrap().1, "Catppuccin Latte");

    assert_eq!(
        lookup_variant_pair("Tomorrow Night"),
        Some(("Tomorrow Night", "Tomorrow"))
    );
    assert_eq!(lookup_variant_pair("Nord"), Some(("Nord", "Nord Light")));
    assert_eq!(lookup_variant_pair("Dracula"), None);
}

#[test]
fn test_find_counterpart_via_lookup() {
    assert_eq!(
        find_counterpart_name("Catppuccin Mocha"),
        Some("Catppuccin Latte".to_string())
    );
    let latte_counterpart = find_counterpart_name("Catppuccin Latte");
    assert!(latte_counterpart.is_some());
    assert!(latte_counterpart.unwrap().starts_with("Catppuccin"));

    assert_eq!(
        find_counterpart_name("Tomorrow Night"),
        Some("Tomorrow".to_string())
    );
    assert_eq!(
        find_counterpart_name("Nord"),
        Some("Nord Light".to_string())
    );
    assert_eq!(
        find_counterpart_name("Nord Light"),
        Some("Nord".to_string())
    );
}

#[test]
fn test_detect_variant_via_lookup() {
    assert_eq!(detect_variant("Catppuccin Mocha"), SchemeVariant::Dark);
    assert_eq!(detect_variant("Catppuccin Latte"), SchemeVariant::Light);
    assert_eq!(detect_variant("Nord"), SchemeVariant::Dark);
    assert_eq!(detect_variant("Tomorrow"), SchemeVariant::Light);
}
