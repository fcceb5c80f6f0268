use jolt::config::{
    cache_dir_from, config_dir_from, config_path, effective_excluded_processes, mode_is_dark,
    ConfigOverrides, ThemeMode,
};
use jolt::smc::{key_fourcc, value_bytes, KeyInfo, KeyInfoCache, KeyLookup};

#[test]
fn theme_mode_words() {
    assert_eq!(ThemeMode::from_str("dark"), ThemeMode::Dark);
    assert_eq!(ThemeMode::from_str("DARK"), ThemeMode::Dark);
    assert_eq!(ThemeMode::from_str("Light"), ThemeMode::Light);
    assert_eq!(ThemeMode::from_str("auto"), ThemeMode::Auto);
    assert_eq!(ThemeMode::from_str("purple"), ThemeMode::Auto);
    assert_eq!(ThemeMode::default(), ThemeMode::Auto);
}

#[test]
fn theme_mode_cycles_in_three() {
    for m in [ThemeMode::Auto, ThemeMode::Dark, ThemeMode::Light] {
        assert_eq!(m.next().next().next(), m);
        assert_ne!(m.next(), m);
    }
    assert_eq!(ThemeMode::Auto.label(), "Auto");
    assert_eq!(ThemeMode::Light.label(), "Light");
    assert!(mode_is_dark(ThemeMode::Auto, true));
    assert!(!mode_is_dark(ThemeMode::Light, true));
}

#[test]
fn command_line_overrides() {
    let mut c = ConfigOverrides { theme: ThemeMode::Auto, refresh_ms: 2000, low_power_mode: false };
    assert!(!c.merge_with_args(None, None, false));
    assert_eq!(c, ConfigOverrides { theme: ThemeMode::Auto, refresh_ms: 2000, low_power_mode: false });
    assert!(c.merge_with_args(Some("light"), Some(500), true));
    assert_eq!(c, ConfigOverrides { theme: ThemeMode::Light, refresh_ms: 500, low_power_mode: true });
    assert!(!c.merge_with_args(None, None, false));
    assert!(c.low_power_mode);
}

#[test]
fn configuration_paths() {
    assert_eq!(config_dir_from(Some("/home/a/.config")), "/home/a/.config/jolt");
    assert_eq!(config_dir_from(Some("/home/a/.config/")), "/home/a/.config/jolt");
    assert_eq!(config_dir_from(None), "~/.config/jolt");
    assert_eq!(cache_dir_from(None), "~/.cache/jolt");
    assert!(config_path().ends_with("/jolt/config.toml"));
}

#[test]
fn excluded_processes_start_with_launchd() {
    let v = effective_excluded_processes(&vec!["Dock".to_string()]);
    assert_eq!(v, vec!["launchd".to_string(), "Dock".to_string()]);
}

#[test]
fn smc_keys() {
    assert_eq!(key_fourcc("PSTR"), Some(0x50535452));
    assert_eq!(key_fourcc("PST"), None);
    assert_eq!(key_fourcc("é12"), Some(u32::from_be_bytes([0xc3, 0xa9, b'1', b'2'])));
    let mut cache = KeyInfoCache::new();
    assert_eq!(cache.lookup("PSTR"), KeyLookup::Read(0x50535452));
    let info = KeyInfo { data_size: 4, data_type: 1, data_attributes: 0 };
    cache.remember(0x50535452, info);
    assert_eq!(cache.lookup("PSTR"), KeyLookup::Cached(info));
    assert_eq!(cache.lookup("toolong"), KeyLookup::BadKey);
    let mut bytes = [0u8; 32];
    bytes[0] = 1;
    bytes[3] = 4;
    assert_eq!(value_bytes(&bytes, info), vec![1, 0, 0, 4]);
}
