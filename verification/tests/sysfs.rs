use jolt::platform::ChargeState;
use jolt::sysfs::{
    amperage_ma, energy_delta, is_gpu_monitor, is_power_domain, linux_charge_state,
    parse_sysfs_i64, parse_sysfs_u64, reading_counts, supply_type_is,
};

#[test]
fn sysfs_numbers_are_trimmed() {
    assert_eq!(parse_sysfs_u64("123456\n"), Some(123456));
    assert_eq!(parse_sysfs_u64("  42  "), Some(42));
    assert_eq!(parse_sysfs_u64(""), None);
    assert_eq!(parse_sysfs_u64("-5\n"), None);
    assert_eq!(parse_sysfs_u64("12ab"), None);
    assert_eq!(parse_sysfs_i64("-1500000\n"), Some(-1500000));
    assert_eq!(parse_sysfs_i64("+7"), Some(7));
    assert_eq!(parse_sysfs_i64("x"), None);
}

#[test]
fn energy_counter_wraps() {
    assert_eq!(energy_delta(5_000, 2_000), 3_000);
    assert_eq!(energy_delta(2_000, 2_000), 0);
    assert_eq!(energy_delta(100, 9_000_000), 100);
    assert!(reading_counts(1_000, 5));
    assert!(!reading_counts(0, 5));
    assert!(!reading_counts(1_000, 0));
}

#[test]
fn rapl_domains_and_gpu_monitors() {
    assert!(is_power_domain("package-0"));
    assert!(is_power_domain("psys"));
    assert!(!is_power_domain("core"));
    assert!(!is_power_domain("dram"));
    assert!(is_gpu_monitor("amdgpu\n"));
    assert!(is_gpu_monitor("  I915 "));
    assert!(is_gpu_monitor("Nouveau"));
    assert!(!is_gpu_monitor("coretemp\n"));
}

#[test]
fn supply_type_matches_trimmed_text() {
    assert!(supply_type_is("Battery\n", "Battery"));
    assert!(supply_type_is("Mains\n", "Mains"));
    assert!(!supply_type_is("battery\n", "Battery"));
    assert!(!supply_type_is("USB\n", "Mains"));
}

#[test]
fn linux_not_charging_detection() {
    assert_eq!(
        linux_charge_state(ChargeState::Discharging, true, None),
        ChargeState::NotCharging
    );
    assert_eq!(
        linux_charge_state(ChargeState::Charging, true, None),
        ChargeState::Charging
    );
    assert_eq!(linux_charge_state(ChargeState::Full, true, None), ChargeState::Full);
    assert_eq!(
        linux_charge_state(ChargeState::Discharging, false, Some("Not charging")),
        ChargeState::Discharging
    );
    assert_eq!(
        linux_charge_state(ChargeState::Unknown, false, Some("not Charging\n")),
        ChargeState::NotCharging
    );
    assert_eq!(
        linux_charge_state(ChargeState::Unknown, true, Some("Unknown\n")),
        ChargeState::NotCharging
    );
    assert_eq!(
        linux_charge_state(ChargeState::Unknown, false, Some("Unknown\n")),
        ChargeState::Unknown
    );
    assert_eq!(linux_charge_state(ChargeState::Unknown, true, None), ChargeState::Unknown);
}

#[test]
fn amperage_sign_follows_state() {
    assert_eq!(amperage_ma(1_500_000, ChargeState::Discharging), -1500);
    assert_eq!(amperage_ma(-1_500_000, ChargeState::Discharging), -1500);
    assert_eq!(amperage_ma(-1_500_000, ChargeState::Charging), 1500);
    assert_eq!(amperage_ma(2_999, ChargeState::Charging), 2);
    assert_eq!(amperage_ma(-2_999, ChargeState::Discharging), -2);
    assert_eq!(amperage_ma(0, ChargeState::Discharging), 0);
}
