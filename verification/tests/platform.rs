use jolt::platform::{ChargeState, PowerMode};

#[test]
fn test_charge_state_labels() {
    assert_eq!(ChargeState::Charging.label(), "Charging");
    assert_eq!(ChargeState::Discharging.label(), "On Battery");
    assert_eq!(ChargeState::Full.label(), "Full");
    assert_eq!(ChargeState::NotCharging.label(), "Not Charging");
    assert_eq!(ChargeState::Unknown.label(), "Unknown");
}

#[test]
fn test_charge_state_is_plugged_in() {
    assert!(ChargeState::Charging.is_plugged_in());
    assert!(ChargeState::Full.is_plugged_in());
    assert!(ChargeState::NotCharging.is_plugged_in());
    assert!(!ChargeState::Discharging.is_plugged_in());
    assert!(!ChargeState::Unknown.is_plugged_in());
}

#[test]
fn test_battery_state_conversion() {
    assert_eq!(
        ChargeState::from(starship_battery::State::Charging),
        ChargeState::Charging
    );
    assert_eq!(
        ChargeState::from(starship_battery::State::Discharging),
        ChargeState::Discharging
    );
    assert_eq!(
        ChargeState::from(starship_battery::State::Full),
        ChargeState::Full
    );
    assert_eq!(
        ChargeState::from(starship_battery::State::Empty),
        ChargeState::Discharging
    );
    assert_eq!(
        ChargeState::from(starship_battery::State::Unknown),
        ChargeState::Unknown
    );
}

#[test]
fn test_power_mode_labels() {
    assert_eq!(PowerMode::LowPower.label(), "Low Power");
    assert_eq!(PowerMode::Automatic.label(), "Automatic");
    assert_eq!(PowerMode::HighPerformance.label(), "High Performance");
    assert_eq!(PowerMode::Unknown.label(), "Unknown");
}

#[test]
fn charging_implies_plugged_in() {
    for s in [
        ChargeState::Charging,
        ChargeState::Discharging,
        ChargeState::Full,
        ChargeState::NotCharging,
        ChargeState::Unknown,
    ] {
        if s.is_charging() {
            assert!(s.is_plugged_in());
        }
    }
}

#[test]
fn platform_defaults() {
    assert_eq!(ChargeState::default(), ChargeState::Unknown);
    assert_eq!(PowerMode::default(), PowerMode::Automatic);
}
