use jolt::battery_parse::{
    extract_number, ioreg_charge_state, ioreg_charger_watts, parse_capacity_output,
    parse_charger_watts, parse_ioreg_extras, CapacityReadings,
};
use jolt::data::ChargeState as DataChargeState;
use jolt::platform::ChargeState;
use jolt::pmset_parse::{parse_pmset_output, time_remaining_formatted};

#[test]
fn registry_numbers() {
    assert_eq!(extract_number("\"CycleCount\" = 123"), Some(123));
    assert_eq!(extract_number("\"Amperage\" = -1520"), Some(-1520));
    assert_eq!(extract_number("\"Amperage\" = +15"), Some(15));
    assert_eq!(extract_number("\"Voltage\" = 12a"), None);
    assert_eq!(extract_number("no equals sign"), None);
    assert_eq!(extract_number("\"A\" = 5 = 6"), Some(5));
    assert_eq!(extract_number("\"A\" = 99999999999999999999"), None);
}

#[test]
fn charger_watts_from_adapter_lines() {
    let out = "  \"Other\" = 5\n  \"AdapterDetails\" = {\"Watts\"=96,\"Name\"=\"x\"}\n";
    assert_eq!(parse_charger_watts(out), Some(96));
    let raw = "\"AppleRawAdapterDetails\" = ({\"Watts\"=30})\r\n";
    assert_eq!(parse_charger_watts(raw), Some(30));
    assert_eq!(parse_charger_watts("\"AdapterDetails\" = {\"Watts\"=}\n\"AdapterDetails\" = {\"Watts\"=65}"), Some(65));
    assert_eq!(parse_charger_watts("\"Watts\"=96"), None);
    assert_eq!(ioreg_charger_watts(out, false), None);
    assert_eq!(ioreg_charger_watts(out, true), Some(96));
}

#[test]
fn ioreg_battery_lines() {
    let out = "    \"InstantAmperage\" = -812\n    \"ExternalConnected\" = Yes\n    \"IsCharging\" = No\n    \"BatteryData\" = {\"DailyMinSoc\"=42,\"DailyMaxSoc\"=97.5,\"X\"=1}\n";
    let r = parse_ioreg_extras(out, 0, false);
    assert_eq!(r.amperage_ma, -812);
    assert!(r.external_connected);
    assert!(!r.is_charging);
    assert_eq!(r.daily_min_soc, vec!["42".to_string()]);
    assert_eq!(r.daily_max_soc, vec!["97.5".to_string()]);
    let unchanged = parse_ioreg_extras("\"Amperage\" = oops\n", 7, true);
    assert_eq!(unchanged.amperage_ma, 7);
    assert!(unchanged.external_connected);
}

#[test]
fn ioreg_charge_states() {
    assert_eq!(ioreg_charge_state(true, true, false), ChargeState::Charging);
    assert_eq!(ioreg_charge_state(true, false, true), ChargeState::Full);
    assert_eq!(ioreg_charge_state(true, false, false), ChargeState::NotCharging);
    assert_eq!(ioreg_charge_state(false, true, true), ChargeState::Discharging);
}

#[test]
fn capacity_figures() {
    let out = "  \"MaxCapacity\" = 4500\n  \"DesignCapacity\" = 5000\n  \"AppleRawMaxCapacity\" = 1\n  \"CycleCount\" = 321\n";
    assert_eq!(
        parse_capacity_output(out),
        CapacityReadings { max_capacity: Some(4500), design_capacity: Some(5000), cycle_count: Some(321) }
    );
    assert_eq!(
        parse_capacity_output(""),
        CapacityReadings { max_capacity: None, design_capacity: None, cycle_count: None }
    );
}

#[test]
fn pmset_status_lines() {
    let out = "Now drawing from 'AC Power'\n -InternalBattery-0 (id=1)\t85%; charging; 1:30 remaining present: true\n";
    let r = parse_pmset_output(out, DataChargeState::Unknown, None, None);
    assert_eq!(r.state, DataChargeState::Charging);
    assert_eq!(r.percent_texts, vec!["85".to_string()]);
    assert_eq!(r.time_to_full_secs, Some(3600 + 30 * 60));

    let simple = "Battery 42%; discharging; 2:05 remaining\n";
    let r = parse_pmset_output(simple, DataChargeState::Unknown, None, None);
    assert_eq!(r.percent_texts, vec!["42".to_string()]);
    assert_eq!(r.state, DataChargeState::Discharging);
    assert_eq!(r.time_to_empty_secs, Some(2 * 3600 + 5 * 60));

    let unrelated = "status: charged 3:07\n";
    let r = parse_pmset_output(unrelated, DataChargeState::Unknown, None, None);
    assert_eq!(r.percent_texts, Vec::<String>::new());
    assert_eq!(r.state, DataChargeState::Unknown);

    let full = " -InternalBattery-0 (id=1)\t100%; charged; 0:00 remaining present: true\n";
    let r = parse_pmset_output(full, DataChargeState::Unknown, None, Some(5));
    assert_eq!(r.state, DataChargeState::Full);
    assert_eq!(r.time_to_empty_secs, Some(0));

    let estimating = " -InternalBattery-0 (id=1)\t64%; discharging; (no estimate) present: true\n";
    let r = parse_pmset_output(estimating, DataChargeState::Unknown, None, Some(5));
    assert_eq!(r.state, DataChargeState::Discharging);
    assert_eq!(r.time_to_empty_secs, Some(5));

    let not = "InternalBattery 80%; AC attached; not charging\n";
    let r = parse_pmset_output(not, DataChargeState::Charging, None, None);
    assert_eq!(r.state, DataChargeState::NotCharging);
}

#[test]
fn pmset_standard_discharging_report() {
    let out = "Now drawing from 'Battery Power'\n -InternalBattery-0 (id=1234)\t85%; discharging; 3:45 remaining present: true\n";
    let r = parse_pmset_output(out, DataChargeState::Unknown, None, None);
    assert_eq!(r.percent_texts, vec!["85".to_string()]);
    assert_eq!(r.state, DataChargeState::Discharging);
    assert_eq!(r.time_to_empty_secs, Some(13500));
    assert_eq!(r.time_to_full_secs, None);
    let remaining = jolt::data::time_remaining(r.state, r.time_to_full_secs, r.time_to_empty_secs);
    assert_eq!(remaining, Some(13500));
    assert_eq!(time_remaining_formatted(remaining), Some("3h 45m".to_string()));
}

#[test]
fn remaining_time_text() {
    assert_eq!(time_remaining_formatted(Some(3 * 3600 + 7 * 60)), Some("3h 7m".to_string()));
    assert_eq!(time_remaining_formatted(Some(59)), Some("0m".to_string()));
    assert_eq!(time_remaining_formatted(None), None);
}

#[test]
fn power_mode_from_settings_dump() {
    assert_eq!(jolt::pmset_parse::power_mode_from_pmset(" lowpowermode 1\n highpowermode 0"), jolt::data::PowerMode::LowPower);
    assert_eq!(jolt::pmset_parse::power_mode_from_pmset(" lowpowermode 0\n highpowermode 1"), jolt::data::PowerMode::HighPerformance);
    assert_eq!(jolt::pmset_parse::power_mode_from_pmset(" lowpowermode 0"), jolt::data::PowerMode::Automatic);
    assert_eq!(jolt::data::PowerMode::HighPerformance.label(), "High Performance");
}
