use jolt::ui_utils::{
    energy_unit_label, format_data_size, format_duration, format_memory, truncate_str, DataSizeUnit,
    EnergyUnit,
};

#[test]
fn test_energy_unit_label() {
    assert_eq!(energy_unit_label(EnergyUnit::Wh), "Wh");
    assert_eq!(energy_unit_label(EnergyUnit::MAh), "mAh");
}

#[test]
fn test_format_data_size_si() {
    assert_eq!(format_data_size(1000, DataSizeUnit::Si), "1.0 kB");
    assert_eq!(format_data_size(1_000_000, DataSizeUnit::Si), "1.0 MB");
    assert_eq!(format_data_size(1_000_000_000, DataSizeUnit::Si), "1.0 GB");
}

#[test]
fn test_format_data_size_binary() {
    assert_eq!(format_data_size(1024, DataSizeUnit::Binary), "1.0 KiB");
    assert_eq!(format_data_size(1_048_576, DataSizeUnit::Binary), "1.0 MiB");
    assert_eq!(
        format_data_size(1_073_741_824, DataSizeUnit::Binary),
        "1.0 GiB"
    );
}

#[test]
fn test_truncate_str_no_underflow_when_max_len_small() {
    assert_eq!(truncate_str("Terminal", 0), "");
    assert_eq!(truncate_str("Terminal", 1), "T");
    assert_eq!(truncate_str("Terminal", 2), "Te");
    assert_eq!(truncate_str("Terminal", 3), "Ter");
}

#[test]
fn test_truncate_str_adds_ellipsis() {
    assert_eq!(truncate_str("Terminal", 7), "Term...");
    assert_eq!(truncate_str("Terminal", 4), "T...");
}

#[test]
fn test_truncate_str_unchanged_when_fits() {
    assert_eq!(truncate_str("Terminal", 8), "Terminal");
    assert_eq!(truncate_str("Terminal", 10), "Terminal");
}

#[test]
fn test_truncate_str_utf8_multibyte_chars() {
    assert_eq!(truncate_str("🚀🔥💻", 3), "🚀🔥💻");
    assert_eq!(truncate_str("🚀🔥💻", 2), "🚀🔥");
    assert_eq!(truncate_str("🚀🔥💻🎉", 4), "🚀🔥💻🎉");
    assert_eq!(truncate_str("🚀🔥💻🎉🌟", 4), "🚀...");

    assert_eq!(truncate_str("Terminal🚀", 9), "Terminal🚀");
    assert_eq!(truncate_str("Terminal🚀", 8), "Termi...");

    assert_eq!(truncate_str("文字列", 3), "文字列");
    assert_eq!(truncate_str("文字列テスト", 5), "文字...");

    assert_eq!(truncate_str("café", 4), "café");
    assert_eq!(truncate_str("naïve", 4), "n...");
}

#[test]
fn test_truncate_str_utf8_edge_cases() {
    assert_eq!(truncate_str("", 0), "");
    assert_eq!(truncate_str("", 5), "");

    assert_eq!(truncate_str("🚀", 1), "🚀");
    assert_eq!(truncate_str("🚀", 0), "");

    assert_eq!(truncate_str("🚀hello", 1), "🚀");
    assert_eq!(truncate_str("🚀hello", 4), "🚀...");
    assert_eq!(truncate_str("🚀hello", 6), "🚀hello");
}

#[test]
fn truncated_text_never_exceeds_limit() {
    for max in 0..12usize {
        let out = truncate_str("a longer process name", max);
        assert!(out.chars().count() <= max);
    }
}

#[test]
fn humantime_duration_text() {
    assert_eq!(format_duration(9420), "2h 37m");
    assert_eq!(format_duration(0), "0s");
    assert_eq!(format_duration(61), "1m 1s");
    assert_eq!(format_duration(86400), "1day");
    assert_eq!(format_duration(2 * 86400 + 1), "2days 1s");
    assert_eq!(format_duration(37_091_538), "1year 2months 3days 4h 5m 6s");
    assert_eq!(format_duration(2 * 31_557_600), "2years");
}

#[test]
fn memory_pair_in_binary_units() {
    assert_eq!(format_memory(1024, 2048, DataSizeUnit::Binary), "1.0 KiB/2.0 KiB");
}
