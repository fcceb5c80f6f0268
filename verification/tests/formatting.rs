use jolt::app::SortColumn;
use jolt::data::PowerMode;
use jolt::ui_format::{
    format_bytes, format_disk_io, format_duration, format_header, format_session_duration,
    format_uptime, truncate_name,
};
use jolt::ui_panels::{power_mode_icon, LayoutSizes};
use jolt::ui_utils::{centered_rect, centered_rect_percent, Area};

#[test]
fn uptime_text() {
    assert_eq!(format_uptime(59), "0m");
    assert_eq!(format_uptime(3600 + 120), "1h 2m");
    assert_eq!(format_uptime(2 * 86400 + 3 * 3600 + 4 * 60 + 5), "2d 3h 4m");
}

#[test]
fn byte_text_matches_float_formatting() {
    assert_eq!(format_bytes(512), "512 B");
    assert_eq!(format_bytes(1536), "1.50 KB");
    for &b in &[1024u64, 1152, 1160, 1_048_576, 1_572_864, 123_456_789, 1_073_741_824, 9_876_543_210] {
        let v = b as f64;
        let expected = if b >= 1024 * 1024 * 1024 {
            format!("{:.2} GB", v / (1024.0 * 1024.0 * 1024.0))
        } else if b >= 1024 * 1024 {
            format!("{:.2} MB", v / (1024.0 * 1024.0))
        } else {
            format!("{:.2} KB", v / 1024.0)
        };
        assert_eq!(format_bytes(b), expected);
    }
}

#[test]
fn disk_io_text() {
    assert_eq!(format_disk_io(0, 0), "-");
    assert_eq!(format_disk_io(500, 500), "1000B");
    assert_eq!(format_disk_io(1024, 512), "2K");
    assert_eq!(format_disk_io(2560, 0), "2K");
    assert_eq!(format_disk_io(3584, 0), "4K");
    assert_eq!(format_disk_io(1024 * 1024, 1024 * 1024), "2.0M");
    for &t in &[1536u64, 2560, 3584, 5000, 1_100_000, 3_400_000] {
        let v = t as f64;
        let expected = if t < 1024 * 1024 {
            format!("{:.0}K", v / 1024.0)
        } else {
            format!("{:.1}M", v / (1024.0 * 1024.0))
        };
        assert_eq!(format_disk_io(t, 0), expected);
    }
}

#[test]
fn run_time_text() {
    assert_eq!(format_duration(45), "45s");
    assert_eq!(format_duration(125), "2m");
    assert_eq!(format_duration(3 * 3600 + 5 * 60), "3h5m");
    assert_eq!(format_duration(3 * 3600), "3h");
    assert_eq!(format_duration(2 * 86400 + 4 * 3600), "2d4h");
    assert_eq!(format_duration(2 * 86400 + 59), "2d");
}

#[test]
fn session_length_text() {
    assert_eq!(format_session_duration(-1), "-");
    assert_eq!(format_session_duration(59), "0m");
    assert_eq!(format_session_duration(3 * 3600 + 15 * 60), "3h 15m");
}

#[test]
fn header_marks_the_sort_column() {
    assert_eq!(format_header("PID", SortColumn::Pid, SortColumn::Pid, "▲"), "PID ▲");
    assert_eq!(format_header("PID", SortColumn::Pid, SortColumn::Cpu, "▲"), "PID");
}

#[test]
fn names_are_cut_by_bytes() {
    assert_eq!(truncate_name("short", 10), "short");
    assert_eq!(truncate_name("a longer name", 8), "a lon...");
}

#[test]
fn power_mode_icons() {
    assert_eq!(power_mode_icon(PowerMode::LowPower), "🐢");
    assert_eq!(power_mode_icon(PowerMode::HighPerformance), "🚀");
    assert_eq!(power_mode_icon(PowerMode::Unknown), "");
}

#[test]
fn layout_with_room_grows_battery_then_graph() {
    let roomy = LayoutSizes::calculate(40, true);
    assert_eq!((roomy.battery, roomy.power, roomy.graph, roomy.processes_min), (12, 3, 10, 6));
    let exact = LayoutSizes::calculate(27, true);
    assert_eq!((exact.battery, exact.power, exact.graph, exact.processes_min), (10, 3, 8, 6));
    let no_graph = LayoutSizes::calculate(30, false);
    assert_eq!((no_graph.battery, no_graph.power, no_graph.graph, no_graph.processes_min), (12, 3, 0, 6));
    for h in 27..80u16 {
        let s = LayoutSizes::calculate(h, true);
        assert!(s.battery + s.power + s.graph + s.processes_min <= h);
    }
}

#[test]
fn compressed_layout_keeps_minimums() {
    let tiny = LayoutSizes::calculate(4, true);
    assert_eq!((tiny.battery, tiny.power, tiny.graph, tiny.processes_min), (5, 3, 0, 3));
    let mid = LayoutSizes::calculate(25, true);
    assert_eq!((mid.battery, mid.power, mid.graph, mid.processes_min), (10, 3, 6, 6));
}

#[test]
fn centered_boxes() {
    let area = Area { x: 0, y: 0, width: 100, height: 40 };
    assert_eq!(centered_rect(area, 60, 20), Area { x: 20, y: 10, width: 60, height: 20 });
    assert_eq!(centered_rect(area, 200, 80), Area { x: 2, y: 1, width: 96, height: 38 });
    assert_eq!(centered_rect_percent(area, 50, 50), Area { x: 25, y: 10, width: 50, height: 20 });
}

#[test]
fn byte_texts_of_huge_counts_follow_the_double() {
    let gb = 1024.0 * 1024.0 * 1024.0;
    let mb = 1024.0 * 1024.0;
    for b in [
        (1u64 << 53) + 1,
        (1u64 << 54) + 2,
        (1u64 << 62) + 987_654_321,
        u64::MAX,
        12_345_678_912_345_678_912,
    ] {
        assert_eq!(format_bytes(b), format!("{:.2} GB", b as f64 / gb));
        assert_eq!(format_disk_io(b - 1, 1), format!("{:.1}M", b as f64 / mb));
    }
    assert_eq!(format_disk_io(u64::MAX, 0), format!("{:.1}M", u64::MAX as f64 / mb));
}
