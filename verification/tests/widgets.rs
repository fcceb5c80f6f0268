use jolt::data::ChargeState;
use jolt::ui_widgets::{
    battery_state_icon, battery_time_text, cycles_text, expand_icon, gauge_bar, gauge_cell,
    gauge_cell_char, graph_span_secs, info_card_height, panel_heights, picker_content_height,
    picker_prefix, picker_scroll_offset, single_line_fits, status_padding, table_selection,
    time_axis_labels, title_padding, GaugeBar, GaugeCell, PanelHeights,
};

#[test]
fn panel_heights_by_screen_size() {
    assert_eq!(panel_heights(20, true), PanelHeights { battery: 5, power: 3, graph: 8 });
    assert_eq!(panel_heights(27, false), PanelHeights { battery: 5, power: 3, graph: 0 });
    assert_eq!(panel_heights(28, true), PanelHeights { battery: 6, power: 4, graph: 12 });
    assert_eq!(panel_heights(37, true), PanelHeights { battery: 6, power: 4, graph: 12 });
    assert_eq!(panel_heights(38, true), PanelHeights { battery: 7, power: 5, graph: 14 });
    assert_eq!(panel_heights(60, false), PanelHeights { battery: 7, power: 5, graph: 0 });
    assert_eq!(info_card_height(3), 0);
    assert_eq!(info_card_height(4), 3);
}

#[test]
fn battery_card_texts() {
    assert_eq!(battery_state_icon(ChargeState::Charging), "⚡");
    assert_eq!(battery_state_icon(ChargeState::Discharging), "↓");
    assert_eq!(battery_state_icon(ChargeState::Full), "✓");
    assert_eq!(battery_state_icon(ChargeState::NotCharging), "⏸");
    assert_eq!(battery_state_icon(ChargeState::Unknown), "?");
    assert_eq!(
        battery_time_text(ChargeState::Charging, Some("1h 5m".to_string())),
        ("Time to full:", "1h 5m".to_string())
    );
    assert_eq!(
        battery_time_text(ChargeState::Discharging, None),
        ("Runtime:", "Calculating...".to_string())
    );
    assert_eq!(
        battery_time_text(ChargeState::Full, Some("9m".to_string())),
        ("Status:", "Charged".to_string())
    );
    assert_eq!(
        battery_time_text(ChargeState::NotCharging, None),
        ("Status:", "Not charging".to_string())
    );
    assert_eq!(battery_time_text(ChargeState::Unknown, None), ("Status:", "—".to_string()));
    assert_eq!(cycles_text(Some(412)), "412");
    assert_eq!(cycles_text(Some(0)), "0");
    assert_eq!(cycles_text(None), "—");
    assert!(single_line_fits(80, 3, 80));
    assert!(!single_line_fits(79, 3, 80));
    assert!(single_line_fits(10, 2, 80));
}

#[test]
fn gauge_geometry() {
    assert_eq!(gauge_bar(0, 7, 3, true), None);
    assert_eq!(gauge_bar(0, 20, 0, true), None);
    assert_eq!(
        gauge_bar(2, 20, 1, true),
        Some(GaugeBar { show_labels: true, bar_start: 5, bar_end: 17 })
    );
    assert_eq!(
        gauge_bar(2, 20, 1, false),
        Some(GaugeBar { show_labels: false, bar_start: 2, bar_end: 22 })
    );
    assert_eq!(
        gauge_bar(0, 14, 1, true),
        Some(GaugeBar { show_labels: false, bar_start: 0, bar_end: 14 })
    );
    assert_eq!(gauge_cell(0, 3, 10), GaugeCell::Full);
    assert_eq!(gauge_cell(2, 3, 10), GaugeCell::Half);
    assert_eq!(gauge_cell(3, 3, 10), GaugeCell::Empty);
    assert_eq!(gauge_cell(9, 10, 10), GaugeCell::Full);
    assert_eq!(gauge_cell(0, 0, 10), GaugeCell::Empty);
    assert_eq!(gauge_cell_char(GaugeCell::Full), '█');
    assert_eq!(gauge_cell_char(GaugeCell::Half), '▌');
    assert_eq!(gauge_cell_char(GaugeCell::Empty), ' ');
}

#[test]
fn process_rows_and_theme_list() {
    assert_eq!(expand_icon(true, true, 0), "▼ ");
    assert_eq!(expand_icon(true, false, 0), "▶ ");
    assert_eq!(expand_icon(false, false, 1), "  └ ");
    assert_eq!(expand_icon(false, true, 0), "  ");
    assert_eq!(table_selection(12, 5), 7);
    assert_eq!(table_selection(3, 5), 0);
    assert_eq!(picker_content_height(3), 9);
    assert_eq!(picker_content_height(14), 20);
    assert_eq!(picker_content_height(40), 20);
    assert_eq!(picker_scroll_offset(4, 10), 0);
    assert_eq!(picker_scroll_offset(10, 10), 1);
    assert_eq!(picker_scroll_offset(25, 10), 16);
    assert_eq!(picker_prefix(true), "● ");
    assert_eq!(picker_prefix(false), "  ");
}

#[test]
fn bar_padding_and_graph_span() {
    assert_eq!(status_padding(100, 60, 10), 29);
    assert_eq!(status_padding(70, 60, 10), 0);
    assert_eq!(title_padding(100, 10, 30), 60);
    assert_eq!(title_padding(30, 10, 30), 0);
    assert_eq!(graph_span_secs(0), 60);
    assert_eq!(graph_span_secs(120), 120);
}

#[test]
fn chart_time_labels() {
    assert_eq!(time_axis_labels(10), ("-30s".to_string(), "-60s".to_string()));
    assert_eq!(time_axis_labels(121), ("-60s".to_string(), "-121s".to_string()));
}
