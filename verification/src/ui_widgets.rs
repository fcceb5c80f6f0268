//! What the main screen's widgets show: panel heights, the battery card's texts, the
//! charge gauge's cells, process-tree markers and the theme list's window.

use vstd::prelude::*;
use crate::data::ChargeState;
use crate::text::{decimal, u64_to_decimal};

verus! {

/// Heights of the battery, power and graph panels; the process list takes the rest.
#[derive(Debug, Clone, Copy, PartialEq, Eq, Structural)]
pub struct PanelHeights {
    pub battery: u16,
    pub power: u16,
    pub graph: u16,
}

/// Panel heights for `h` rows of content: small below 28 rows, medium below 38, large
/// from there on; the graph gets no rows when it is hidden.
pub open spec fn panel_heights_spec(h: u16, show_graph: bool) -> PanelHeights {
    if h < 28 {
        PanelHeights { battery: 5, power: 3, graph: if show_graph { 8 } else { 0 } }
    } else if h < 38 {
        PanelHeights { battery: 6, power: 4, graph: if show_graph { 12 } else { 0 } }
    } else {
        PanelHeights { battery: 7, power: 5, graph: if show_graph { 14 } else { 0 } }
    }
}

/// The panel heights for a content area `h` rows high.
pub fn panel_heights(h: u16, show_graph: bool) -> (r: PanelHeights)
    ensures
        r == panel_heights_spec(h, show_graph),
{
    if h < 28 {
        PanelHeights { battery: 5, power: 3, graph: if show_graph { 8 } else { 0 } }
    } else if h < 38 {
        PanelHeights { battery: 6, power: 4, graph: if show_graph { 12 } else { 0 } }
    } else {
        PanelHeights { battery: 7, power: 5, graph: if show_graph { 14 } else { 0 } }
    }
}

/// Rows of the battery panel's info card: three once the panel has four rows inside.
pub fn info_card_height(inner_height: u16) -> (r: u16)
    ensures
        r == (if inner_height >= 4 { 3u16 } else { 0u16 }),
{
    if inner_height >= 4 {
        3
    } else {
        0
    }
}

/// The icon the battery card shows for a charge state.
pub open spec fn state_icon_spec(state: ChargeState) -> Seq<char> {
    match state {
        ChargeState::Charging => "⚡"@,
        ChargeState::Discharging => "↓"@,
        ChargeState::Full => "✓"@,
        ChargeState::NotCharging => "⏸"@,
        ChargeState::Unknown => "?"@,
    }
}

/// The battery card's icon for a charge state.
pub fn battery_state_icon(state: ChargeState) -> (s: &'static str)
    ensures
        s@ == state_icon_spec(state),
{
    match state {
        ChargeState::Charging => "⚡",
        ChargeState::Discharging => "↓",
        ChargeState::Full => "✓",
        ChargeState::NotCharging => "⏸",
        ChargeState::Unknown => "?",
    }
}

/// The battery card's time label and value: the time to full while charging, the
/// runtime while discharging ("Calculating..." until a time is known), and a status
/// word otherwise.
pub open spec fn time_text_spec(state: ChargeState, formatted: Option<Seq<char>>) -> (Seq<char>, Seq<char>) {
    let or_wait = match formatted {
        Some(t) => t,
        None => "Calculating..."@,
    };
    match state {
        ChargeState::Charging => ("Time to full:"@, or_wait),
        ChargeState::Discharging => ("Runtime:"@, or_wait),
        ChargeState::Full => ("Status:"@, "Charged"@),
        ChargeState::NotCharging => ("Status:"@, "Not charging"@),
        ChargeState::Unknown => ("Status:"@, "—"@),
    }
}

/// The battery card's time label and value, given the formatted time remaining.
pub fn battery_time_text(state: ChargeState, formatted: Option<String>) -> (r: (&'static str, String))
    ensures
        (r.0@, r.1@) == time_text_spec(
            state,
            match formatted {
                Some(t) => Some(t@),
                None => None,
            },
        ),
{
    let or_wait = match formatted {
        Some(t) => t,
        None => "Calculating...".to_string(),
    };
    match state {
        ChargeState::Charging => ("Time to full:", or_wait),
        ChargeState::Discharging => ("Runtime:", or_wait),
        ChargeState::Full => ("Status:", "Charged".to_string()),
        ChargeState::NotCharging => ("Status:", "Not charging".to_string()),
        ChargeState::Unknown => ("Status:", "—".to_string()),
    }
}

/// The cycle count as a decimal, or a dash when unknown.
pub fn cycles_text(cycles: Option<u32>) -> (s: String)
    ensures
        s@ == match cycles {
            Some(c) => decimal(c as nat),
            None => "—"@,
        },
{
    match cycles {
        Some(c) => u64_to_decimal(c as u64),
        None => "—".to_string(),
    }
}

/// The card fits on one line when the area is as wide as the line, or too low for the
/// stacked form.
pub fn single_line_fits(width: u16, height: u16, line_width: usize) -> (b: bool)
    ensures
        b == (width as int >= line_width as int || height < 3),
{
    width as usize >= line_width || height < 3
}

/// Where the charge gauge's bar lies inside its frame.
#[derive(Debug, Clone, Copy, PartialEq, Eq, Structural)]
pub struct GaugeBar {
    /// Whether "0%" and "100%" stand at the bar's ends.
    pub show_labels: bool,
    /// First column of the bar.
    pub bar_start: u16,
    /// Column after the bar.
    pub bar_end: u16,
}

/// The bar inside a gauge area starting at column `x`, `width` columns wide and
/// `height` rows high: none below eight columns or without rows; with a border and
/// fifteen columns, three columns are kept on the left and five on the right for the
/// end labels; none when fewer than five columns remain.
pub open spec fn gauge_bar_spec(x: int, width: int, height: int, has_border: bool) -> Option<GaugeBar> {
    if width < 8 || height == 0 {
        None
    } else {
        let show = width >= 15 && has_border;
        let start = if show { x + 3 } else { x };
        let end = if show { x + width - 5 } else { x + width };
        if end - start < 5 {
            None
        } else {
            Some(GaugeBar { show_labels: show, bar_start: start as u16, bar_end: end as u16 })
        }
    }
}

/// The gauge bar for an area; the area lies within the screen's coordinates.
pub fn gauge_bar(x: u16, width: u16, height: u16, has_border: bool) -> (r: Option<GaugeBar>)
    requires
        x + width <= u16::MAX,
    ensures
        r == gauge_bar_spec(x as int, width as int, height as int, has_border),
        r matches Some(g) ==> g.bar_start + 5 <= g.bar_end <= x + width,
{
    if width < 8 || height == 0 {
        return None;
    }
    let show = width >= 15 && has_border;
    let start = if show { x + 3 } else { x };
    let end = if show { x + width - 5 } else { x + width };
    if end.saturating_sub(start) < 5 {
        None
    } else {
        Some(GaugeBar { show_labels: show, bar_start: start, bar_end: end })
    }
}

/// What a bar cell shows.
#[derive(Debug, Clone, Copy, PartialEq, Eq, Structural)]
pub enum GaugeCell {
    /// `█`: a filled cell.
    Full,
    /// `▌`: the last filled cell of a bar that is not full.
    Half,
    /// A blank cell.
    Empty,
}

/// The cell `rel_x` columns into a bar `bar_width` wide with `filled_width` cells filled.
pub open spec fn gauge_cell_spec(rel_x: int, filled_width: int, bar_width: int) -> GaugeCell {
    if rel_x < filled_width {
        if rel_x == filled_width - 1 && filled_width < bar_width {
            GaugeCell::Half
        } else {
            GaugeCell::Full
        }
    } else {
        GaugeCell::Empty
    }
}

/// The cell at a bar column.
pub fn gauge_cell(rel_x: u16, filled_width: u16, bar_width: u16) -> (c: GaugeCell)
    ensures
        c == gauge_cell_spec(rel_x as int, filled_width as int, bar_width as int),
{
    if rel_x < filled_width {
        if rel_x == filled_width - 1 && filled_width < bar_width {
            GaugeCell::Half
        } else {
            GaugeCell::Full
        }
    } else {
        GaugeCell::Empty
    }
}

/// The character of a bar cell.
pub fn gauge_cell_char(c: GaugeCell) -> (ch: char)
    ensures
        ch == match c {
            GaugeCell::Full => '█',
            GaugeCell::Half => '▌',
            GaugeCell::Empty => ' ',
        },
{
    match c {
        GaugeCell::Full => '█',
        GaugeCell::Half => '▌',
        GaugeCell::Empty => ' ',
    }
}

/// The marker in front of a process row: an open or closed triangle for a group, a
/// branch for a member, blanks otherwise.
pub open spec fn expand_icon_spec(has_children: bool, is_expanded: bool, depth: u8) -> Seq<char> {
    if has_children {
        if is_expanded {
            "▼ "@
        } else {
            "▶ "@
        }
    } else if depth > 0 {
        "  └ "@
    } else {
        "  "@
    }
}

/// The marker in front of a process row.
pub fn expand_icon(has_children: bool, is_expanded: bool, depth: u8) -> (s: &'static str)
    ensures
        s@ == expand_icon_spec(has_children, is_expanded, depth),
{
    if has_children {
        if is_expanded {
            "▼ "
        } else {
            "▶ "
        }
    } else if depth > 0 {
        "  └ "
    } else {
        "  "
    }
}

/// The row of the process table to highlight: the selection's place among the rows
/// scrolled into view.
pub fn table_selection(selected: usize, scroll_offset: usize) -> (r: usize)
    ensures
        r == (if selected >= scroll_offset { (selected - scroll_offset) as usize } else { 0usize }),
{
    selected.saturating_sub(scroll_offset)
}

/// Height of the theme list dialog: six rows more than the themes (counted as a `u16`),
/// at most twenty.
pub fn picker_content_height(theme_count: usize) -> (r: u16)
    requires
        (theme_count as u16) + 6 <= u16::MAX,
    ensures
        r == (if (theme_count as u16) + 6 < 20 { ((theme_count as u16) + 6) as u16 } else { 20u16 }),
{
    let h = theme_count as u16 + 6;
    if h < 20 {
        h
    } else {
        20
    }
}

/// The first theme shown in a list `visible_height` rows high so that `selected` is in
/// view: the list scrolls only once the selection passes the last row.
pub fn picker_scroll_offset(selected: usize, visible_height: usize) -> (r: usize)
    requires
        visible_height > 0 || selected < usize::MAX,
    ensures
        r == (if selected >= visible_height { (selected - visible_height + 1) as usize } else { 0usize }),
        visible_height > 0 ==> r <= selected < r + visible_height,
{
    if selected >= visible_height {
        selected - visible_height + 1
    } else {
        0
    }
}

/// The mark in front of the theme in use.
pub fn picker_prefix(is_current: bool) -> (s: &'static str)
    ensures
        s@ == (if is_current { "● "@ } else { "  "@ }),
{
    if is_current {
        "● "
    } else {
        "  "
    }
}

/// Blank columns between the status bar's hints and its refresh rate: the room left,
/// less one. The hints and the rate fit in the bar.
pub fn status_padding(width: u16, left_width: usize, right_width: usize) -> (r: usize)
    requires
        left_width + right_width <= width,
    ensures
        r == (if width - left_width - right_width >= 1 { width - left_width - right_width - 1 } else { 0 }),
{
    let room = width as usize - left_width - right_width;
    room.saturating_sub(1)
}

/// Blank columns between the title bar's name and the machine description.
pub fn title_padding(width: u16, left_width: usize, right_width: usize) -> (r: usize)
    ensures
        r == (if left_width + right_width <= width { width - (left_width + right_width) } else { 0 }),
{
    if left_width > usize::MAX - right_width {
        return 0;
    }
    (width as usize).saturating_sub(left_width + right_width)
}

/// Seconds the history graph spans: the points shown, at least a minute.
pub fn graph_span_secs(points: usize) -> (r: usize)
    ensures
        r == (if points > 60 { points } else { 60 }),
{
    if points > 60 {
        points
    } else {
        60
    }
}

/// The labels under a history chart of `data_len` points (one a second): the middle and
/// the left end of the span, as `-{n}s`.
pub fn time_axis_labels(data_len: usize) -> (r: (String, String))
    ensures
        r.0@ == "-"@ + decimal((if data_len > 60 { data_len } else { 60 }) as nat / 2) + "s"@,
        r.1@ == "-"@ + decimal((if data_len > 60 { data_len } else { 60 }) as nat) + "s"@,
{
    let span = graph_span_secs(data_len);
    let mut mid = "-".to_string();
    mid.append(u64_to_decimal((span / 2) as u64).as_str());
    mid.append("s");
    let mut end = "-".to_string();
    end.append(u64_to_decimal(span as u64).as_str());
    end.append("s");
    (mid, end)
}

} // verus!
