//! How the main screen divides its height between panels, and panel decorations.

use vstd::prelude::*;
use crate::data::PowerMode;

verus! {

/// Rows the battery panel needs at least.
pub const BATTERY_MIN: u16 = 10;
/// Rows the battery panel uses when there is room.
pub const BATTERY_PREFERRED: u16 = 12;
/// Rows of the power panel.
pub const POWER_MIN: u16 = 3;
/// Rows the graph needs at least.
pub const GRAPH_MIN: u16 = 8;
/// Rows the graph uses when there is room.
pub const GRAPH_PREFERRED: u16 = 10;
/// Rows the process list needs at least.
pub const PROCESSES_MIN: u16 = 6;

/// Heights of the main screen's panels.
#[derive(Debug, Clone, Copy, PartialEq, Eq, Structural)]
pub struct LayoutSizes {
    pub battery: u16,
    pub power: u16,
    pub graph: u16,
    pub processes_min: u16,
}

pub open spec fn min_int(a: int, b: int) -> int {
    if a < b { a } else { b }
}

pub open spec fn max_int(a: int, b: int) -> int {
    if a > b { a } else { b }
}

/// Rows all panels need at their minimum size.
pub open spec fn min_total(show_graph: bool) -> int {
    BATTERY_MIN + POWER_MIN + PROCESSES_MIN + if show_graph { GRAPH_MIN as int } else { 0 }
}

/// The panel heights for `h` rows of content. With room for every panel's minimum, the
/// battery panel grows first (up to its preferred size), then the graph. Without it,
/// rows go to the power panel, the battery panel (at least 5), the graph only when more
/// than ten rows remain, and the rest to the process list (at least 3).
pub open spec fn layout_spec(h: int, show_graph: bool) -> LayoutSizes {
    if h < min_total(show_graph) {
        let power = min_int(POWER_MIN as int, h);
        let r1 = h - power;
        let battery = max_int(min_int(BATTERY_MIN as int, r1), 5);
        let r2 = if r1 > battery { r1 - battery } else { 0 };
        let graph = if show_graph && r2 > PROCESSES_MIN + 4 {
            min_int(r2 - PROCESSES_MIN, GRAPH_MIN as int)
        } else {
            0
        };
        let r3 = r2 - graph;
        LayoutSizes {
            battery: battery as u16,
            power: power as u16,
            graph: graph as u16,
            processes_min: max_int(r3, 3) as u16,
        }
    } else {
        let extra = h - min_total(show_graph);
        let battery_extra = min_int(BATTERY_PREFERRED - BATTERY_MIN, extra);
        let remaining = extra - battery_extra;
        LayoutSizes {
            battery: (BATTERY_MIN + battery_extra) as u16,
            power: POWER_MIN,
            graph: if show_graph {
                (GRAPH_MIN + min_int(GRAPH_PREFERRED - GRAPH_MIN, remaining)) as u16
            } else {
                0
            },
            processes_min: PROCESSES_MIN,
        }
    }
}

impl LayoutSizes {
    /// Panel heights for `content_height` rows, with or without the graph.
    pub fn calculate(content_height: u16, show_graph: bool) -> (s: LayoutSizes)
        ensures
            s == layout_spec(content_height as int, show_graph),
            content_height >= min_total(show_graph) ==> s.battery + s.power + s.graph + s.processes_min
                <= content_height,
            !show_graph ==> s.graph == 0,
    {
        let graph_size: u16 = if show_graph { GRAPH_MIN } else { 0 };
        let graph_preferred: u16 = if show_graph { GRAPH_PREFERRED } else { 0 };
        let total = BATTERY_MIN + POWER_MIN + PROCESSES_MIN + graph_size;
        if content_height < total {
            let available = content_height;
            let power = if POWER_MIN < available { POWER_MIN } else { available };
            let remaining = available.saturating_sub(power);
            let capped = if BATTERY_MIN < remaining { BATTERY_MIN } else { remaining };
            let battery = if capped > 5 { capped } else { 5 };
            let remaining = remaining.saturating_sub(battery);
            let graph = if show_graph && remaining > PROCESSES_MIN + 4 {
                let g = remaining.saturating_sub(PROCESSES_MIN);
                if g < GRAPH_MIN { g } else { GRAPH_MIN }
            } else {
                0
            };
            let remaining = remaining.saturating_sub(graph);
            LayoutSizes {
                battery,
                power,
                graph,
                processes_min: if remaining > 3 { remaining } else { 3 },
            }
        } else {
            let extra = content_height.saturating_sub(total);
            let battery_extra = if BATTERY_PREFERRED - BATTERY_MIN < extra {
                BATTERY_PREFERRED - BATTERY_MIN
            } else {
                extra
            };
            let battery = BATTERY_MIN + battery_extra;
            let remaining_extra = extra.saturating_sub(battery_extra);
            let graph = if show_graph {
                let grow = graph_preferred - graph_size;
                graph_size + if grow < remaining_extra { grow } else { remaining_extra }
            } else {
                0
            };
            LayoutSizes { battery, power: POWER_MIN, graph, processes_min: PROCESSES_MIN }
        }
    }
}

/// Icon shown beside a power mode.
pub open spec fn power_mode_icon_spec(mode: PowerMode) -> Seq<char> {
    match mode {
        PowerMode::LowPower => "🐢"@,
        PowerMode::HighPerformance => "🚀"@,
        PowerMode::Automatic => "⚙️"@,
        PowerMode::Unknown => ""@,
    }
}

/// The icon for a power mode (none when unknown).
pub fn power_mode_icon(mode: PowerMode) -> (s: &'static str)
    ensures
        s@ == power_mode_icon_spec(mode),
{
    match mode {
        PowerMode::LowPower => "🐢",
        PowerMode::HighPerformance => "🚀",
        PowerMode::Automatic => "⚙️",
        PowerMode::Unknown => "",
    }
}

} // verus!
