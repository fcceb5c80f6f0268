//! Navigation and configuration state of the terminal UI, and how each user
//! action changes it.
//!
//! The decisions live here; the work that needs the outside world (saving the
//! configuration, killing a process, loading theme files) is handed back to
//! the caller as an [`Effect`].

use vstd::prelude::*;
use crate::config::{theme_mode_next, GraphMetric, ThemeMode};

verus! {

/// A user action, decoded from a key press.
#[derive(Debug, Clone, Copy, PartialEq, Eq, Structural)]
pub enum Action {
    Quit,
    ToggleHelp,
    ToggleAbout,
    ToggleHistory,
    ToggleConfig,
    SelectNext,
    SelectPrevious,
    ToggleExpand,
    KillProcess,
    ConfirmKill,
    CancelKill,
    CycleAppearance,
    OpenThemePicker,
    CloseThemePicker,
    SelectTheme,
    TogglePreviewAppearance,
    ToggleGraphView,
    ToggleMerge,
    PageUp,
    PageDown,
    Home,
    End,
    ExitSelectionMode,
    CycleSortColumn,
    ToggleSortDirection,
    IncreaseRefreshRate,
    DecreaseRefreshRate,
    ConfigToggleValue,
    ConfigIncrement,
    ConfigDecrement,
    ConfigRevert,
    ConfigDefaults,
    NoOp,
}

/// Refresh interval bounds and step, in milliseconds.
pub const MIN_REFRESH_MS: u64 = 500;
pub const MAX_REFRESH_MS: u64 = 10000;
pub const REFRESH_STEP_MS: u64 = 500;

/// Process-table rows visible at once, used to keep the selection in view.
pub const VISIBLE_ROWS: usize = 15;

/// Number of rows in the configuration editor.
pub const CONFIG_ITEM_COUNT: usize = 8;

/// Column the process table is sorted by.
#[derive(Debug, Clone, Copy, PartialEq, Eq, Structural)]
pub enum SortColumn {
    Pid,
    Name,
    Cpu,
    Memory,
    Energy,
}

/// The column after `c` in the cycling order Pid, Name, Cpu, Memory, Energy.
pub open spec fn sort_column_next(c: SortColumn) -> SortColumn {
    match c {
        SortColumn::Pid => SortColumn::Name,
        SortColumn::Name => SortColumn::Cpu,
        SortColumn::Cpu => SortColumn::Memory,
        SortColumn::Memory => SortColumn::Energy,
        SortColumn::Energy => SortColumn::Pid,
    }
}

impl SortColumn {
    /// The next column in the cycling order.
    pub fn next(self) -> (r: SortColumn)
        ensures
            r == sort_column_next(self),
    {
        match self {
            SortColumn::Pid => SortColumn::Name,
            SortColumn::Name => SortColumn::Cpu,
            SortColumn::Cpu => SortColumn::Memory,
            SortColumn::Memory => SortColumn::Energy,
            SortColumn::Energy => SortColumn::Pid,
        }
    }

    /// The default sort column.
    pub fn default_column() -> (r: SortColumn)
        ensures
            r == SortColumn::Energy,
    {
        SortColumn::Energy
    }
}

/// Cycling the sort column five times returns to the start.
pub proof fn lemma_sort_column_cycle(c: SortColumn)
    ensures
        sort_column_next(sort_column_next(sort_column_next(sort_column_next(sort_column_next(c)))))
            == c,
{
}

/// Which screen or dialog is shown.
#[derive(Debug, Clone, Copy, PartialEq, Eq, Structural)]
pub enum AppView {
    Main,
    Help,
    About,
    History,
    KillConfirm,
    Config,
    ThemePicker,
}

/// The persisted user settings that the UI edits (every setting except the
/// energy threshold and the process exclusion list, which the caller keeps).
#[derive(Debug, Clone, Copy, PartialEq, Eq, Structural)]
pub struct Settings {
    pub theme: ThemeMode,
    pub refresh_ms: u64,
    pub low_power_mode: bool,
    pub show_graph: bool,
    pub graph_metric: GraphMetric,
    pub process_count: usize,
    pub merge_mode: bool,
}

/// The default settings.
pub open spec fn default_settings() -> Settings {
    Settings {
        theme: ThemeMode::Auto,
        refresh_ms: 2000,
        low_power_mode: false,
        show_graph: true,
        graph_metric: GraphMetric::Power,
        process_count: 50,
        merge_mode: true,
    }
}

impl Settings {
    /// The default settings: automatic appearance, 2 s refresh, graph shown,
    /// power graph, 50 processes, merging on.
    pub fn defaults() -> (r: Settings)
        ensures
            r == default_settings(),
    {
        Settings {
            theme: ThemeMode::Auto,
            refresh_ms: 2000,
            low_power_mode: false,
            show_graph: true,
            graph_metric: GraphMetric::Power,
            process_count: 50,
            merge_mode: true,
        }
    }
}

/// The process row under the selection, as the caller sees it.
#[derive(Debug, Clone, Copy, PartialEq, Eq, Structural)]
pub struct ProcessRef {
    pub pid: u32,
    pub has_children: bool,
    pub is_killable: bool,
}

/// What the caller knows when an action arrives: how many process rows are
/// visible (from the frozen list when selecting), the row at the selected
/// index if any, and whether the system appearance is dark.
#[derive(Debug, Clone, Copy, PartialEq, Eq, Structural)]
pub struct ActionContext {
    pub visible_count: usize,
    pub selected: Option<ProcessRef>,
    pub is_dark_mode: bool,
}

/// Work the caller performs after an action.
#[derive(Debug, Clone, Copy, PartialEq, Eq, Structural)]
pub enum Effect {
    Nothing,
    /// Persist the settings.
    SaveConfig,
    /// Keep the current process list fixed while selecting.
    FreezeProcesses,
    /// Drop the fixed process list.
    UnfreezeProcesses,
    /// Expand or collapse the group of this process.
    ToggleExpanded(u32),
    /// Remember this process for the kill dialog.
    AskKill(u32),
    /// Kill this process.
    Kill(u32),
    /// Load the theme list, then report it with `theme_list_loaded`.
    LoadThemes,
    /// Use the theme at this index of the loaded list (and persist it).
    ApplyTheme(usize),
    /// Switch the history graph between battery and power.
    ToggleHistoryMetric,
    /// Remember the caller-held settings for a later revert.
    SnapshotConfig,
    /// Forget the remembered caller-held settings.
    DropConfigSnapshot,
    /// Raise the energy threshold by one step (and persist it).
    IncreaseEnergyThreshold,
    /// Lower the energy threshold by one step (and persist it).
    DecreaseEnergyThreshold,
    /// Restore the remembered caller-held settings (and persist them).
    RevertConfig,
    /// Reset the caller-held settings to their defaults (and persist them).
    ResetConfig,
}

/// Result of an action: whether the UI keeps running, and the work to do.
#[derive(Debug, Clone, Copy, PartialEq, Eq, Structural)]
pub struct ActionOutcome {
    pub keep_running: bool,
    pub effect: Effect,
}

/// Settings remembered when the configuration editor opens.
#[derive(Debug, Clone, Copy, PartialEq, Eq, Structural)]
pub struct ConfigSnapshot {
    pub settings: Settings,
    pub refresh_ms: u64,
    pub merge_mode: bool,
}

/// Navigation and configuration state of the UI.
#[derive(Debug, Clone, Copy)]
pub struct AppState {
    pub view: AppView,
    pub selected_process_index: usize,
    pub process_scroll_offset: usize,
    pub selection_mode: bool,
    pub sort_column: SortColumn,
    pub sort_ascending: bool,
    pub merge_mode: bool,
    pub refresh_ms: u64,
    pub refresh_from_cli: bool,
    pub config_selected_item: usize,
    pub settings: Settings,
    pub config_snapshot: Option<ConfigSnapshot>,
    pub theme_count: usize,
    pub theme_picker_index: usize,
    pub preview_theme: Option<usize>,
    pub preview_appearance: Option<bool>,
    pub theme_picker_from_config: bool,
    pub kill_target: Option<u32>,
}

/// The scroll offset after moving the selection to `sel`: the smallest
/// change that keeps `sel` among the visible rows.
pub open spec fn scrolled(sel: usize, offset: usize) -> usize {
    if sel < offset {
        sel
    } else if sel >= offset + VISIBLE_ROWS {
        (sel - VISIBLE_ROWS + 1) as usize
    } else {
        offset
    }
}

/// The selected row is on screen.
pub open spec fn selection_visible(s: AppState) -> bool {
    s.process_scroll_offset <= s.selected_process_index < s.process_scroll_offset + VISIBLE_ROWS
}

/// Whether an action can be taken without overflowing a counter.
pub open spec fn action_in_range(s: AppState, a: Action, ctx: ActionContext) -> bool {
    &&& (a == Action::IncreaseRefreshRate || (a == Action::ConfigIncrement
        && s.config_selected_item == 2)) ==> s.refresh_ms <= u64::MAX - REFRESH_STEP_MS
    &&& (a == Action::ConfigIncrement && s.config_selected_item == 6) ==> s.settings.process_count
        <= usize::MAX - 10
    &&& (a == Action::PageDown && ctx.visible_count > 0) ==> s.selected_process_index <= usize::MAX
        - 10
}

/// The appearance mode moved to the next one in the cycle Auto, Dark, Light.
pub open spec fn cycle_appearance(s: AppState) -> AppState {
    AppState { settings: Settings { theme: theme_mode_next(s.settings.theme), ..s.settings }, ..s }
}

/// Closing the theme picker returns to where it was opened from.
pub open spec fn close_picker(s: AppState) -> AppState {
    AppState {
        preview_theme: None,
        preview_appearance: None,
        theme_picker_from_config: false,
        view: if s.theme_picker_from_config {
            AppView::Config
        } else {
            AppView::Main
        },
        ..s
    }
}

/// Opening the theme picker; the index is set once the list is loaded.
pub open spec fn open_picker(s: AppState, from_config: bool) -> AppState {
    AppState {
        theme_count: 0,
        theme_picker_index: 0,
        preview_theme: None,
        preview_appearance: None,
        theme_picker_from_config: from_config,
        view: AppView::ThemePicker,
        ..s
    }
}

/// Entering selection mode freezes the process list.
pub open spec fn entered(s: AppState) -> (AppState, Effect) {
    if s.selection_mode {
        (s, Effect::Nothing)
    } else {
        (AppState { selection_mode: true, ..s }, Effect::FreezeProcesses)
    }
}

/// A new selection index, with the scroll offset following it.
pub open spec fn select(s: AppState, sel: usize) -> AppState {
    AppState {
        selected_process_index: sel,
        process_scroll_offset: scrolled(sel, s.process_scroll_offset),
        ..s
    }
}

/// The refresh interval one step faster/slower, clamped to the bounds.
pub open spec fn refresh_up(r: u64) -> u64 {
    if r + REFRESH_STEP_MS <= MAX_REFRESH_MS {
        (r + REFRESH_STEP_MS) as u64
    } else {
        MAX_REFRESH_MS
    }
}

pub open spec fn refresh_down(r: u64) -> u64 {
    let d = if r >= REFRESH_STEP_MS {
        (r - REFRESH_STEP_MS) as u64
    } else {
        0
    };
    if d >= MIN_REFRESH_MS {
        d
    } else {
        MIN_REFRESH_MS
    }
}

/// A new refresh interval; unless it came from the command line it is also
/// stored in the settings and persisted.
pub open spec fn with_refresh(s: AppState, r: u64) -> (AppState, Effect) {
    if s.refresh_from_cli {
        (AppState { refresh_ms: r, ..s }, Effect::Nothing)
    } else {
        (
            AppState { refresh_ms: r, settings: Settings { refresh_ms: r, ..s.settings }, ..s },
            Effect::SaveConfig,
        )
    }
}

/// The state and effect of an action, keeping the UI running.
pub open spec fn step_spec(s: AppState, a: Action, ctx: ActionContext) -> (AppState, Effect) {
    match a {
        Action::Quit | Action::NoOp => (s, Effect::Nothing),
        Action::ToggleHelp => (
            AppState {
                view: if s.view == AppView::Help {
                    AppView::Main
                } else {
                    AppView::Help
                },
                ..s
            },
            Effect::Nothing,
        ),
        Action::ToggleAbout => (
            AppState {
                view: if s.view == AppView::About {
                    AppView::Main
                } else {
                    AppView::About
                },
                ..s
            },
            Effect::Nothing,
        ),
        Action::ToggleHistory => (
            AppState {
                view: if s.view == AppView::History {
                    AppView::Main
                } else {
                    AppView::History
                },
                ..s
            },
            Effect::Nothing,
        ),
        Action::ToggleConfig => if s.view == AppView::Config {
            (AppState { config_snapshot: None, view: AppView::Main, ..s }, Effect::DropConfigSnapshot)
        } else {
            (
                AppState {
                    config_snapshot: Some(
                        ConfigSnapshot { settings: s.settings, refresh_ms: s.refresh_ms, merge_mode: s.merge_mode },
                    ),
                    view: AppView::Config,
                    ..s
                },
                Effect::SnapshotConfig,
            )
        },
        Action::SelectPrevious => if s.view == AppView::Config {
            if s.config_selected_item > 0 {
                (
                    AppState { config_selected_item: (s.config_selected_item - 1) as usize, ..s },
                    Effect::Nothing,
                )
            } else {
                (s, Effect::Nothing)
            }
        } else if s.view == AppView::ThemePicker {
            if s.theme_picker_index > 0 {
                let i = (s.theme_picker_index - 1) as usize;
                (
                    AppState {
                        theme_picker_index: i,
                        preview_theme: if i < s.theme_count {
                            Some(i)
                        } else {
                            s.preview_theme
                        },
                        ..s
                    },
                    Effect::Nothing,
                )
            } else {
                (s, Effect::Nothing)
            }
        } else {
            let (e, eff) = entered(s);
            if e.selected_process_index > 0 {
                (select(e, (e.selected_process_index - 1) as usize), eff)
            } else {
                (e, eff)
            }
        },
        Action::SelectNext => if s.view == AppView::Config {
            if s.config_selected_item < CONFIG_ITEM_COUNT - 1 {
                (
                    AppState { config_selected_item: (s.config_selected_item + 1) as usize, ..s },
                    Effect::Nothing,
                )
            } else {
                (s, Effect::Nothing)
            }
        } else if s.view == AppView::ThemePicker {
            if s.theme_count > 0 && s.theme_picker_index < s.theme_count - 1 {
                let i = (s.theme_picker_index + 1) as usize;
                (AppState { theme_picker_index: i, preview_theme: Some(i), ..s }, Effect::Nothing)
            } else {
                (s, Effect::Nothing)
            }
        } else {
            let (e, eff) = entered(s);
            if ctx.visible_count > 0 && e.selected_process_index < ctx.visible_count - 1 {
                (select(e, (e.selected_process_index + 1) as usize), eff)
            } else {
                (e, eff)
            }
        },
        Action::ExitSelectionMode => (
            AppState {
                selection_mode: false,
                selected_process_index: 0,
                process_scroll_offset: 0,
                ..s
            },
            Effect::UnfreezeProcesses,
        ),
        Action::ToggleExpand => match ctx.selected {
            Some(p) => if p.has_children {
                (s, Effect::ToggleExpanded(p.pid))
            } else {
                (s, Effect::Nothing)
            },
            None => (s, Effect::Nothing),
        },
        Action::KillProcess => match ctx.selected {
            Some(p) => if p.is_killable {
                (
                    AppState { kill_target: Some(p.pid), view: AppView::KillConfirm, ..s },
                    Effect::AskKill(p.pid),
                )
            } else {
                (s, Effect::Nothing)
            },
            None => (s, Effect::Nothing),
        },
        Action::ConfirmKill => (
            AppState { kill_target: None, view: AppView::Main, ..s },
            match s.kill_target {
                Some(pid) => Effect::Kill(pid),
                None => Effect::Nothing,
            },
        ),
        Action::CancelKill => (
            AppState { kill_target: None, view: AppView::Main, ..s },
            Effect::Nothing,
        ),
        Action::CycleAppearance => (cycle_appearance(s), Effect::SaveConfig),
        Action::OpenThemePicker => (open_picker(s, false), Effect::LoadThemes),
        Action::CloseThemePicker => (close_picker(s), Effect::Nothing),
        Action::SelectTheme => (
            close_picker(s),
            if s.theme_picker_index < s.theme_count {
                Effect::ApplyTheme(s.theme_picker_index)
            } else {
                Effect::Nothing
            },
        ),
        Action::TogglePreviewAppearance => (
            AppState {
                preview_appearance: Some(
                    !match s.preview_appearance {
                        Some(d) => d,
                        None => ctx.is_dark_mode,
                    },
                ),
                ..s
            },
            Effect::Nothing,
        ),
        Action::ToggleGraphView => (s, Effect::ToggleHistoryMetric),
        Action::ToggleMerge => (AppState { merge_mode: !s.merge_mode, ..s }, Effect::Nothing),
        Action::PageUp => {
            let (e, eff) = entered(s);
            (
                select(
                    e,
                    if e.selected_process_index >= 10 {
                        (e.selected_process_index - 10) as usize
                    } else {
                        0
                    },
                ),
                eff,
            )
        },
        Action::PageDown => {
            let (e, eff) = entered(s);
            if ctx.visible_count > 0 {
                let target = e.selected_process_index + 10;
                (
                    select(
                        e,
                        if target <= ctx.visible_count - 1 {
                            target as usize
                        } else {
                            (ctx.visible_count - 1) as usize
                        },
                    ),
                    eff,
                )
            } else {
                (e, eff)
            }
        },
        Action::Home => {
            let (e, eff) = entered(s);
            (AppState { selected_process_index: 0, process_scroll_offset: 0, ..e }, eff)
        },
        Action::End => {
            let (e, eff) = entered(s);
            if ctx.visible_count > 0 {
                (select(e, (ctx.visible_count - 1) as usize), eff)
            } else {
                (e, eff)
            }
        },
        Action::CycleSortColumn => (
            AppState { sort_column: sort_column_next(s.sort_column), ..s },
            Effect::Nothing,
        ),
        Action::ToggleSortDirection => (
            AppState { sort_ascending: !s.sort_ascending, ..s },
            Effect::Nothing,
        ),
        Action::IncreaseRefreshRate => with_refresh(s, refresh_up(s.refresh_ms)),
        Action::DecreaseRefreshRate => with_refresh(s, refresh_down(s.refresh_ms)),
        Action::ConfigToggleValue => {
            let item = s.config_selected_item;
            if item == 0 {
                (open_picker(s, true), Effect::LoadThemes)
            } else if item == 1 {
                (cycle_appearance(s), Effect::SaveConfig)
            } else if item == 3 {
                (
                    AppState {
                        settings: Settings { low_power_mode: !s.settings.low_power_mode, ..s.settings },
                        ..s
                    },
                    Effect::SaveConfig,
                )
            } else if item == 4 {
                (
                    AppState {
                        settings: Settings { show_graph: !s.settings.show_graph, ..s.settings },
                        ..s
                    },
                    Effect::SaveConfig,
                )
            } else if item == 5 {
                (
                    AppState {
                        merge_mode: !s.merge_mode,
                        settings: Settings { merge_mode: !s.merge_mode, ..s.settings },
                        ..s
                    },
                    Effect::SaveConfig,
                )
            } else {
                (s, Effect::Nothing)
            }
        },
        Action::ConfigIncrement => {
            let item = s.config_selected_item;
            if item == 0 {
                (open_picker(s, true), Effect::LoadThemes)
            } else if item == 1 {
                (cycle_appearance(s), Effect::SaveConfig)
            } else if item == 2 {
                with_refresh(s, refresh_up(s.refresh_ms))
            } else if item == 6 {
                (
                    AppState {
                        settings: Settings {
                            process_count: if s.settings.process_count + 10 <= 200 {
                                (s.settings.process_count + 10) as usize
                            } else {
                                200
                            },
                            ..s.settings
                        },
                        ..s
                    },
                    Effect::SaveConfig,
                )
            } else if item == 7 {
                (s, Effect::IncreaseEnergyThreshold)
            } else {
                (s, Effect::Nothing)
            }
        },
        Action::ConfigDecrement => {
            let item = s.config_selected_item;
            if item == 0 {
                (open_picker(s, true), Effect::LoadThemes)
            } else if item == 1 {
                (cycle_appearance(s), Effect::SaveConfig)
            } else if item == 2 {
                with_refresh(s, refresh_down(s.refresh_ms))
            } else if item == 6 {
                (
                    AppState {
                        settings: Settings {
                            process_count: if s.settings.process_count >= 20 {
                                (s.settings.process_count - 10) as usize
                            } else {
                                10
                            },
                            ..s.settings
                        },
                        ..s
                    },
                    Effect::SaveConfig,
                )
            } else if item == 7 {
                (s, Effect::DecreaseEnergyThreshold)
            } else {
                (s, Effect::Nothing)
            }
        },
        Action::ConfigRevert => match s.config_snapshot {
            Some(snap) => (
                AppState { settings: snap.settings, refresh_ms: snap.refresh_ms, merge_mode: snap.merge_mode, ..s },
                Effect::RevertConfig,
            ),
            None => (s, Effect::Nothing),
        },
        Action::ConfigDefaults => (
            AppState {
                settings: default_settings(),
                refresh_ms: default_settings().refresh_ms,
                merge_mode: default_settings().merge_mode,
                ..s
            },
            Effect::ResetConfig,
        ),
    }
}

impl AppState {
    /// The state of a freshly started UI for the given settings.
    pub fn new(settings: Settings, refresh_from_cli: bool) -> (r: AppState)
        ensures
            r.view == AppView::Main,
            r.selected_process_index == 0,
            r.process_scroll_offset == 0,
            !r.selection_mode,
            r.sort_column == SortColumn::Energy,
            !r.sort_ascending,
            r.merge_mode == settings.merge_mode,
            r.refresh_ms == settings.refresh_ms,
            r.refresh_from_cli == refresh_from_cli,
            r.config_selected_item == 0,
            r.settings == settings,
            r.config_snapshot is None,
            r.theme_count == 0,
            r.theme_picker_index == 0,
            r.preview_theme is None,
            r.preview_appearance is None,
            !r.theme_picker_from_config,
            r.kill_target is None,
    {
        AppState {
            view: AppView::Main,
            selected_process_index: 0,
            process_scroll_offset: 0,
            selection_mode: false,
            sort_column: SortColumn::default_column(),
            sort_ascending: false,
            merge_mode: settings.merge_mode,
            refresh_ms: settings.refresh_ms,
            refresh_from_cli,
            config_selected_item: 0,
            settings,
            config_snapshot: None,
            theme_count: 0,
            theme_picker_index: 0,
            preview_theme: None,
            preview_appearance: None,
            theme_picker_from_config: false,
            kill_target: None,
        }
    }

    /// The number of rows in the configuration editor.
    pub fn config_item_count(&self) -> (r: usize)
        ensures
            r == CONFIG_ITEM_COUNT,
    {
        CONFIG_ITEM_COUNT
    }

    /// Keeps the selected row on screen after the selection moved.
    fn adjust_scroll(&mut self)
        ensures
            *final(self) == (AppState {
                process_scroll_offset: scrolled(
                    old(self).selected_process_index,
                    old(self).process_scroll_offset,
                ),
                ..*old(self)
            }),
    {
        if self.selected_process_index < self.process_scroll_offset {
            self.process_scroll_offset = self.selected_process_index;
        } else if self.selected_process_index - self.process_scroll_offset >= VISIBLE_ROWS {
            self.process_scroll_offset = self.selected_process_index - VISIBLE_ROWS + 1;
        }
    }

    fn enter_selection_mode(&mut self) -> (eff: Effect)
        ensures
            (*final(self), eff) == entered(*old(self)),
    {
        if !self.selection_mode {
            self.selection_mode = true;
            Effect::FreezeProcesses
        } else {
            Effect::Nothing
        }
    }

    fn open_theme_picker(&mut self, from_config: bool)
        ensures
            *final(self) == open_picker(*old(self), from_config),
    {
        self.theme_count = 0;
        self.theme_picker_index = 0;
        self.preview_theme = None;
        self.preview_appearance = None;
        self.theme_picker_from_config = from_config;
        self.view = AppView::ThemePicker;
    }

    fn close_theme_picker(&mut self)
        ensures
            *final(self) == close_picker(*old(self)),
    {
        let return_to_config = self.theme_picker_from_config;
        self.preview_theme = None;
        self.preview_appearance = None;
        self.theme_picker_from_config = false;
        self.view = if return_to_config {
            AppView::Config
        } else {
            AppView::Main
        };
    }

    fn set_refresh(&mut self, r: u64) -> (eff: Effect)
        ensures
            (*final(self), eff) == with_refresh(*old(self), r),
    {
        self.refresh_ms = r;
        if !self.refresh_from_cli {
            self.settings.refresh_ms = r;
            Effect::SaveConfig
        } else {
            Effect::Nothing
        }
    }

    /// Records the theme list the caller loaded after [`Effect::LoadThemes`]:
    /// its length and the position of the current theme in it.
    pub fn theme_list_loaded(&mut self, count: usize, current_position: usize)
        ensures
            *final(self) == (AppState {
                theme_count: count,
                theme_picker_index: current_position,
                ..*old(self)
            }),
    {
        self.theme_count = count;
        self.theme_picker_index = current_position;
    }

    fn act_no_op(&mut self, ctx: ActionContext) -> (eff: Effect)
        requires
            action_in_range(*old(self), Action::NoOp, ctx),
        ensures
            (*final(self), eff) == step_spec(*old(self), Action::NoOp, ctx),
    {
        Effect::Nothing
    }

    fn act_toggle_help(&mut self, ctx: ActionContext) -> (eff: Effect)
        requires
            action_in_range(*old(self), Action::ToggleHelp, ctx),
        ensures
            (*final(self), eff) == step_spec(*old(self), Action::ToggleHelp, ctx),
    {
        self.view = match self.view {
            AppView::Help => AppView::Main,
            _ => AppView::Help,
        };
        Effect::Nothing
    }

    fn act_toggle_about(&mut self, ctx: ActionContext) -> (eff: Effect)
        requires
            action_in_range(*old(self), Action::ToggleAbout, ctx),
        ensures
            (*final(self), eff) == step_spec(*old(self), Action::ToggleAbout, ctx),
    {
        self.view = match self.view {
            AppView::About => AppView::Main,
            _ => AppView::About,
        };
        Effect::Nothing
    }

    fn act_toggle_history(&mut self, ctx: ActionContext) -> (eff: Effect)
        requires
            action_in_range(*old(self), Action::ToggleHistory, ctx),
        ensures
            (*final(self), eff) == step_spec(*old(self), Action::ToggleHistory, ctx),
    {
        self.view = match self.view {
            AppView::History => AppView::Main,
            _ => AppView::History,
        };
        Effect::Nothing
    }

    fn act_toggle_config(&mut self, ctx: ActionContext) -> (eff: Effect)
        requires
            action_in_range(*old(self), Action::ToggleConfig, ctx),
        ensures
            (*final(self), eff) == step_spec(*old(self), Action::ToggleConfig, ctx),
    {
        match self.view {
            AppView::Config => {
                self.config_snapshot = None;
                self.view = AppView::Main;
                Effect::DropConfigSnapshot
            },
            _ => {
                self.config_snapshot = Some(
                    ConfigSnapshot {
                        settings: self.settings,
                        refresh_ms: self.refresh_ms,
                        merge_mode: self.merge_mode,
                    },
                );
                self.view = AppView::Config;
                Effect::SnapshotConfig
            },
        }
    }

    fn act_select_previous(&mut self, ctx: ActionContext) -> (eff: Effect)
        requires
            action_in_range(*old(self), Action::SelectPrevious, ctx),
        ensures
            (*final(self), eff) == step_spec(*old(self), Action::SelectPrevious, ctx),
    {
        if self.view == AppView::Config {
            if self.config_selected_item > 0 {
                self.config_selected_item = self.config_selected_item - 1;
            }
            Effect::Nothing
        } else if self.view == AppView::ThemePicker {
            if self.theme_picker_index > 0 {
                self.theme_picker_index = self.theme_picker_index - 1;
                if self.theme_picker_index < self.theme_count {
                    self.preview_theme = Some(self.theme_picker_index);
                }
            }
            Effect::Nothing
        } else {
            let eff = self.enter_selection_mode();
            if self.selected_process_index > 0 {
                self.selected_process_index = self.selected_process_index - 1;
                self.adjust_scroll();
            }
            eff
        }
    }

    fn act_select_next(&mut self, ctx: ActionContext) -> (eff: Effect)
        requires
            action_in_range(*old(self), Action::SelectNext, ctx),
        ensures
            (*final(self), eff) == step_spec(*old(self), Action::SelectNext, ctx),
    {
        if self.view == AppView::Config {
            if self.config_selected_item < self.config_item_count() - 1 {
                self.config_selected_item = self.config_selected_item + 1;
            }
            Effect::Nothing
        } else if self.view == AppView::ThemePicker {
            if self.theme_picker_index < self.theme_count.saturating_sub(1) {
                self.theme_picker_index = self.theme_picker_index + 1;
                self.preview_theme = Some(self.theme_picker_index);
            }
            Effect::Nothing
        } else {
            let eff = self.enter_selection_mode();
            let visible_count = ctx.visible_count;
            if visible_count > 0 && self.selected_process_index < visible_count - 1 {
                self.selected_process_index = self.selected_process_index + 1;
                self.adjust_scroll();
            }
            eff
        }
    }

    fn act_exit_selection_mode(&mut self, ctx: ActionContext) -> (eff: Effect)
        requires
            action_in_range(*old(self), Action::ExitSelectionMode, ctx),
        ensures
            (*final(self), eff) == step_spec(*old(self), Action::ExitSelectionMode, ctx),
    {
        self.selection_mode = false;
        self.selected_process_index = 0;
        self.process_scroll_offset = 0;
        Effect::UnfreezeProcesses
    }

    fn act_toggle_expand(&mut self, ctx: ActionContext) -> (eff: Effect)
        requires
            action_in_range(*old(self), Action::ToggleExpand, ctx),
        ensures
            (*final(self), eff) == step_spec(*old(self), Action::ToggleExpand, ctx),
    {
        match ctx.selected {
            Some(p) => if p.has_children {
                Effect::ToggleExpanded(p.pid)
            } else {
                Effect::Nothing
            },
            None => Effect::Nothing,
        }
    }

    fn act_kill_process(&mut self, ctx: ActionContext) -> (eff: Effect)
        requires
            action_in_range(*old(self), Action::KillProcess, ctx),
        ensures
            (*final(self), eff) == step_spec(*old(self), Action::KillProcess, ctx),
    {
        match ctx.selected {
            Some(p) => if p.is_killable {
                self.kill_target = Some(p.pid);
                self.view = AppView::KillConfirm;
                Effect::AskKill(p.pid)
            } else {
                Effect::Nothing
            },
            None => Effect::Nothing,
        }
    }

    fn act_confirm_kill(&mut self, ctx: ActionContext) -> (eff: Effect)
        requires
            action_in_range(*old(self), Action::ConfirmKill, ctx),
        ensures
            (*final(self), eff) == step_spec(*old(self), Action::ConfirmKill, ctx),
    {
        let eff = match self.kill_target {
            Some(pid) => Effect::Kill(pid),
            None => Effect::Nothing,
        };
        self.kill_target = None;
        self.view = AppView::Main;
        eff
    }

    fn act_cancel_kill(&mut self, ctx: ActionContext) -> (eff: Effect)
        requires
            action_in_range(*old(self), Action::CancelKill, ctx),
        ensures
            (*final(self), eff) == step_spec(*old(self), Action::CancelKill, ctx),
    {
        self.kill_target = None;
        self.view = AppView::Main;
        Effect::Nothing
    }

    fn act_cycle_appearance(&mut self, ctx: ActionContext) -> (eff: Effect)
        requires
            action_in_range(*old(self), Action::CycleAppearance, ctx),
        ensures
            (*final(self), eff) == step_spec(*old(self), Action::CycleAppearance, ctx),
    {
        self.settings.theme = self.settings.theme.next();
        Effect::SaveConfig
    }

    fn act_open_theme_picker(&mut self, ctx: ActionContext) -> (eff: Effect)
        requires
            action_in_range(*old(self), Action::OpenThemePicker, ctx),
        ensures
            (*final(self), eff) == step_spec(*old(self), Action::OpenThemePicker, ctx),
    {
        self.open_theme_picker(false);
        Effect::LoadThemes
    }

    fn act_close_theme_picker(&mut self, ctx: ActionContext) -> (eff: Effect)
        requires
            action_in_range(*old(self), Action::CloseThemePicker, ctx),
        ensures
            (*final(self), eff) == step_spec(*old(self), Action::CloseThemePicker, ctx),
    {
        self.close_theme_picker();
        Effect::Nothing
    }

    fn act_select_theme(&mut self, ctx: ActionContext) -> (eff: Effect)
        requires
            action_in_range(*old(self), Action::SelectTheme, ctx),
        ensures
            (*final(self), eff) == step_spec(*old(self), Action::SelectTheme, ctx),
    {
        let eff = if self.theme_picker_index < self.theme_count {
            Effect::ApplyTheme(self.theme_picker_index)
        } else {
            Effect::Nothing
        };
        self.close_theme_picker();
        eff
    }

    fn act_toggle_preview_appearance(&mut self, ctx: ActionContext) -> (eff: Effect)
        requires
            action_in_range(*old(self), Action::TogglePreviewAppearance, ctx),
        ensures
            (*final(self), eff) == step_spec(*old(self), Action::TogglePreviewAppearance, ctx),
    {
        let current = match self.preview_appearance {
            Some(d) => d,
            None => ctx.is_dark_mode,
        };
        self.preview_appearance = Some(!current);
        Effect::Nothing
    }

    fn act_toggle_graph_view(&mut self, ctx: ActionContext) -> (eff: Effect)
        requires
            action_in_range(*old(self), Action::ToggleGraphView, ctx),
        ensures
            (*final(self), eff) == step_spec(*old(self), Action::ToggleGraphView, ctx),
    {
Effect::ToggleHistoryMetric
    }

    fn act_toggle_merge(&mut self, ctx: ActionContext) -> (eff: Effect)
        requires
            action_in_range(*old(self), Action::ToggleMerge, ctx),
        ensures
            (*final(self), eff) == step_spec(*old(self), Action::ToggleMerge, ctx),
    {
        self.merge_mode = !self.merge_mode;
        Effect::Nothing
    }

    fn act_page_up(&mut self, ctx: ActionContext) -> (eff: Effect)
        requires
            action_in_range(*old(self), Action::PageUp, ctx),
        ensures
            (*final(self), eff) == step_spec(*old(self), Action::PageUp, ctx),
    {
        let eff = self.enter_selection_mode();
        self.selected_process_index = self.selected_process_index.saturating_sub(10);
        self.adjust_scroll();
        eff
    }

    fn act_page_down(&mut self, ctx: ActionContext) -> (eff: Effect)
        requires
            action_in_range(*old(self), Action::PageDown, ctx),
        ensures
            (*final(self), eff) == step_spec(*old(self), Action::PageDown, ctx),
    {
        let eff = self.enter_selection_mode();
        let visible_count = ctx.visible_count;
        if visible_count > 0 {
            let target = self.selected_process_index + 10;
            self.selected_process_index = if target <= visible_count - 1 {
                target
            } else {
                visible_count - 1
            };
            self.adjust_scroll();
        }
        eff
    }

    fn act_home(&mut self, ctx: ActionContext) -> (eff: Effect)
        requires
            action_in_range(*old(self), Action::Home, ctx),
        ensures
            (*final(self), eff) == step_spec(*old(self), Action::Home, ctx),
    {
        let eff = self.enter_selection_mode();
        self.selected_process_index = 0;
        self.process_scroll_offset = 0;
        eff
    }

    fn act_end(&mut self, ctx: ActionContext) -> (eff: Effect)
        requires
            action_in_range(*old(self), Action::End, ctx),
        ensures
            (*final(self), eff) == step_spec(*old(self), Action::End, ctx),
    {
        let eff = self.enter_selection_mode();
        let visible_count = ctx.visible_count;
        if visible_count > 0 {
            self.selected_process_index = visible_count - 1;
            self.adjust_scroll();
        }
        eff
    }

    fn act_cycle_sort_column(&mut self, ctx: ActionContext) -> (eff: Effect)
        requires
            action_in_range(*old(self), Action::CycleSortColumn, ctx),
        ensures
            (*final(self), eff) == step_spec(*old(self), Action::CycleSortColumn, ctx),
    {
        self.sort_column = self.sort_column.next();
        Effect::Nothing
    }

    fn act_toggle_sort_direction(&mut self, ctx: ActionContext) -> (eff: Effect)
        requires
            action_in_range(*old(self), Action::ToggleSortDirection, ctx),
        ensures
            (*final(self), eff) == step_spec(*old(self), Action::ToggleSortDirection, ctx),
    {
        self.sort_ascending = !self.sort_ascending;
        Effect::Nothing
    }

    fn act_increase_refresh_rate(&mut self, ctx: ActionContext) -> (eff: Effect)
        requires
            action_in_range(*old(self), Action::IncreaseRefreshRate, ctx),
        ensures
            (*final(self), eff) == step_spec(*old(self), Action::IncreaseRefreshRate, ctx),
    {
        let r = refresh_up_exec(self.refresh_ms);
        self.set_refresh(r)
    }

    fn act_decrease_refresh_rate(&mut self, ctx: ActionContext) -> (eff: Effect)
        requires
            action_in_range(*old(self), Action::DecreaseRefreshRate, ctx),
        ensures
            (*final(self), eff) == step_spec(*old(self), Action::DecreaseRefreshRate, ctx),
    {
        let r = refresh_down_exec(self.refresh_ms);
        self.set_refresh(r)
    }

    fn act_config_toggle_value(&mut self, ctx: ActionContext) -> (eff: Effect)
        requires
            action_in_range(*old(self), Action::ConfigToggleValue, ctx),
        ensures
            (*final(self), eff) == step_spec(*old(self), Action::ConfigToggleValue, ctx),
    {
        let item = self.config_selected_item;
        if item == 0 {
            self.open_theme_picker(true);
            Effect::LoadThemes
        } else if item == 1 {
            self.settings.theme = self.settings.theme.next();
            Effect::SaveConfig
        } else if item == 3 {
            self.settings.low_power_mode = !self.settings.low_power_mode;
            Effect::SaveConfig
        } else if item == 4 {
            self.settings.show_graph = !self.settings.show_graph;
            Effect::SaveConfig
        } else if item == 5 {
            self.merge_mode = !self.merge_mode;
            self.settings.merge_mode = self.merge_mode;
            Effect::SaveConfig
        } else {
            Effect::Nothing
        }
    }

    fn act_config_increment(&mut self, ctx: ActionContext) -> (eff: Effect)
        requires
            action_in_range(*old(self), Action::ConfigIncrement, ctx),
        ensures
            (*final(self), eff) == step_spec(*old(self), Action::ConfigIncrement, ctx),
    {
        let item = self.config_selected_item;
        if item == 0 {
            self.open_theme_picker(true);
            Effect::LoadThemes
        } else if item == 1 {
            self.settings.theme = self.settings.theme.next();
            Effect::SaveConfig
        } else if item == 2 {
            let r = refresh_up_exec(self.refresh_ms);
            self.set_refresh(r)
        } else if item == 6 {
            let c = self.settings.process_count + 10;
            self.settings.process_count = if c <= 200 {
                c
            } else {
                200
            };
            Effect::SaveConfig
        } else if item == 7 {
            Effect::IncreaseEnergyThreshold
        } else {
            Effect::Nothing
        }
    }

    fn act_config_decrement(&mut self, ctx: ActionContext) -> (eff: Effect)
        requires
            action_in_range(*old(self), Action::ConfigDecrement, ctx),
        ensures
            (*final(self), eff) == step_spec(*old(self), Action::ConfigDecrement, ctx),
    {
        let item = self.config_selected_item;
        if item == 0 {
            self.open_theme_picker(true);
            Effect::LoadThemes
        } else if item == 1 {
            self.settings.theme = self.settings.theme.next();
            Effect::SaveConfig
        } else if item == 2 {
            let r = refresh_down_exec(self.refresh_ms);
            self.set_refresh(r)
        } else if item == 6 {
            let c = self.settings.process_count.saturating_sub(10);
            self.settings.process_count = if c >= 10 {
                c
            } else {
                10
            };
            Effect::SaveConfig
        } else if item == 7 {
            Effect::DecreaseEnergyThreshold
        } else {
            Effect::Nothing
        }
    }

    fn act_config_revert(&mut self, ctx: ActionContext) -> (eff: Effect)
        requires
            action_in_range(*old(self), Action::ConfigRevert, ctx),
        ensures
            (*final(self), eff) == step_spec(*old(self), Action::ConfigRevert, ctx),
    {
        match self.config_snapshot {
            Some(snap) => {
                self.settings = snap.settings;
                self.refresh_ms = snap.refresh_ms;
                self.merge_mode = snap.merge_mode;
                Effect::RevertConfig
            },
            None => Effect::Nothing,
        }
    }

    fn act_config_defaults(&mut self, ctx: ActionContext) -> (eff: Effect)
        requires
            action_in_range(*old(self), Action::ConfigDefaults, ctx),
        ensures
            (*final(self), eff) == step_spec(*old(self), Action::ConfigDefaults, ctx),
    {
        self.settings = Settings::defaults();
        self.refresh_ms = self.settings.refresh_ms;
        self.merge_mode = self.settings.merge_mode;
        Effect::ResetConfig
    }

    /// Applies a user action. Returns whether the UI keeps running, and the
    /// work the caller has to do.
    pub fn handle_action(&mut self, action: Action, ctx: ActionContext) -> (r: ActionOutcome)
        requires
            action_in_range(*old(self), action, ctx),
        ensures
            r.keep_running == (action != Action::Quit),
            (*final(self), r.effect) == step_spec(*old(self), action, ctx),
    {
        let effect = match action {
            Action::Quit => {
                return ActionOutcome { keep_running: false, effect: Effect::Nothing };
            },
            Action::NoOp => self.act_no_op(ctx),
            Action::ToggleHelp => self.act_toggle_help(ctx),
            Action::ToggleAbout => self.act_toggle_about(ctx),
            Action::ToggleHistory => self.act_toggle_history(ctx),
            Action::ToggleConfig => self.act_toggle_config(ctx),
            Action::SelectPrevious => self.act_select_previous(ctx),
            Action::SelectNext => self.act_select_next(ctx),
            Action::ExitSelectionMode => self.act_exit_selection_mode(ctx),
            Action::ToggleExpand => self.act_toggle_expand(ctx),
            Action::KillProcess => self.act_kill_process(ctx),
            Action::ConfirmKill => self.act_confirm_kill(ctx),
            Action::CancelKill => self.act_cancel_kill(ctx),
            Action::CycleAppearance => self.act_cycle_appearance(ctx),
            Action::OpenThemePicker => self.act_open_theme_picker(ctx),
            Action::CloseThemePicker => self.act_close_theme_picker(ctx),
            Action::SelectTheme => self.act_select_theme(ctx),
            Action::TogglePreviewAppearance => self.act_toggle_preview_appearance(ctx),
            Action::ToggleGraphView => self.act_toggle_graph_view(ctx),
            Action::ToggleMerge => self.act_toggle_merge(ctx),
            Action::PageUp => self.act_page_up(ctx),
            Action::PageDown => self.act_page_down(ctx),
            Action::Home => self.act_home(ctx),
            Action::End => self.act_end(ctx),
            Action::CycleSortColumn => self.act_cycle_sort_column(ctx),
            Action::ToggleSortDirection => self.act_toggle_sort_direction(ctx),
            Action::IncreaseRefreshRate => self.act_increase_refresh_rate(ctx),
            Action::DecreaseRefreshRate => self.act_decrease_refresh_rate(ctx),
            Action::ConfigToggleValue => self.act_config_toggle_value(ctx),
            Action::ConfigIncrement => self.act_config_increment(ctx),
            Action::ConfigDecrement => self.act_config_decrement(ctx),
            Action::ConfigRevert => self.act_config_revert(ctx),
            Action::ConfigDefaults => self.act_config_defaults(ctx),
        };
        ActionOutcome { keep_running: true, effect }
    }

    /// Whether `action` keeps every counter it steps within its integer type.
    pub fn action_in_range_exec(&self, action: Action, ctx: ActionContext) -> (b: bool)
        ensures
            b == action_in_range(*self, action, ctx),
    {
        let refresh_step = action == Action::IncreaseRefreshRate || (action == Action::ConfigIncrement
            && self.config_selected_item == 2);
        let count_step = action == Action::ConfigIncrement && self.config_selected_item == 6;
        let page_step = action == Action::PageDown && ctx.visible_count > 0;
        (!refresh_step || self.refresh_ms <= u64::MAX - REFRESH_STEP_MS) && (!count_step
            || self.settings.process_count <= usize::MAX - 10) && (!page_step
            || self.selected_process_index <= usize::MAX - 10)
    }

    /// [`AppState::handle_action`] where the action stays in range; `None`, with the
    /// state unchanged, where a counter would overflow.
    pub fn handle_action_checked(&mut self, action: Action, ctx: ActionContext) -> (r: Option<
        ActionOutcome,
    >)
        ensures
            r is Some <==> action_in_range(*old(self), action, ctx),
            r matches Some(o) ==> o.keep_running == (action != Action::Quit) && (*final(self), o.effect)
                == step_spec(*old(self), action, ctx),
            r is None ==> *final(self) == *old(self),
    {
        if self.action_in_range_exec(action, ctx) {
            Some(self.handle_action(action, ctx))
        } else {
            None
        }
    }
}

/// Settings and refresh interval are within the bounds the editor keeps:
/// refresh interval between 500 ms and 10 s, process count between 10 and 200.
pub open spec fn settings_in_bounds(st: Settings) -> bool {
    &&& MIN_REFRESH_MS <= st.refresh_ms <= MAX_REFRESH_MS
    &&& 10 <= st.process_count <= 200
}

/// The state's refresh interval, settings and remembered snapshot are in bounds.
pub open spec fn in_bounds(s: AppState) -> bool {
    &&& MIN_REFRESH_MS <= s.refresh_ms <= MAX_REFRESH_MS
    &&& settings_in_bounds(s.settings)
    &&& (s.config_snapshot matches Some(snap) ==> MIN_REFRESH_MS <= snap.refresh_ms
        <= MAX_REFRESH_MS && settings_in_bounds(snap.settings))
}

/// The selected process row is always on screen. Every action that
/// moves the selection moves the scroll offset with it, and no other action
/// touches either.
pub proof fn lemma_selection_stays_visible(s: AppState, a: Action, ctx: ActionContext)
    requires
        selection_visible(s),
    ensures
        selection_visible(step_spec(s, a, ctx).0),
{
    match a {
        Action::Quit => {},
        Action::ToggleHelp => {},
        Action::ToggleAbout => {},
        Action::ToggleHistory => {},
        Action::ToggleConfig => {},
        Action::SelectNext => {},
        Action::SelectPrevious => {},
        Action::ToggleExpand => {},
        Action::KillProcess => {},
        Action::ConfirmKill => {},
        Action::CancelKill => {},
        Action::CycleAppearance => {},
        Action::OpenThemePicker => {},
        Action::CloseThemePicker => {},
        Action::SelectTheme => {},
        Action::TogglePreviewAppearance => {},
        Action::ToggleGraphView => {},
        Action::ToggleMerge => {},
        Action::PageUp => {},
        Action::PageDown => {},
        Action::Home => {},
        Action::End => {},
        Action::ExitSelectionMode => {},
        Action::CycleSortColumn => {},
        Action::ToggleSortDirection => {},
        Action::IncreaseRefreshRate => {},
        Action::DecreaseRefreshRate => {},
        Action::ConfigToggleValue => {},
        Action::ConfigIncrement => {},
        Action::ConfigDecrement => {},
        Action::ConfigRevert => {},
        Action::ConfigDefaults => {},
        Action::NoOp => {},
    }
}

/// No action takes the refresh interval or the process count out of
/// their bounds once they are inside them.
pub proof fn lemma_bounds_preserved(s: AppState, a: Action, ctx: ActionContext)
    requires
        in_bounds(s),
    ensures
        in_bounds(step_spec(s, a, ctx).0),
{
    match a {
        Action::Quit => {},
        Action::ToggleHelp => {},
        Action::ToggleAbout => {},
        Action::ToggleHistory => {},
        Action::ToggleConfig => {},
        Action::SelectNext => {},
        Action::SelectPrevious => {},
        Action::ToggleExpand => {},
        Action::KillProcess => {},
        Action::ConfirmKill => {},
        Action::CancelKill => {},
        Action::CycleAppearance => {},
        Action::OpenThemePicker => {},
        Action::CloseThemePicker => {},
        Action::SelectTheme => {},
        Action::TogglePreviewAppearance => {},
        Action::ToggleGraphView => {},
        Action::ToggleMerge => {},
        Action::PageUp => {},
        Action::PageDown => {},
        Action::Home => {},
        Action::End => {},
        Action::ExitSelectionMode => {},
        Action::CycleSortColumn => {},
        Action::ToggleSortDirection => {},
        Action::IncreaseRefreshRate => {},
        Action::DecreaseRefreshRate => {},
        Action::ConfigToggleValue => {},
        Action::ConfigIncrement => {},
        Action::ConfigDecrement => {},
        Action::ConfigRevert => {},
        Action::ConfigDefaults => {},
        Action::NoOp => {},
    }
}

/// From the main screen, toggling the help (or about, or history) screen twice
/// leaves the UI as it was.
pub proof fn lemma_toggle_dialog_twice(s: AppState, ctx: ActionContext)
    requires
        s.view == AppView::Main,
    ensures
        step_spec(step_spec(s, Action::ToggleHelp, ctx).0, Action::ToggleHelp, ctx).0 == s,
        step_spec(step_spec(s, Action::ToggleAbout, ctx).0, Action::ToggleAbout, ctx).0 == s,
        step_spec(step_spec(s, Action::ToggleHistory, ctx).0, Action::ToggleHistory, ctx).0 == s,
{
}

/// Only opening or closing the configuration editor changes the
/// remembered snapshot.
pub proof fn lemma_snapshot_only_changed_by_toggle(s: AppState, a: Action, ctx: ActionContext)
    requires
        a != Action::ToggleConfig,
    ensures
        step_spec(s, a, ctx).0.config_snapshot == s.config_snapshot,
{
    match a {
        Action::Quit => {},
        Action::ToggleHelp => {},
        Action::ToggleAbout => {},
        Action::ToggleHistory => {},
        Action::ToggleConfig => {},
        Action::SelectNext => {},
        Action::SelectPrevious => {},
        Action::ToggleExpand => {},
        Action::KillProcess => {},
        Action::ConfirmKill => {},
        Action::CancelKill => {},
        Action::CycleAppearance => {},
        Action::OpenThemePicker => {},
        Action::CloseThemePicker => {},
        Action::SelectTheme => {},
        Action::TogglePreviewAppearance => {},
        Action::ToggleGraphView => {},
        Action::ToggleMerge => {},
        Action::PageUp => {},
        Action::PageDown => {},
        Action::Home => {},
        Action::End => {},
        Action::ExitSelectionMode => {},
        Action::CycleSortColumn => {},
        Action::ToggleSortDirection => {},
        Action::IncreaseRefreshRate => {},
        Action::DecreaseRefreshRate => {},
        Action::ConfigToggleValue => {},
        Action::ConfigIncrement => {},
        Action::ConfigDecrement => {},
        Action::ConfigRevert => {},
        Action::ConfigDefaults => {},
        Action::NoOp => {},
    }
}

/// Reverting the configuration editor restores the settings, refresh
/// interval and merge mode that were current when the editor was opened,
/// whatever was edited in between (the snapshot is untouched by edits, see
/// [`lemma_snapshot_only_changed_by_toggle`]).
pub proof fn lemma_revert_restores(s: AppState, t: AppState, ctx: ActionContext)
    requires
        s.view != AppView::Config,
        t.config_snapshot == step_spec(s, Action::ToggleConfig, ctx).0.config_snapshot,
    ensures
        step_spec(t, Action::ConfigRevert, ctx).0.settings == s.settings,
        step_spec(t, Action::ConfigRevert, ctx).0.refresh_ms == s.refresh_ms,
        step_spec(t, Action::ConfigRevert, ctx).0.merge_mode == s.merge_mode,
        step_spec(t, Action::ConfigRevert, ctx).1 == Effect::RevertConfig,
{
}

/// The theme picker closes back to where it was opened from, with
/// no preview left over.
pub proof fn lemma_picker_returns(s: AppState, ctx: ActionContext, a: Action)
    requires
        a == Action::CloseThemePicker || a == Action::SelectTheme,
    ensures
        s.view == AppView::Main ==> step_spec(
            step_spec(s, Action::OpenThemePicker, ctx).0,
            a,
            ctx,
        ).0.view == AppView::Main,
        s.config_selected_item == 0 ==> step_spec(
            step_spec(s, Action::ConfigToggleValue, ctx).0,
            a,
            ctx,
        ).0.view == AppView::Config,
        step_spec(s, a, ctx).0.preview_theme is None,
        step_spec(s, a, ctx).0.preview_appearance is None,
{
}

fn refresh_up_exec(r: u64) -> (out: u64)
    requires
        r <= u64::MAX - REFRESH_STEP_MS,
    ensures
        out == refresh_up(r),
{
    let n = r + REFRESH_STEP_MS;
    if n <= MAX_REFRESH_MS {
        n
    } else {
        MAX_REFRESH_MS
    }
}

fn refresh_down_exec(r: u64) -> (out: u64)
    ensures
        out == refresh_down(r),
{
    let d = r.saturating_sub(REFRESH_STEP_MS);
    if d >= MIN_REFRESH_MS {
        d
    } else {
        MIN_REFRESH_MS
    }
}

/// Whether a tick refreshes the process list: never while selecting (the list is frozen),
/// every third tick in low-power mode, else every tick.
pub open spec fn refresh_processes_spec(selection_mode: bool, low_power: bool, tick_count: u32) -> bool {
    if selection_mode {
        false
    } else if low_power {
        tick_count % 3 == 0
    } else {
        true
    }
}

/// Advances the tick counter (wrapping) and tells whether this tick refreshes the
/// process list.
pub fn next_tick(tick_count: u32, selection_mode: bool, low_power: bool) -> (r: (u32, bool))
    ensures
        r.0 == (if tick_count == u32::MAX { 0 } else { tick_count + 1 }),
        r.1 == refresh_processes_spec(selection_mode, low_power, r.0),
{
    let t = if tick_count == u32::MAX { 0 } else { tick_count + 1 };
    let refresh = if selection_mode {
        false
    } else if low_power {
        t % 3 == 0
    } else {
        true
    };
    (t, refresh)
}

/// The sample count after one more sample of the pipe output, and whether the output
/// stops there: it stops once a positive sample limit is reached, and never without one.
pub fn pipe_after_sample(samples: u32, taken: u32) -> (r: (u32, bool))
    requires
        taken < u32::MAX,
    ensures
        r.0 == taken + 1,
        r.1 == (samples > 0 && taken + 1 >= samples),
{
    let n = taken + 1;
    (n, samples > 0 && n >= samples)
}

/// The history series a configured graph metric shows.
pub fn history_metric_for(m: GraphMetric) -> (h: crate::data::HistoryMetric)
    ensures
        h == (if m == GraphMetric::Power {
            crate::data::HistoryMetric::Power
        } else {
            crate::data::HistoryMetric::Battery
        }),
{
    match m {
        GraphMetric::Power => crate::data::HistoryMetric::Power,
        GraphMetric::Battery => crate::data::HistoryMetric::Battery,
    }
}

/// Toggling the sort direction flips it and changes nothing else; toggling twice
/// restores the state.
pub proof fn lemma_toggle_sort_direction(s: AppState, ctx: ActionContext)
    ensures
        step_spec(s, Action::ToggleSortDirection, ctx).0.sort_ascending == !s.sort_ascending,
        (AppState { sort_ascending: s.sort_ascending, ..step_spec(s, Action::ToggleSortDirection, ctx).0 })
            == s,
        step_spec(s, Action::ToggleSortDirection, ctx).1 == Effect::Nothing,
        step_spec(step_spec(s, Action::ToggleSortDirection, ctx).0, Action::ToggleSortDirection, ctx).0
            == s,
{
}

} // verus!
