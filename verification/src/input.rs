//! Key handling: which action a key press means in each view.

use vstd::prelude::*;
use crate::app::{Action, AppState, AppView, ActionContext, step_spec};

verus! {

/// A key, as far as the key map distinguishes keys.
#[derive(Debug, Clone, Copy, PartialEq, Eq, Structural)]
pub enum KeyCode {
    Char(char),
    Esc,
    Enter,
    Backspace,
    Up,
    Down,
    Left,
    Right,
    PageUp,
    PageDown,
    Home,
    End,
    Other,
}

/// A key press: the key and whether Control was held.
#[derive(Debug, Clone, Copy, PartialEq, Eq, Structural)]
pub struct KeyPress {
    pub code: KeyCode,
    pub control: bool,
}

/// Key map of the main screen.
pub open spec fn main_key_spec(key: KeyPress, selection_mode: bool) -> Action {
    match key.code {
        KeyCode::Char('q') => Action::Quit,
        KeyCode::Esc => if selection_mode {
            Action::ExitSelectionMode
        } else {
            Action::Quit
        },
        KeyCode::Char('?') => Action::ToggleHelp,
        KeyCode::Char('h') => Action::ToggleHistory,
        KeyCode::Char('A') => Action::ToggleAbout,
        KeyCode::Char('a') => Action::CycleAppearance,
        KeyCode::Up | KeyCode::Char('k') => Action::SelectPrevious,
        KeyCode::Down | KeyCode::Char('j') => Action::SelectNext,
        KeyCode::Enter | KeyCode::Char(' ') => Action::ToggleExpand,
        KeyCode::Char('K') => Action::KillProcess,
        KeyCode::Char('t') => Action::OpenThemePicker,
        KeyCode::Char('g') => Action::ToggleGraphView,
        KeyCode::Char('m') => Action::ToggleMerge,
        KeyCode::PageUp => Action::PageUp,
        KeyCode::PageDown => Action::PageDown,
        KeyCode::Home => Action::Home,
        KeyCode::End => Action::End,
        KeyCode::Char('o') => Action::CycleSortColumn,
        KeyCode::Char('S') => Action::ToggleSortDirection,
        KeyCode::Char('=') | KeyCode::Char('+') => Action::IncreaseRefreshRate,
        KeyCode::Char('-') => Action::DecreaseRefreshRate,
        KeyCode::Char('c') => if key.control {
            Action::Quit
        } else {
            Action::NoOp
        },
        KeyCode::Char('s') | KeyCode::Char('C') => Action::ToggleConfig,
        _ => Action::NoOp,
    }
}

/// Key map of the theme picker.
pub open spec fn theme_picker_key_spec(key: KeyPress) -> Action {
    match key.code {
        KeyCode::Esc | KeyCode::Char('t') | KeyCode::Char('q') => Action::CloseThemePicker,
        KeyCode::Up | KeyCode::Char('k') => Action::SelectPrevious,
        KeyCode::Down | KeyCode::Char('j') => Action::SelectNext,
        KeyCode::Enter | KeyCode::Char(' ') => Action::SelectTheme,
        KeyCode::Char('a') | KeyCode::Left | KeyCode::Right => Action::TogglePreviewAppearance,
        _ => Action::NoOp,
    }
}

/// Key map of the configuration editor.
pub open spec fn config_key_spec(key: KeyPress) -> Action {
    match key.code {
        KeyCode::Esc | KeyCode::Char('C') | KeyCode::Char('q') => Action::ToggleConfig,
        KeyCode::Up | KeyCode::Char('k') => Action::SelectPrevious,
        KeyCode::Down | KeyCode::Char('j') => Action::SelectNext,
        KeyCode::Enter | KeyCode::Char(' ') => Action::ConfigToggleValue,
        KeyCode::Right | KeyCode::Char('l') | KeyCode::Char('=') => Action::ConfigIncrement,
        KeyCode::Left | KeyCode::Char('h') | KeyCode::Char('-') => Action::ConfigDecrement,
        KeyCode::Char('r') => Action::ConfigRevert,
        KeyCode::Char('D') => Action::ConfigDefaults,
        _ => Action::NoOp,
    }
}

/// Key map of the help screen.
pub open spec fn help_key_spec(key: KeyPress) -> Action {
    match key.code {
        KeyCode::Esc | KeyCode::Char('h') | KeyCode::Char('?') | KeyCode::Char('q') => Action::ToggleHelp,
        _ => Action::NoOp,
    }
}

/// Key map of the history screen.
pub open spec fn history_key_spec(key: KeyPress) -> Action {
    match key.code {
        KeyCode::Esc | KeyCode::Char('h') | KeyCode::Char('q') => Action::ToggleHistory,
        _ => Action::NoOp,
    }
}

/// Key map of the about screen.
pub open spec fn about_key_spec(key: KeyPress) -> Action {
    match key.code {
        KeyCode::Esc | KeyCode::Char('A') | KeyCode::Char('q') => Action::ToggleAbout,
        _ => Action::NoOp,
    }
}

/// Key map of the kill confirmation dialog.
pub open spec fn kill_confirm_key_spec(key: KeyPress) -> Action {
    match key.code {
        KeyCode::Char('y') | KeyCode::Char('Y') | KeyCode::Enter => Action::ConfirmKill,
        KeyCode::Char('n') | KeyCode::Char('N') | KeyCode::Esc => Action::CancelKill,
        _ => Action::NoOp,
    }
}

/// The action a key press means in a view.
pub open spec fn key_action_spec(view: AppView, selection_mode: bool, key: KeyPress) -> Action {
    match view {
        AppView::Main => main_key_spec(key, selection_mode),
        AppView::Help => help_key_spec(key),
        AppView::About => about_key_spec(key),
        AppView::History => history_key_spec(key),
        AppView::KillConfirm => kill_confirm_key_spec(key),
        AppView::Config => config_key_spec(key),
        AppView::ThemePicker => theme_picker_key_spec(key),
    }
}

fn handle_main_keys(key: KeyPress, selection_mode: bool) -> (r: Action)
    ensures
        r == main_key_spec(key, selection_mode),
{
    match key.code {
        KeyCode::Char('q') => Action::Quit,
        KeyCode::Esc => {
            if selection_mode {
                Action::ExitSelectionMode
            } else {
                Action::Quit
            }
        },
        KeyCode::Char('?') => Action::ToggleHelp,
        KeyCode::Char('h') => Action::ToggleHistory,
        KeyCode::Char('A') => Action::ToggleAbout,
        KeyCode::Char('a') => Action::CycleAppearance,
        KeyCode::Up | KeyCode::Char('k') => Action::SelectPrevious,
        KeyCode::Down | KeyCode::Char('j') => Action::SelectNext,
        KeyCode::Enter | KeyCode::Char(' ') => Action::ToggleExpand,
        KeyCode::Char('K') => Action::KillProcess,
        KeyCode::Char('t') => Action::OpenThemePicker,
        KeyCode::Char('g') => Action::ToggleGraphView,
        KeyCode::Char('m') => Action::ToggleMerge,
        KeyCode::PageUp => Action::PageUp,
        KeyCode::PageDown => Action::PageDown,
        KeyCode::Home => Action::Home,
        KeyCode::End => Action::End,
        KeyCode::Char('o') => Action::CycleSortColumn,
        KeyCode::Char('S') => Action::ToggleSortDirection,
        KeyCode::Char('=') | KeyCode::Char('+') => Action::IncreaseRefreshRate,
        KeyCode::Char('-') => Action::DecreaseRefreshRate,
        KeyCode::Char('c') if key.control => Action::Quit,
        KeyCode::Char('s') | KeyCode::Char('C') => Action::ToggleConfig,
        _ => Action::NoOp,
    }
}

fn handle_theme_picker_keys(key: KeyPress) -> (r: Action)
    ensures
        r == theme_picker_key_spec(key),
{
    match key.code {
        KeyCode::Esc | KeyCode::Char('t') | KeyCode::Char('q') => Action::CloseThemePicker,
        KeyCode::Up | KeyCode::Char('k') => Action::SelectPrevious,
        KeyCode::Down | KeyCode::Char('j') => Action::SelectNext,
        KeyCode::Enter | KeyCode::Char(' ') => Action::SelectTheme,
        KeyCode::Char('a') | KeyCode::Left | KeyCode::Right => Action::TogglePreviewAppearance,
        _ => Action::NoOp,
    }
}

fn handle_config_keys(key: KeyPress) -> (r: Action)
    ensures
        r == config_key_spec(key),
{
    match key.code {
        KeyCode::Esc | KeyCode::Char('C') | KeyCode::Char('q') => Action::ToggleConfig,
        KeyCode::Up | KeyCode::Char('k') => Action::SelectPrevious,
        KeyCode::Down | KeyCode::Char('j') => Action::SelectNext,
        KeyCode::Enter | KeyCode::Char(' ') => Action::ConfigToggleValue,
        KeyCode::Right | KeyCode::Char('l') | KeyCode::Char('=') => Action::ConfigIncrement,
        KeyCode::Left | KeyCode::Char('h') | KeyCode::Char('-') => Action::ConfigDecrement,
        KeyCode::Char('r') => Action::ConfigRevert,
        KeyCode::Char('D') => Action::ConfigDefaults,
        _ => Action::NoOp,
    }
}

fn handle_help_keys(key: KeyPress) -> (r: Action)
    ensures
        r == help_key_spec(key),
{
    match key.code {
        KeyCode::Esc | KeyCode::Char('h') | KeyCode::Char('?') | KeyCode::Char('q') => {
            Action::ToggleHelp
        },
        _ => Action::NoOp,
    }
}

fn handle_history_keys(key: KeyPress) -> (r: Action)
    ensures
        r == history_key_spec(key),
{
    match key.code {
        KeyCode::Esc | KeyCode::Char('h') | KeyCode::Char('q') => Action::ToggleHistory,
        _ => Action::NoOp,
    }
}

fn handle_about_keys(key: KeyPress) -> (r: Action)
    ensures
        r == about_key_spec(key),
{
    match key.code {
        KeyCode::Esc | KeyCode::Char('A') | KeyCode::Char('q') => Action::ToggleAbout,
        _ => Action::NoOp,
    }
}

fn handle_kill_confirm_keys(key: KeyPress) -> (r: Action)
    ensures
        r == kill_confirm_key_spec(key),
{
    match key.code {
        KeyCode::Char('y') | KeyCode::Char('Y') | KeyCode::Enter => Action::ConfirmKill,
        KeyCode::Char('n') | KeyCode::Char('N') | KeyCode::Esc => Action::CancelKill,
        _ => Action::NoOp,
    }
}

/// The action a key press means in the current view.
pub fn handle_key(view: AppView, selection_mode: bool, key: KeyPress) -> (r: Action)
    ensures
        r == key_action_spec(view, selection_mode, key),
{
    match view {
        AppView::Main => handle_main_keys(key, selection_mode),
        AppView::Help => handle_help_keys(key),
        AppView::About => handle_about_keys(key),
        AppView::History => handle_history_keys(key),
        AppView::KillConfirm => handle_kill_confirm_keys(key),
        AppView::Config => handle_config_keys(key),
        AppView::ThemePicker => handle_theme_picker_keys(key),
    }
}

/// Escape always backs out. In a dialog it closes the dialog (the theme
/// picker returns to the configuration editor when it was opened from there);
/// on the main screen it leaves selection mode, or quits when not selecting.
pub proof fn lemma_escape_backs_out(s: AppState, ctx: ActionContext)
    ensures
        ({
            let a = key_action_spec(s.view, s.selection_mode, KeyPress { code: KeyCode::Esc, control: false });
            let next = step_spec(s, a, ctx).0;
            &&& s.view == AppView::Main && !s.selection_mode ==> a == Action::Quit
            &&& s.view == AppView::Main && s.selection_mode ==> next.view == AppView::Main && !next.selection_mode
            &&& s.view == AppView::ThemePicker && s.theme_picker_from_config ==> next.view == AppView::Config
            &&& s.view != AppView::Main && !(s.view == AppView::ThemePicker && s.theme_picker_from_config)
                ==> next.view == AppView::Main
        }),
{
}

/// One line of the help screen: a key and what it does.
pub struct KeyBinding {
    pub key: &'static str,
    pub description: &'static str,
}

/// Number of entries on the help screen.
pub const KEY_BINDING_COUNT: usize = 19;

/// The help screen's entries, in order.
pub open spec fn key_binding_spec(i: int) -> (Seq<char>, Seq<char>) {
    if i == 0 {
        ("↑/k"@, "Move selection up (enters selection mode)"@)
    } else if i == 1 {
        ("↓/j"@, "Move selection down (enters selection mode)"@)
    } else if i == 2 {
        ("Esc"@, "Exit selection mode / Quit"@)
    } else if i == 3 {
        ("Enter/Space"@, "Expand/collapse process group"@)
    } else if i == 4 {
        ("K"@, "Kill selected process"@)
    } else if i == 5 {
        ("g"@, "Toggle graph metric"@)
    } else if i == 6 {
        ("m"@, "Toggle merge mode (group similar processes)"@)
    } else if i == 7 {
        ("t"@, "Open theme picker"@)
    } else if i == 8 {
        ("a"@, "Cycle appearance (Auto/Dark/Light)"@)
    } else if i == 9 {
        ("PgUp/PgDn"@, "Page up/down"@)
    } else if i == 10 {
        ("Home/End"@, "Jump to start/end"@)
    } else if i == 11 {
        ("o"@, "Cycle sort column"@)
    } else if i == 12 {
        ("S"@, "Toggle sort direction"@)
    } else if i == 13 {
        ("-/+"@, "Decrease/increase refresh rate"@)
    } else if i == 14 {
        ("s/C"@, "Open settings"@)
    } else if i == 15 {
        ("h"@, "View history"@)
    } else if i == 16 {
        ("?"@, "Toggle help"@)
    } else if i == 17 {
        ("A"@, "About jolt"@)
    } else if i == 18 {
        ("q"@, "Quit"@)
    } else {
        (Seq::empty(), Seq::empty())
    }
}

/// The help screen's entries, in order.
pub fn key_bindings() -> (r: Vec<KeyBinding>)
    ensures
        r@.len() == KEY_BINDING_COUNT,
        forall|i: int|
            0 <= i < KEY_BINDING_COUNT ==> (#[trigger] r@[i]).key@ == key_binding_spec(i).0
                && r@[i].description@ == key_binding_spec(i).1,
{
    vec![
        KeyBinding { key: "↑/k", description: "Move selection up (enters selection mode)" },
        KeyBinding { key: "↓/j", description: "Move selection down (enters selection mode)" },
        KeyBinding { key: "Esc", description: "Exit selection mode / Quit" },
        KeyBinding { key: "Enter/Space", description: "Expand/collapse process group" },
        KeyBinding { key: "K", description: "Kill selected process" },
        KeyBinding { key: "g", description: "Toggle graph metric" },
        KeyBinding { key: "m", description: "Toggle merge mode (group similar processes)" },
        KeyBinding { key: "t", description: "Open theme picker" },
        KeyBinding { key: "a", description: "Cycle appearance (Auto/Dark/Light)" },
        KeyBinding { key: "PgUp/PgDn", description: "Page up/down" },
        KeyBinding { key: "Home/End", description: "Jump to start/end" },
        KeyBinding { key: "o", description: "Cycle sort column" },
        KeyBinding { key: "S", description: "Toggle sort direction" },
        KeyBinding { key: "-/+", description: "Decrease/increase refresh rate" },
        KeyBinding { key: "s/C", description: "Open settings" },
        KeyBinding { key: "h", description: "View history" },
        KeyBinding { key: "?", description: "Toggle help" },
        KeyBinding { key: "A", description: "About jolt" },
        KeyBinding { key: "q", description: "Quit" },
    ]
}

/// In the kill confirmation dialog `y`, `Y` and Enter confirm the kill and `n`, `N` and
/// Escape cancel it, whatever the selection mode and whether Control is held.
pub proof fn lemma_kill_confirm_keys(selection_mode: bool, control: bool)
    ensures
        key_action_spec(AppView::KillConfirm, selection_mode, KeyPress { code: KeyCode::Char('y'), control })
            == Action::ConfirmKill,
        key_action_spec(AppView::KillConfirm, selection_mode, KeyPress { code: KeyCode::Char('Y'), control })
            == Action::ConfirmKill,
        key_action_spec(AppView::KillConfirm, selection_mode, KeyPress { code: KeyCode::Enter, control })
            == Action::ConfirmKill,
        key_action_spec(AppView::KillConfirm, selection_mode, KeyPress { code: KeyCode::Char('n'), control })
            == Action::CancelKill,
        key_action_spec(AppView::KillConfirm, selection_mode, KeyPress { code: KeyCode::Char('N'), control })
            == Action::CancelKill,
        key_action_spec(AppView::KillConfirm, selection_mode, KeyPress { code: KeyCode::Esc, control })
            == Action::CancelKill,
{
}

} // verus!
