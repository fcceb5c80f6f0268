use jolt::config::ThemeMode;
use jolt::app::{
    Action, ActionContext, AppState, AppView, Effect, ProcessRef, Settings, SortColumn,
    MAX_REFRESH_MS, MIN_REFRESH_MS,
};
use jolt::input::{handle_key, key_bindings, KeyCode, KeyPress, KEY_BINDING_COUNT};

fn ctx(visible: usize, selected: Option<ProcessRef>) -> ActionContext {
    ActionContext { visible_count: visible, selected, is_dark_mode: true }
}

fn key(c: char) -> KeyPress {
    KeyPress { code: KeyCode::Char(c), control: false }
}

#[test]
fn fresh_state() {
    let s = AppState::new(Settings::defaults(), false);
    assert_eq!(s.view, AppView::Main);
    assert_eq!(s.sort_column, SortColumn::Energy);
    assert_eq!(s.refresh_ms, 2000);
    assert_eq!(s.config_item_count(), 8);
}

#[test]
fn quit_stops_the_ui() {
    let mut s = AppState::new(Settings::defaults(), false);
    let out = s.handle_action(Action::Quit, ctx(0, None));
    assert!(!out.keep_running);
    assert_eq!(handle_key(AppView::Main, false, key('q')), Action::Quit);
}

#[test]
fn help_dialog_toggles_twice_back() {
    let mut s = AppState::new(Settings::defaults(), false);
    s.handle_action(Action::ToggleHelp, ctx(0, None));
    assert_eq!(s.view, AppView::Help);
    s.handle_action(Action::ToggleHelp, ctx(0, None));
    assert_eq!(s.view, AppView::Main);
}

#[test]
fn selection_stays_on_screen() {
    let mut s = AppState::new(Settings::defaults(), false);
    let first = s.handle_action(Action::SelectNext, ctx(40, None));
    assert_eq!(first.effect, Effect::FreezeProcesses);
    for _ in 0..30 {
        s.handle_action(Action::SelectNext, ctx(40, None));
    }
    assert!(s.selection_mode);
    assert!(s.selected_process_index >= s.process_scroll_offset);
    assert!(s.selected_process_index < s.process_scroll_offset + 15);
    let out = s.handle_action(Action::ExitSelectionMode, ctx(40, None));
    assert_eq!(out.effect, Effect::UnfreezeProcesses);
    assert_eq!(s.selected_process_index, 0);
}

#[test]
fn kill_flow() {
    let mut s = AppState::new(Settings::defaults(), false);
    let target = ProcessRef { pid: 4242, has_children: false, is_killable: true };
    let ask = s.handle_action(Action::KillProcess, ctx(3, Some(target)));
    assert_eq!(ask.effect, Effect::AskKill(4242));
    assert_eq!(s.view, AppView::KillConfirm);
    let done = s.handle_action(Action::ConfirmKill, ctx(3, Some(target)));
    assert_eq!(done.effect, Effect::Kill(4242));
    assert_eq!(s.view, AppView::Main);
    let protected = ProcessRef { pid: 1, has_children: false, is_killable: false };
    let none = s.handle_action(Action::KillProcess, ctx(3, Some(protected)));
    assert_eq!(none.effect, Effect::Nothing);
}

#[test]
fn refresh_rate_stays_in_bounds() {
    let mut s = AppState::new(Settings::defaults(), false);
    for _ in 0..40 {
        s.handle_action(Action::IncreaseRefreshRate, ctx(0, None));
    }
    assert_eq!(s.refresh_ms, MAX_REFRESH_MS);
    for _ in 0..40 {
        s.handle_action(Action::DecreaseRefreshRate, ctx(0, None));
    }
    assert_eq!(s.refresh_ms, MIN_REFRESH_MS);
}

#[test]
fn sort_column_cycles() {
    let mut c = SortColumn::Pid;
    for _ in 0..5 {
        c = c.next();
    }
    assert_eq!(c, SortColumn::Pid);
}

#[test]
fn help_lists_every_binding() {
    let b = key_bindings();
    assert_eq!(b.len(), KEY_BINDING_COUNT);
    assert!(b.iter().all(|k| !k.key.is_empty() && !k.description.is_empty()));
}

#[test]
fn escape_leaves_dialogs() {
    let esc = KeyPress { code: KeyCode::Esc, control: false };
    assert_eq!(handle_key(AppView::Main, true, esc), Action::ExitSelectionMode);
    assert_eq!(handle_key(AppView::Main, false, esc), Action::Quit);
}

#[test]
fn pipe_stops_after_the_sample_limit() {
    assert_eq!(jolt::app::pipe_after_sample(3, 0), (1, false));
    assert_eq!(jolt::app::pipe_after_sample(3, 1), (2, false));
    assert_eq!(jolt::app::pipe_after_sample(3, 2), (3, true));
    assert_eq!(jolt::app::pipe_after_sample(1, 0), (1, true));
    assert_eq!(jolt::app::pipe_after_sample(0, 41), (42, false));
}

#[test]
fn cycling_appearance_moves_the_mode_and_saves() {
    let c = ctx(0, None);
    let mut s = AppState::new(Settings::defaults(), false);
    let start = s.settings.theme;
    let o = s.handle_action(Action::CycleAppearance, c);
    assert!(o.keep_running);
    assert_eq!(o.effect, Effect::SaveConfig);
    assert_eq!(s.settings.theme, start.next());
    s.settings.theme = ThemeMode::Auto;
    s.handle_action(Action::CycleAppearance, c);
    assert_eq!(s.settings.theme, ThemeMode::Dark);
    s.handle_action(Action::CycleAppearance, c);
    assert_eq!(s.settings.theme, ThemeMode::Light);
    s.handle_action(Action::CycleAppearance, c);
    assert_eq!(s.settings.theme, ThemeMode::Auto);
    s.view = AppView::Config;
    s.config_selected_item = 1;
    assert_eq!(s.handle_action(Action::ConfigToggleValue, c).effect, Effect::SaveConfig);
    assert_eq!(s.settings.theme, ThemeMode::Dark);
    assert_eq!(s.handle_action(Action::ConfigIncrement, c).effect, Effect::SaveConfig);
    assert_eq!(s.settings.theme, ThemeMode::Light);
    assert_eq!(s.handle_action(Action::ConfigDecrement, c).effect, Effect::SaveConfig);
    assert_eq!(s.settings.theme, ThemeMode::Auto);
}

#[test]
fn documented_main_screen_shortcuts() {
    let key = |c: char| KeyPress { code: KeyCode::Char(c), control: false };
    let main = |k: KeyPress| handle_key(AppView::Main, false, k);
    assert_eq!(main(key('j')), Action::SelectNext);
    assert_eq!(main(key('k')), Action::SelectPrevious);
    assert_eq!(main(KeyPress { code: KeyCode::Enter, control: false }), Action::ToggleExpand);
    assert_eq!(main(key('K')), Action::KillProcess);
    assert_eq!(main(key('g')), Action::ToggleGraphView);
    assert_eq!(main(key('t')), Action::OpenThemePicker);
    assert_eq!(main(key('s')), Action::ToggleConfig);
    assert_eq!(main(key('h')), Action::ToggleHistory);
    assert_eq!(main(key('?')), Action::ToggleHelp);
    assert_eq!(main(key('q')), Action::Quit);
    assert_eq!(main(key('o')), Action::CycleSortColumn);
}

#[test]
fn history_view_opens_and_closes() {
    let mut s = AppState::new(Settings::defaults(), false);
    s.handle_action(Action::ToggleHistory, ctx(0, None));
    assert_eq!(s.view, AppView::History);
    let esc = KeyPress { code: KeyCode::Esc, control: false };
    let h = KeyPress { code: KeyCode::Char('h'), control: false };
    assert_eq!(handle_key(AppView::History, false, esc), Action::ToggleHistory);
    assert_eq!(handle_key(AppView::History, false, h), Action::ToggleHistory);
    s.handle_action(Action::ToggleHistory, ctx(0, None));
    assert_eq!(s.view, AppView::Main);
    s.handle_action(Action::ToggleConfig, ctx(0, None));
    assert_eq!(s.view, AppView::Config);
}
