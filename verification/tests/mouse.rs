//! Tests of mouse-event resolution against the pane layout.

use ratatalk::actions::{
    handle_mouse_event, process_action, AppAction, AppRegions, MouseInput, MouseKind, ScreenRect,
};
use ratatalk::config::Config;
use ratatalk::state::{AppState, InputMode};

fn regions() -> AppRegions {
    AppRegions {
        sidebar: ScreenRect { x: 0, y: 0, width: 30, height: 20 },
        chat: ScreenRect { x: 30, y: 0, width: 50, height: 17 },
        input: ScreenRect { x: 30, y: 17, width: 50, height: 3 },
    }
}

#[test]
fn test_click_dismisses_help() {
    let mut state = AppState::new(Config::default());
    state.input_mode = InputMode::Help;
    let click = MouseInput { kind: MouseKind::LeftDown, column: 5, row: 5 };
    let action = handle_mouse_event(click, &state, regions());
    assert!(matches!(action, Some(AppAction::ToggleHelp)));
}

#[test]
fn test_click_selects_session_row() {
    let mut state = AppState::new(Config::default());
    process_action(AppAction::NewSession, &mut state);
    // Row 1 is the first session row after the sidebar border.
    let click = MouseInput { kind: MouseKind::LeftDown, column: 2, row: 2 };
    let action = handle_mouse_event(click, &state, regions());
    assert!(matches!(action, Some(AppAction::SelectSession(1))));
}

#[test]
fn test_click_on_model_box_opens_picker() {
    let state = AppState::new(Config::default());
    // The bottom five sidebar rows show the model box.
    let click = MouseInput { kind: MouseKind::LeftDown, column: 2, row: 16 };
    let action = handle_mouse_event(click, &state, regions());
    assert!(matches!(action, Some(AppAction::OpenModelSelect)));
}

#[test]
fn test_click_on_input_starts_editing() {
    let state = AppState::new(Config::default());
    let click = MouseInput { kind: MouseKind::LeftDown, column: 40, row: 18 };
    let action = handle_mouse_event(click, &state, regions());
    assert!(matches!(action, Some(AppAction::EnterEditMode)));
}

#[test]
fn test_wheel_scrolls_chat() {
    let state = AppState::new(Config::default());
    let up = MouseInput { kind: MouseKind::WheelUp, column: 40, row: 5 };
    assert!(matches!(handle_mouse_event(up, &state, regions()), Some(AppAction::ScrollUp(3))));
    let down = MouseInput { kind: MouseKind::WheelDown, column: 40, row: 5 };
    assert!(matches!(
        handle_mouse_event(down, &state, regions()),
        Some(AppAction::ScrollDown(3))
    ));
}
