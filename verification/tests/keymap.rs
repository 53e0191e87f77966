//! Tests of the key-to-action tables.

use ratatalk::actions::{handle_key_event, AppAction, KeyCode, KeyInput};
use ratatalk::config::Config;
use ratatalk::state::{AppState, InputMode};

#[test]
fn test_normal_mode_quit() {
    let config = Config::default();
    let state = AppState::new(config);

    let key = KeyInput::plain(KeyCode::Char('q'));
    let action = handle_key_event(key, &state);

    assert!(matches!(action, Some(AppAction::Quit)));
}

#[test]
fn test_edit_mode_escape() {
    let config = Config::default();
    let mut state = AppState::new(config);
    state.input_mode = InputMode::Editing;

    let key = KeyInput::plain(KeyCode::Esc);
    let action = handle_key_event(key, &state);

    assert!(matches!(action, Some(AppAction::ExitEditMode)));
}

#[test]
fn test_ctrl_c_always_quits() {
    let config = Config::default();
    let mut state = AppState::new(config);
    state.input_mode = InputMode::Editing;

    let key = KeyInput::ctrl(KeyCode::Char('c'));
    let action = handle_key_event(key, &state);

    assert!(matches!(action, Some(AppAction::Quit)));
}

#[test]
fn test_editing_chars_are_inserted() {
    let mut state = AppState::new(Config::default());
    state.input_mode = InputMode::Editing;
    let action = handle_key_event(KeyInput::plain(KeyCode::Char('q')), &state);
    assert!(matches!(action, Some(AppAction::InsertChar('q'))));
}

#[test]
fn test_delete_confirm_keys() {
    let mut state = AppState::new(Config::default());
    state.input_mode = InputMode::DeleteConfirm;
    assert!(matches!(
        handle_key_event(KeyInput::plain(KeyCode::Char('y')), &state),
        Some(AppAction::ConfirmDeleteSession)
    ));
    assert!(matches!(
        handle_key_event(KeyInput::plain(KeyCode::Esc), &state),
        Some(AppAction::CancelDeleteSession)
    ));
}

#[test]
fn test_help_table_has_all_rows() {
    let rows = ratatalk::actions::get_help_text();
    assert_eq!(rows.len(), 26);
    assert_eq!(rows[0].0, "General");
    assert_eq!(rows[1], ("  q / Ctrl+c", "Quit"));
}
