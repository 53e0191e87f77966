//! Tests of the application state: the input buffer, session
//! navigation, and the deletion guards.

use ratatalk::actions::{process_action, AppAction, Effect};
use ratatalk::config::Config;
use ratatalk::state::{AppState, InputMode};

fn fresh_state() -> AppState {
    AppState::new(Config::default())
}

#[test]
fn test_app_state_input() {
    let config = Config::default();
    let mut state = AppState::new(config);

    state.insert_char('h');
    state.insert_char('i');

    assert_eq!(state.input, vec!['h', 'i']);
    assert_eq!(state.cursor_position, 2);

    state.delete_char();
    assert_eq!(state.input, vec!['h']);
}

#[test]
fn test_cursor_stays_in_bounds() {
    let mut state = fresh_state();
    state.insert_char('a');
    state.insert_char('b');
    assert!(state.cursor_position <= state.input.len());
    state.move_cursor_left();
    state.insert_char('x');
    assert!(state.cursor_position <= state.input.len());
    state.delete_char();
    state.delete_char();
    state.delete_char();
    state.delete_char();
    assert!(state.cursor_position <= state.input.len());
    state.move_cursor_right();
    state.move_cursor_end();
    assert!(state.cursor_position <= state.input.len());
    state.delete_char_forward();
    assert!(state.cursor_position <= state.input.len());
}

#[test]
fn test_take_input_returns_text() {
    let mut state = fresh_state();
    state.insert_char('h');
    state.insert_char('i');
    let text = state.take_input();
    assert_eq!(text, "hi");
    assert!(state.input.is_empty());
    assert_eq!(state.cursor_position, 0);
}

#[test]
fn test_delete_last_session_is_noop() {
    let mut state = fresh_state();
    assert_eq!(state.sessions.len(), 1);
    state.delete_current_session();
    assert_eq!(state.sessions.len(), 1);
}

#[test]
fn test_delete_request_last_session_rejected() {
    let mut state = fresh_state();
    assert_eq!(state.sessions.len(), 1);
    let eff = process_action(AppAction::RequestDeleteSession, &mut state);
    assert_eq!(eff, Effect::Nothing);
    assert_eq!(
        state.error_message.as_deref(),
        Some("Cannot delete the last remaining session")
    );
    assert_eq!(state.sessions.len(), 1);
    assert_eq!(state.input_mode, InputMode::Normal);
}

#[test]
fn test_delete_request_while_streaming_rejected() {
    let mut state = fresh_state();
    process_action(AppAction::NewSession, &mut state);
    assert!(state.sessions.len() >= 2);
    state.streaming = true;
    let before_mode = state.input_mode;
    process_action(AppAction::RequestDeleteSession, &mut state);
    assert_eq!(
        state.error_message.as_deref(),
        Some("Cannot delete session while receiving response")
    );
    assert_eq!(state.input_mode, before_mode);
    assert_ne!(state.input_mode, InputMode::DeleteConfirm);
}

#[test]
fn test_confirm_delete_removes_and_saves() {
    let mut state = fresh_state();
    process_action(AppAction::NewSession, &mut state);
    assert_eq!(state.sessions.len(), 2);
    process_action(AppAction::RequestDeleteSession, &mut state);
    assert_eq!(state.input_mode, InputMode::DeleteConfirm);
    let eff = process_action(AppAction::ConfirmDeleteSession, &mut state);
    assert_eq!(eff, Effect::SaveSessions);
    assert_eq!(state.sessions.len(), 1);
    assert_eq!(state.input_mode, InputMode::Normal);
    assert!(state.status_message.as_deref().unwrap().starts_with("Session deleted: "));
}

#[test]
fn test_session_navigation_wraps() {
    let mut state = fresh_state();
    process_action(AppAction::NewSession, &mut state);
    process_action(AppAction::NewSession, &mut state);
    assert_eq!(state.sessions.len(), 3);
    assert_eq!(state.active_session_idx, 2);
    process_action(AppAction::NextSession, &mut state);
    assert_eq!(state.active_session_idx, 0);
    process_action(AppAction::PrevSession, &mut state);
    assert_eq!(state.active_session_idx, 2);
}

#[test]
fn test_install_sessions_clears_stale_streaming() {
    let mut stored = ratatalk::session::ChatSession::new("Saved", "llama3.2");
    stored.add_user_message("Hi");
    stored.start_assistant_response();
    stored.append_to_response("partial answer");
    // Saved mid-stream: the mark is stale after a restart.
    assert!(stored.is_streaming());

    let mut state = fresh_state();
    state.install_sessions(vec![stored]);
    assert_eq!(state.sessions.len(), 1);
    assert_eq!(state.active_session_idx, 0);
    let session = &state.sessions[0];
    assert_eq!(session.name, "Saved");
    assert!(!session.is_streaming());
    assert_eq!(session.messages.len(), 2);
    assert_eq!(session.messages[1].content, "partial answer");
    assert!(session.messages.iter().all(|m| !m.streaming));
}

#[test]
fn test_install_no_sessions_keeps_fresh_one() {
    let mut state = fresh_state();
    state.install_sessions(Vec::new());
    assert_eq!(state.sessions.len(), 1);
}

#[test]
fn test_toggle_help_mode() {
    let mut state = fresh_state();
    process_action(AppAction::ToggleHelp, &mut state);
    assert_eq!(state.input_mode, InputMode::Help);
    process_action(AppAction::ToggleHelp, &mut state);
    assert_eq!(state.input_mode, InputMode::Normal);
}

#[test]
fn test_scrolling_saturates() {
    let mut state = fresh_state();
    state.scroll_down(5);
    assert_eq!(state.chat_scroll, 0);
    state.scroll_up(3);
    assert_eq!(state.chat_scroll, 3);
    state.scroll_down(1);
    assert_eq!(state.chat_scroll, 2);
}
