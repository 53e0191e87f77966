//! Tests of the orchestrator: submission, stream events, and errors.

use ratatalk::actions::Effect;
use ratatalk::config::Config;
use ratatalk::orchestrator::{apply_event, submit_message, wants_submit, AppEvent};
use ratatalk::actions::{KeyCode, KeyInput};
use ratatalk::protocol::ResponseStats;
use ratatalk::session::Role;
use ratatalk::state::{AppState, InputMode};

fn fresh_state() -> AppState {
    AppState::new(Config::default())
}

#[test]
fn test_submit_hello_starts_stream() {
    let mut state = fresh_state();
    let request = submit_message(&mut state, "Hello").expect("submission starts");

    let session = &state.sessions[state.active_session_idx];
    assert_eq!(session.messages.len(), 2);
    assert_eq!(session.messages[0].role, Role::User);
    assert_eq!(session.messages[0].content, "Hello");
    let placeholder = &session.messages[1];
    assert_eq!(placeholder.role, Role::Assistant);
    assert_eq!(placeholder.content, "");
    assert!(placeholder.streaming);
    assert!(state.streaming);

    assert_eq!(request.model, session.model);
    assert!(request.stream);
    let options = request.options.expect("options are attached");
    assert_eq!(options.temperature, Some(700));
    assert_eq!(options.top_k, Some(40));
    assert_eq!(options.top_p, Some(900));
    assert_eq!(options.num_predict, None);
    assert_eq!(options.num_ctx, None);
}

#[test]
fn test_submit_blank_is_refused() {
    let mut state = fresh_state();
    assert!(submit_message(&mut state, "   ").is_none());
    assert!(!state.streaming);
    assert_eq!(state.sessions[0].messages.len(), 0);
}

#[test]
fn test_submit_trims_input() {
    let mut state = fresh_state();
    submit_message(&mut state, "  Hello  ").expect("submission starts");
    assert_eq!(state.sessions[0].messages[0].content, "Hello");
}

#[test]
fn test_second_submission_refused_while_streaming() {
    let mut state = fresh_state();
    submit_message(&mut state, "first").expect("submission starts");
    assert!(state.streaming);
    let count = state.sessions[0].messages.len();
    assert!(submit_message(&mut state, "second").is_none());
    assert_eq!(state.sessions[0].messages.len(), count);
}

#[test]
fn test_wants_submit_conditions() {
    let mut state = fresh_state();
    let enter = KeyInput::plain(KeyCode::Enter);
    assert!(!wants_submit(&state, &enter));
    state.input_mode = InputMode::Editing;
    assert!(!wants_submit(&state, &enter));
    state.insert_char('h');
    assert!(wants_submit(&state, &enter));
    state.streaming = true;
    assert!(!wants_submit(&state, &enter));
}

#[test]
fn test_stream_chunks_fill_message() {
    let mut state = fresh_state();
    submit_message(&mut state, "Hello").expect("submission starts");

    apply_event(&mut state, AppEvent::StreamChunk("Hi".to_string()));
    apply_event(&mut state, AppEvent::StreamChunk(" there".to_string()));

    let stats = ResponseStats { tokens: 50, tokens_per_second_milli: 25_000, total_duration_ms: 3_000 };
    let eff = apply_event(&mut state, AppEvent::StreamComplete(stats));
    assert_eq!(eff, Effect::SaveSessions);

    let session = &state.sessions[0];
    let answer = session.messages.last().unwrap();
    assert_eq!(answer.content, "Hi there");
    assert!(!answer.streaming);
    assert!(!state.streaming);
    let recorded = state.last_response_stats.as_ref().unwrap();
    assert_eq!(recorded.tokens, 50);
    assert_eq!(recorded.tokens_per_second_milli, 25_000);
}

#[test]
fn test_stream_error_marks_message() {
    let mut state = fresh_state();
    submit_message(&mut state, "Hello").expect("submission starts");

    apply_event(&mut state, AppEvent::StreamError("boom".to_string()));

    let session = &state.sessions[0];
    let answer = session.messages.last().unwrap();
    assert!(!answer.streaming);
    assert_eq!(answer.content, "[Error: boom]");
    assert!(!state.streaming);
    assert_eq!(state.error_message.as_deref(), Some("boom"));
}

#[test]
fn test_stream_error_keeps_partial_content() {
    let mut state = fresh_state();
    submit_message(&mut state, "Hello").expect("submission starts");
    apply_event(&mut state, AppEvent::StreamChunk("partial".to_string()));
    apply_event(&mut state, AppEvent::StreamError("boom".to_string()));
    let answer = state.sessions[0].messages.last().unwrap();
    assert_eq!(answer.content, "partial");
    assert!(!answer.streaming);
}

#[test]
fn test_models_loaded_selects_current() {
    let mut state = fresh_state();
    let body = r#"{"models":[{"name":"other","size":1},{"name":"llama3.2:latest","size":2}]}"#;
    let models = ratatalk::protocol::extract_models(body).unwrap();
    apply_event(&mut state, AppEvent::ModelsLoaded(models));
    assert_eq!(state.models.len(), 2);
    assert_eq!(state.selected_model_idx, 1);
    assert!(!state.loading);
}

#[test]
fn test_models_error_is_surfaced() {
    let mut state = fresh_state();
    apply_event(&mut state, AppEvent::ModelsError("offline".to_string()));
    assert_eq!(state.error_message.as_deref(), Some("Failed to load models: offline"));
}

#[test]
fn test_server_status_disconnected() {
    let mut state = fresh_state();
    apply_event(&mut state, AppEvent::ServerStatus(false));
    assert!(!state.server_connected);
    assert_eq!(state.error_message.as_deref(), Some("Cannot connect to Ollama server"));
    apply_event(&mut state, AppEvent::ServerStatus(true));
    assert!(state.server_connected);
}
