//! The orchestrator's decisions: how background events change the
//! state, and how a submission turns the input into a chat request.
//!
//! The event loop around these functions lives outside the crate: it
//! polls the terminal, runs the network tasks, and forwards their
//! results here as plain events. Background work never touches the
//! state directly.

use vstd::prelude::*;
use vstd::string::StringExecFns;

use crate::actions::{find_model_idx, spec_find_model, Effect, KeyCode, KeyInput};
use crate::protocol::{ChatRequest, GenerationOptions, ModelInfo, ResponseStats};
use crate::session::{ChatSession, Role};
use crate::state::{AppState, InputMode};
use crate::text::{is_blank, trim, trim_spec};

verus! {

/// A fact delivered to the event loop: terminal input, or the result of
/// background work.
#[derive(Debug, Clone)]
pub enum AppEvent {
    /// A key press arrived from the terminal.
    Input(KeyInput),
    /// The terminal was resized.
    Resize(u16, u16),
    /// One tick of the loop passed without input.
    Tick,
    /// The model list arrived.
    ModelsLoaded(Vec<ModelInfo>),
    /// Loading the model list failed.
    ModelsError(String),
    /// A piece of response text arrived from the stream.
    StreamChunk(String),
    /// The stream completed, with its statistics.
    StreamComplete(ResponseStats),
    /// The stream failed with the carried error text.
    StreamError(String),
    /// The health probe answered.
    ServerStatus(bool),
    /// Something asked the application to quit.
    Quit,
}

/// Applies one background event to the state. Terminal input events are
/// handled by the key dispatch instead and change nothing here. A
/// completed stream asks the caller, through the returned effect, to
/// persist the sessions.
pub fn apply_event(state: &mut AppState, event: AppEvent) -> (eff: Effect)
    requires
        old(state).wf(),
    ensures
        final(state).wf(),
        eff == if event is StreamComplete {
            Effect::SaveSessions
        } else {
            Effect::Nothing
        },
        match event {
            AppEvent::Input(_) | AppEvent::Resize(_, _) | AppEvent::Tick => *final(state) == *old(state),
            AppEvent::ModelsLoaded(models) => {
                &&& *final(state) == (AppState {
                    models: final(state).models,
                    loading: false,
                    selected_model_idx: final(state).selected_model_idx,
                    ..*old(state)
                })
                &&& final(state).models == models
                &&& final(state).loading == false
                &&& final(state).sessions == old(state).sessions
                &&& final(state).selected_model_idx == if models@.len() > 0 {
                    match spec_find_model(models@, old(state).spec_current_model(), 0) {
                        Some(j) => j,
                        None => old(state).selected_model_idx as int,
                    }
                } else {
                    old(state).selected_model_idx as int
                }
                &&& final(state).streaming == old(state).streaming
            },
            AppEvent::ModelsError(err) => {
                &&& *final(state) == (AppState {
                    error_message: final(state).error_message,
                    loading: false,
                    ..*old(state)
                })
                &&& final(state).error_message matches Some(m) && m@ == "Failed to load models: "@
                    + err@
                &&& final(state).loading == false
                &&& final(state).sessions == old(state).sessions
            },
            AppEvent::StreamChunk(content) => {
                let idx = old(state).active_session_idx as int;
                let was = old(state).sessions@[idx];
                &&& *final(state) == (AppState {
                    sessions: final(state).sessions,
                    chat_scroll: 0usize,
                    ..*old(state)
                })
                &&& final(state).chat_scroll == 0
                &&& final(state).sessions@.len() == old(state).sessions@.len()
                &&& forall|j: int|
                    0 <= j < old(state).sessions@.len() && j != idx ==> #[trigger] final(state).sessions@[j] == old(state).sessions@[j]
                &&& was.spec_is_streaming() ==> {
                    let now = final(state).sessions@[idx];
                    &&& now.messages@.len() == was.messages@.len()
                    &&& now.messages@.last().content@ == was.messages@.last().content@ + content@
                    &&& now.messages@.last().streaming == true
                    &&& now.messages@.drop_last() == was.messages@.drop_last()
                }
                &&& !was.spec_is_streaming() ==> final(state).sessions@[idx] == was
                &&& final(state).streaming == old(state).streaming
            },
            AppEvent::StreamComplete(stats) => {
                let idx = old(state).active_session_idx as int;
                &&& *final(state) == (AppState {
                    sessions: final(state).sessions,
                    streaming: false,
                    last_response_stats: Some(stats),
                    ..*old(state)
                })
                &&& ChatSession::finish_rel(
                    old(state).sessions@[idx],
                    final(state).sessions@[idx],
                    final(state).sessions@[idx].updated_at_ms,
                )
                &&& !final(state).sessions@[idx].spec_is_streaming()
                &&& forall|j: int|
                    0 <= j < old(state).sessions@.len() && j != idx ==> #[trigger] final(state).sessions@[j] == old(state).sessions@[j]
                &&& final(state).streaming == false
                &&& final(state).last_response_stats == Some(stats)
            },
            AppEvent::StreamError(err) => {
                let idx = old(state).active_session_idx as int;
                let was = old(state).sessions@[idx];
                let now = final(state).sessions@[idx];
                &&& *final(state) == (AppState {
                    sessions: final(state).sessions,
                    streaming: false,
                    error_message: final(state).error_message,
                    ..*old(state)
                })
                &&& final(state).streaming == false
                &&& final(state).error_message matches Some(m) && m@ == err@
                &&& !now.spec_is_streaming()
                &&& now.messages@.len() == was.messages@.len()
                &&& was.messages@.len() > 0 ==> now.messages@.last().content@ == if was.messages@.last().content@.len() == 0 {
                    "[Error: "@ + err@ + "]"@
                } else {
                    was.messages@.last().content@
                }
                &&& forall|j: int|
                    0 <= j < old(state).sessions@.len() && j != idx ==> #[trigger] final(state).sessions@[j] == old(state).sessions@[j]
            },
            AppEvent::ServerStatus(connected) => {
                &&& *final(state) == (AppState {
                    server_connected: connected,
                    error_message: final(state).error_message,
                    ..*old(state)
                })
                &&& final(state).server_connected == connected
                &&& !connected ==> (final(state).error_message matches Some(m) && m@
                    == "Cannot connect to Ollama server"@)
                &&& connected ==> final(state).error_message == old(state).error_message
                &&& final(state).sessions == old(state).sessions
            },
            AppEvent::Quit => *final(state) == (AppState { should_quit: true, ..*old(state) }),
        },
{
    match event {
        AppEvent::Input(_) => Effect::Nothing,
        AppEvent::Resize(_, _) => Effect::Nothing,
        AppEvent::Tick => Effect::Nothing,
        AppEvent::ModelsLoaded(models) => {
            state.models = models;
            state.loading = false;
            if state.models.len() > 0 {
                let current = state.sessions[state.active_session_idx].model.clone();
                match find_model_idx(&state.models, &current) {
                    Some(j) => {
                        state.selected_model_idx = j;
                    },
                    None => {},
                }
            }
            Effect::Nothing
        },
        AppEvent::ModelsError(err) => {
            let mut msg = String::from_str("Failed to load models: ");
            msg.append(err.as_str());
            state.set_error_string(msg);
            state.loading = false;
            Effect::Nothing
        },
        AppEvent::StreamChunk(content) => {
            let idx = state.active_session_idx;
            let s = &mut state.sessions[idx];
            s.append_to_response(content.as_str());
            state.chat_scroll = 0;
            Effect::Nothing
        },
        AppEvent::StreamComplete(stats) => {
            let idx = state.active_session_idx;
            let s = &mut state.sessions[idx];
            s.finish_response();
            state.streaming = false;
            state.last_response_stats = Some(stats);
            Effect::SaveSessions
        },
        AppEvent::StreamError(err) => {
            let idx = state.active_session_idx;
            let s = &mut state.sessions[idx];
            s.finish_response();
            let n = s.messages.len();
            if n > 0 {
                if s.messages[n - 1].content.unicode_len() == 0 {
                    let mut marker = String::from_str("[Error: ");
                    marker.append(err.as_str());
                    marker.append("]");
                    let msg = &mut s.messages[n - 1];
                    msg.content = marker;
                }
            }
            state.streaming = false;
            state.set_error_string(err);
            Effect::Nothing
        },
        AppEvent::ServerStatus(connected) => {
            state.server_connected = connected;
            if !connected {
                state.set_error("Cannot connect to Ollama server");
            }
            Effect::Nothing
        },
        AppEvent::Quit => {
            state.should_quit = true;
            Effect::Nothing
        },
    }
}

/// Whether a key press in the current state starts a submission: the
/// submit key in editing mode, with visible input text and no stream
/// already in flight. The event loop checks this before generic action
/// dispatch.
pub open spec fn spec_wants_submit(state: AppState, key: KeyInput) -> bool {
    &&& state.input_mode == InputMode::Editing
    &&& key.code == KeyCode::Enter
    &&& trim_spec(state.input@).len() > 0
    &&& !state.streaming
}

/// Whether a key press in the current state starts a submission.
pub fn wants_submit(state: &AppState, key: &KeyInput) -> (r: bool)
    ensures
        r == spec_wants_submit(*state, *key),
{
    if !(state.input_mode == InputMode::Editing) {
        return false;
    }
    if !(key.code == KeyCode::Enter) {
        return false;
    }
    if state.streaming {
        return false;
    }
    let text = crate::externs::chars_to_string(&state.input);
    !is_blank(text.as_str())
}

/// Begins a submission: appends the trimmed text as a user message to
/// the active session, appends the empty streaming assistant message
/// behind it, raises the global streaming flag synchronously — a second
/// submission is thereby refused before the background task even starts
/// — and returns the request the task should send. Blank input, an
/// already-running stream, or a session still marked streaming leave the
/// state exactly as it was and return nothing.
pub fn submit_message(state: &mut AppState, content: &str) -> (r: Option<ChatRequest>)
    requires
        old(state).wf(),
    ensures
        final(state).wf(),
        ({
            let idx = old(state).active_session_idx as int;
            let was = old(state).sessions@[idx];
            let blocked = trim_spec(content@).len() == 0 || old(state).streaming
                || was.spec_is_streaming();
            if blocked {
                r is None && *final(state) == *old(state)
            } else {
                let now = final(state).sessions@[idx];
                &&& *final(state) == (AppState {
                    sessions: final(state).sessions,
                    streaming: true,
                    chat_scroll: 0usize,
                    ..*old(state)
                })
                &&& final(state).streaming == true
                &&& final(state).chat_scroll == 0
                &&& final(state).sessions@.len() == old(state).sessions@.len()
                &&& forall|j: int|
                    0 <= j < old(state).sessions@.len() && j != idx ==> #[trigger] final(state).sessions@[j] == old(state).sessions@[j]
                &&& now.messages@.len() == was.messages@.len() + 2
                &&& now.messages@[now.messages@.len() - 2].role == Role::User
                &&& now.messages@[now.messages@.len() - 2].content@ == trim_spec(content@)
                &&& now.messages@[now.messages@.len() - 2].streaming == false
                &&& now.messages@.last().role == Role::Assistant
                &&& now.messages@.last().content@ == Seq::<char>::empty()
                &&& now.messages@.last().streaming == true
                &&& now.messages@.subrange(0, was.messages@.len() as int) == was.messages@
                &&& r matches Some(req) && {
                    &&& req.model@ == was.model@
                    &&& req.messages@ == now.spec_chat_messages()
                    &&& req.stream == true
                    &&& req.options matches Some(o) && {
                        &&& o.temperature == Some(old(state).config.model.temperature)
                        &&& o.top_k == Some(old(state).config.model.top_k)
                        &&& o.top_p == Some(old(state).config.model.top_p)
                        &&& o.num_predict == if old(state).config.model.max_tokens > 0 {
                            Some(old(state).config.model.max_tokens)
                        } else {
                            None::<u32>
                        }
                        &&& o.num_ctx == if old(state).config.model.num_ctx > 0 {
                            Some(old(state).config.model.num_ctx)
                        } else {
                            None::<u32>
                        }
                    }
                }
            }
        }),
{
    let trimmed = trim(content);
    if trimmed.unicode_len() == 0 {
        return None;
    }
    if state.streaming {
        return None;
    }
    let idx = state.active_session_idx;
    if state.sessions[idx].is_streaming() {
        return None;
    }
    let s = &mut state.sessions[idx];
    s.add_user_message(trimmed);
    s.start_assistant_response();
    proof {
        let was = old(state).sessions@[idx as int];
        assert(state.sessions@[idx as int].messages@.subrange(0, was.messages@.len() as int)
            =~= was.messages@);
    }
    state.streaming = true;
    state.chat_scroll = 0;
    let messages = state.sessions[idx].to_chat_messages();
    let model = state.sessions[idx].model.clone();
    let opts = GenerationOptions {
        temperature: Some(state.config.model.temperature),
        top_k: Some(state.config.model.top_k),
        top_p: Some(state.config.model.top_p),
        num_predict: if state.config.model.max_tokens > 0 {
            Some(state.config.model.max_tokens)
        } else {
            None
        },
        num_ctx: if state.config.model.num_ctx > 0 {
            Some(state.config.model.num_ctx)
        } else {
            None
        },
        stop: None,
        seed: None,
        repeat_penalty: None,
    };
    let request = ChatRequest::new(model.as_str(), messages).with_options(opts);
    Some(request)
}

} // verus!
