//! The single mutable application state and the operations the
//! orchestrator applies to it.
//!
//! Invariants, kept by every operation: the session list is never empty,
//! the active-session index stays valid, the input cursor stays within
//! the input buffer, and in every session at most the trailing message
//! is still streaming.

use vstd::prelude::*;

use crate::config::Config;
use crate::externs::chars_to_string;
use crate::protocol::{ModelInfo, ResponseStats};
use crate::session::{ChatSession, Message};

verus! {

/// What the keyboard currently talks to.
#[derive(Debug, Clone, Copy, PartialEq, Eq, Structural)]
pub enum InputMode {
    /// Navigation and shortcuts.
    Normal,
    /// Typing into the input buffer.
    Editing,
    /// The model picker is open.
    ModelSelect,
    /// The session picker is open.
    SessionSelect,
    /// The help overlay is open.
    Help,
    /// A session deletion awaits confirmation.
    DeleteConfirm,
}

/// Which pane of the screen has focus.
#[derive(Debug, Clone, Copy, PartialEq, Eq, Structural)]
pub enum FocusArea {
    /// The conversation history.
    Chat,
    /// The input line.
    Input,
    /// The session sidebar.
    Sidebar,
}

/// The whole mutable state of the application. Background work never
/// touches it; only the orchestrator's event loop does.
#[derive(Debug)]
pub struct AppState {
    /// Configuration loaded at startup.
    pub config: Config,
    /// Models the server offers.
    pub models: Vec<ModelInfo>,
    /// All sessions; never empty.
    pub sessions: Vec<ChatSession>,
    /// Index of the session on screen; always valid.
    pub active_session_idx: usize,
    /// Index highlighted in the model picker.
    pub selected_model_idx: usize,
    /// The input buffer, one element per character.
    pub input: Vec<char>,
    /// Cursor position in the input buffer; never past its end.
    pub cursor_position: usize,
    /// What the keyboard currently talks to.
    pub input_mode: InputMode,
    /// Which pane has focus.
    pub focus: FocusArea,
    /// How many lines the conversation is scrolled up from its end.
    pub chat_scroll: usize,
    /// How many lines the sidebar is scrolled.
    pub sidebar_scroll: usize,
    /// Transient status text, if any.
    pub status_message: Option<String>,
    /// Transient error text, if any.
    pub error_message: Option<String>,
    /// Whether background loading is under way.
    pub loading: bool,
    /// Whether a chat response is streaming in; set synchronously when
    /// the stream is started.
    pub streaming: bool,
    /// Statistics of the last completed response.
    pub last_response_stats: Option<ResponseStats>,
    /// Whether the event loop should persist and exit.
    pub should_quit: bool,
    /// Whether the server answered the last health probe.
    pub server_connected: bool,
}

impl AppState {
    /// The state's invariant: a non-empty session list, a valid active
    /// index, a cursor inside the input buffer, and well-formed
    /// sessions.
    pub open spec fn wf(self) -> bool {
        &&& self.sessions@.len() > 0
        &&& self.active_session_idx < self.sessions@.len()
        &&& self.cursor_position <= self.input@.len()
        &&& forall|i: int| 0 <= i < self.sessions@.len() ==> (#[trigger] self.sessions@[i]).wf()
    }

    /// The name of the model the active session talks to.
    pub open spec fn spec_current_model(self) -> Seq<char> {
        if self.active_session_idx < self.sessions@.len() {
            self.sessions@[self.active_session_idx as int].model@
        } else {
            self.config.model.default_model@
        }
    }

    /// A fresh state around one fresh session that talks to the
    /// configured default model.
    pub fn new(config: Config) -> (r: AppState)
        ensures
            r.wf(),
            r.sessions@.len() == 1,
            r.sessions@[0].model@ == config.model.default_model@,
            r.sessions@[0].messages@.len() == 0,
            r.active_session_idx == 0,
            r.selected_model_idx == 0,
            r.input@.len() == 0,
            r.cursor_position == 0,
            r.input_mode == InputMode::Normal,
            r.focus == FocusArea::Input,
            r.chat_scroll == 0,
            r.sidebar_scroll == 0,
            r.status_message is None,
            r.error_message is None,
            r.loading == false,
            r.streaming == false,
            r.last_response_stats is None,
            r.should_quit == false,
            r.server_connected == false,
            r.models@.len() == 0,
            r.config == config,
    {
        let first = ChatSession::with_default_name(config.model.default_model.as_str());
        let mut sessions: Vec<ChatSession> = Vec::new();
        sessions.push(first);
        AppState {
            config,
            models: Vec::new(),
            sessions,
            active_session_idx: 0,
            selected_model_idx: 0,
            input: Vec::new(),
            cursor_position: 0,
            input_mode: InputMode::Normal,
            focus: FocusArea::Input,
            chat_scroll: 0,
            sidebar_scroll: 0,
            status_message: None,
            error_message: None,
            loading: false,
            streaming: false,
            last_response_stats: None,
            should_quit: false,
            server_connected: false,
        }
    }

    /// Replaces the session list with sessions loaded from disk, when
    /// there are any; every stale streaming mark is cleared, since no
    /// stream survives a restart. An empty list changes nothing.
    pub fn install_sessions(&mut self, loaded: Vec<ChatSession>)
        requires
            old(self).wf(),
        ensures
            final(self).wf(),
            loaded@.len() == 0 ==> *final(self) == *old(self),
            loaded@.len() > 0 ==> {
                &&& final(self).sessions@.len() == loaded@.len()
                &&& final(self).active_session_idx == 0
                &&& forall|i: int|
                    0 <= i < loaded@.len() ==> ChatSession::unstreamed_copy(
                        loaded@[i],
                        #[trigger] final(self).sessions@[i],
                    )
            },
            final(self).status_message == old(self).status_message,
            AppState::same_but_sessions(*old(self), *final(self)),
    {
        if loaded.len() == 0 {
            return ;
        }
        let ghost given = loaded@;
        let mut cleaned = loaded;
        let n = cleaned.len();
        let mut i: usize = 0;
        while i < n
            invariant
                i <= n,
                n == cleaned@.len(),
                n == given.len(),
                forall|k: int|
                    0 <= k < i ==> ChatSession::unstreamed_copy(given[k], #[trigger] cleaned@[k]),
                forall|k: int| i <= k < n ==> #[trigger] cleaned@[k] == given[k],
            decreases n - i,
        {
            let s = &mut cleaned[i];
            let m = s.messages.len();
            let mut j: usize = 0;
            while j < m
                invariant
                    j <= m,
                    i < n == given.len(),
                    m == s.messages@.len(),
                    m == given[i as int].messages@.len(),
                    ChatSession::same_but_messages(given[i as int], *s),
                    s.updated_at_ms == given[i as int].updated_at_ms,
                    forall|q: int|
                        0 <= q < j ==> #[trigger] s.messages@[q] == (Message {
                            streaming: false,
                            ..given[i as int].messages@[q]
                        }),
                    forall|q: int| j <= q < m ==> #[trigger] s.messages@[q] == given[i as int].messages@[q],
                decreases m - j,
            {
                let msg = &mut s.messages[j];
                msg.finish_streaming();
                j += 1;
            }
            i += 1;
        }
        self.sessions = cleaned;
        self.active_session_idx = 0;
    }

    /// The active session; `None` only in a state that breaks the
    /// invariant.
    pub fn active_session(&self) -> (r: Option<&ChatSession>)
        ensures
            self.wf() ==> r == Some(&self.sessions@[self.active_session_idx as int]),
            self.active_session_idx < self.sessions@.len() ==> r == Some(
                &self.sessions@[self.active_session_idx as int],
            ),
            self.active_session_idx >= self.sessions@.len() ==> r is None,
    {
        if self.active_session_idx < self.sessions.len() {
            Some(&self.sessions[self.active_session_idx])
        } else {
            None
        }
    }

    /// The name of the model the active session talks to, or the
    /// configured default where the state is broken.
    pub fn current_model(&self) -> (r: &str)
        ensures
            r@ == self.spec_current_model(),
    {
        if self.active_session_idx < self.sessions.len() {
            self.sessions[self.active_session_idx].model.as_str()
        } else {
            self.config.model.default_model.as_str()
        }
    }

    /// True when `b` is `a` with at most the session list, the active
    /// index, the chat scroll and the status text changed.
    pub open spec fn same_but_sessions(a: AppState, b: AppState) -> bool {
        &&& b.config == a.config
        &&& b.models == a.models
        &&& b.selected_model_idx == a.selected_model_idx
        &&& b.input == a.input
        &&& b.cursor_position == a.cursor_position
        &&& b.input_mode == a.input_mode
        &&& b.focus == a.focus
        &&& b.sidebar_scroll == a.sidebar_scroll
        &&& b.error_message == a.error_message
        &&& b.loading == a.loading
        &&& b.streaming == a.streaming
        &&& b.last_response_stats == a.last_response_stats
        &&& b.should_quit == a.should_quit
        &&& b.server_connected == a.server_connected
    }

    /// Opens a fresh session on the current model and makes it active.
    pub fn new_session(&mut self)
        requires
            old(self).wf(),
        ensures
            final(self).wf(),
            final(self).sessions@.len() == old(self).sessions@.len() + 1,
            final(self).sessions@.drop_last() == old(self).sessions@,
            final(self).sessions@.last().model@ == old(self).spec_current_model(),
            final(self).sessions@.last().messages@.len() == 0,
            final(self).active_session_idx == old(self).sessions@.len(),
            final(self).chat_scroll == 0,
            final(self).status_message is None,
            AppState::same_but_sessions(*old(self), *final(self)),
    {
        let model = self.current_model().to_owned();
        let session = ChatSession::with_default_name(model.as_str());
        self.sessions.push(session);
        self.active_session_idx = self.sessions.len() - 1;
        self.chat_scroll = 0;
        self.status_message = None;
        proof {
            assert(final(self).sessions@.drop_last() =~= old(self).sessions@);
        }
    }

    /// Moves to the next session, wrapping at the end.
    pub fn next_session(&mut self)
        requires
            old(self).wf(),
        ensures
            final(self).wf(),
            final(self).sessions == old(self).sessions,
            final(self).active_session_idx == (old(self).active_session_idx + 1) % (
            old(self).sessions@.len() as int),
            final(self).chat_scroll == 0,
            final(self).status_message == old(self).status_message,
            AppState::same_but_sessions(*old(self), *final(self)),
    {
        let n = self.sessions.len();
        self.active_session_idx = (self.active_session_idx + 1) % n;
        self.chat_scroll = 0;
    }

    /// Moves to the previous session, wrapping at the start.
    pub fn prev_session(&mut self)
        requires
            old(self).wf(),
        ensures
            final(self).wf(),
            final(self).sessions == old(self).sessions,
            final(self).active_session_idx == if old(self).active_session_idx == 0 {
                old(self).sessions@.len() - 1
            } else {
                old(self).active_session_idx - 1
            },
            final(self).chat_scroll == 0,
            final(self).status_message == old(self).status_message,
            AppState::same_but_sessions(*old(self), *final(self)),
    {
        self.active_session_idx = if self.active_session_idx == 0 {
            self.sessions.len() - 1
        } else {
            self.active_session_idx - 1
        };
        self.chat_scroll = 0;
    }

    /// Deletes the active session — unless it is the last one left, in
    /// which case nothing changes at all.
    pub fn delete_current_session(&mut self)
        requires
            old(self).wf(),
        ensures
            final(self).wf(),
            old(self).sessions@.len() == 1 ==> *final(self) == *old(self),
            old(self).sessions@.len() > 1 ==> {
                &&& final(self).sessions@ == old(self).sessions@.remove(
                    old(self).active_session_idx as int,
                )
                &&& final(self).sessions@.len() == old(self).sessions@.len() - 1
                &&& final(self).active_session_idx == if old(self).active_session_idx < old(
                    self,
                ).sessions@.len() - 1 {
                    old(self).active_session_idx as int
                } else {
                    old(self).sessions@.len() - 2
                }
                &&& final(self).chat_scroll == 0
            },
            final(self).status_message == old(self).status_message,
            AppState::same_but_sessions(*old(self), *final(self)),
    {
        if self.sessions.len() > 1 {
            self.sessions.remove(self.active_session_idx);
            if self.active_session_idx >= self.sessions.len() {
                self.active_session_idx = self.sessions.len() - 1;
            }
            self.chat_scroll = 0;
        }
    }

    /// Points the active session at the given model.
    pub fn set_model(&mut self, model: &str)
        requires
            old(self).wf(),
        ensures
            final(self).wf(),
            final(self).sessions@.len() == old(self).sessions@.len(),
            final(self).sessions@[old(self).active_session_idx as int].model@ == model@,
            final(self).sessions@[old(self).active_session_idx as int].messages == old(
                self,
            ).sessions@[old(self).active_session_idx as int].messages,
            forall|i: int|
                0 <= i < old(self).sessions@.len() && i != old(self).active_session_idx
                    ==> #[trigger] final(self).sessions@[i] == old(self).sessions@[i],
            final(self).active_session_idx == old(self).active_session_idx,
            final(self).status_message == old(self).status_message,
            final(self).chat_scroll == old(self).chat_scroll,
            AppState::same_but_sessions(*old(self), *final(self)),
    {
        let s = &mut self.sessions[self.active_session_idx];
        s.model = model.to_owned();
    }

    /// The model highlighted in the picker, if the list reaches that
    /// far.
    pub fn selected_model(&self) -> (r: Option<&ModelInfo>)
        ensures
            self.selected_model_idx < self.models@.len() ==> r == Some(
                &self.models@[self.selected_model_idx as int],
            ),
            self.selected_model_idx >= self.models@.len() ==> r is None,
    {
        if self.selected_model_idx < self.models.len() {
            Some(&self.models[self.selected_model_idx])
        } else {
            None
        }
    }

    /// Highlights the next model, wrapping at the end; nothing happens
    /// while the list is empty.
    pub fn next_model(&mut self)
        ensures
            old(self).models@.len() == 0 ==> *final(self) == *old(self),
            old(self).models@.len() > 0 ==> *final(self) == (AppState {
                selected_model_idx: if old(self).selected_model_idx + 1 >= old(
                    self,
                ).models@.len() {
                    0usize
                } else {
                    (old(self).selected_model_idx + 1) as usize
                },
                ..*old(self)
            }),
    {
        let n = self.models.len();
        if n > 0 {
            self.selected_model_idx = if self.selected_model_idx >= n - 1 {
                0
            } else {
                self.selected_model_idx + 1
            };
        }
    }

    /// Highlights the previous model, wrapping at the start; nothing
    /// happens while the list is empty.
    pub fn prev_model(&mut self)
        ensures
            old(self).models@.len() == 0 ==> *final(self) == *old(self),
            old(self).models@.len() > 0 ==> *final(self) == (AppState {
                selected_model_idx: if old(self).selected_model_idx == 0 {
                    (old(self).models@.len() - 1) as usize
                } else {
                    (old(self).selected_model_idx - 1) as usize
                },
                ..*old(self)
            }),
    {
        if self.models.len() > 0 {
            self.selected_model_idx = if self.selected_model_idx == 0 {
                self.models.len() - 1
            } else {
                self.selected_model_idx - 1
            };
        }
    }

    /// Inserts a character at the cursor and moves the cursor past it.
    pub fn insert_char(&mut self, c: char)
        requires
            old(self).cursor_position <= old(self).input@.len(),
        ensures
            final(self).input@ == old(self).input@.insert(old(self).cursor_position as int, c),
            final(self).cursor_position == old(self).cursor_position + 1,
            final(self).cursor_position <= final(self).input@.len(),
            old(self).wf() ==> final(self).wf(),
            AppState::same_but_input(*old(self), *final(self)),
    {
        self.input.insert(self.cursor_position, c);
        proof {
            // The grown buffer still fits a usize, so the cursor can
            // follow the inserted character.
            assert(self.input.len() == self.input@.len());
        }
        self.cursor_position = self.cursor_position + 1;
    }

    /// Deletes the character before the cursor, if there is one.
    pub fn delete_char(&mut self)
        requires
            old(self).cursor_position <= old(self).input@.len(),
        ensures
            old(self).cursor_position == 0 ==> *final(self) == *old(self),
            old(self).cursor_position > 0 ==> {
                &&& final(self).input@ == old(self).input@.remove(
                    old(self).cursor_position - 1 as int,
                )
                &&& final(self).cursor_position == old(self).cursor_position - 1
            },
            final(self).cursor_position <= final(self).input@.len(),
            old(self).wf() ==> final(self).wf(),
            AppState::same_but_input(*old(self), *final(self)),
    {
        if self.cursor_position > 0 {
            self.cursor_position = self.cursor_position - 1;
            self.input.remove(self.cursor_position);
        }
    }

    /// Deletes the character under the cursor, if there is one.
    pub fn delete_char_forward(&mut self)
        requires
            old(self).cursor_position <= old(self).input@.len(),
        ensures
            old(self).cursor_position == old(self).input@.len() ==> *final(self) == *old(self),
            old(self).cursor_position < old(self).input@.len() ==> {
                &&& final(self).input@ == old(self).input@.remove(
                    old(self).cursor_position as int,
                )
                &&& final(self).cursor_position == old(self).cursor_position
            },
            final(self).cursor_position <= final(self).input@.len(),
            old(self).wf() ==> final(self).wf(),
            AppState::same_but_input(*old(self), *final(self)),
    {
        if self.cursor_position < self.input.len() {
            self.input.remove(self.cursor_position);
        }
    }

    /// Moves the cursor one character left, stopping at the start.
    pub fn move_cursor_left(&mut self)
        ensures
            final(self).cursor_position == if old(self).cursor_position > 0 {
                old(self).cursor_position - 1
            } else {
                0int
            },
            final(self).input == old(self).input,
            old(self).wf() ==> final(self).wf(),
            AppState::same_but_input(*old(self), *final(self)),
    {
        if self.cursor_position > 0 {
            self.cursor_position = self.cursor_position - 1;
        }
    }

    /// Moves the cursor one character right, stopping at the end.
    pub fn move_cursor_right(&mut self)
        requires
            old(self).cursor_position <= old(self).input@.len(),
        ensures
            final(self).cursor_position == if old(self).cursor_position < old(
                self,
            ).input@.len() {
                old(self).cursor_position + 1
            } else {
                old(self).cursor_position as int
            },
            final(self).input == old(self).input,
            final(self).cursor_position <= final(self).input@.len(),
            old(self).wf() ==> final(self).wf(),
            AppState::same_but_input(*old(self), *final(self)),
    {
        if self.cursor_position < self.input.len() {
            self.cursor_position = self.cursor_position + 1;
        }
    }

    /// Moves the cursor to the start of the input.
    pub fn move_cursor_start(&mut self)
        ensures
            final(self).cursor_position == 0,
            final(self).input == old(self).input,
            old(self).wf() ==> final(self).wf(),
            AppState::same_but_input(*old(self), *final(self)),
    {
        self.cursor_position = 0;
    }

    /// Moves the cursor past the last character of the input.
    pub fn move_cursor_end(&mut self)
        ensures
            final(self).cursor_position == final(self).input@.len(),
            final(self).input == old(self).input,
            old(self).wf() ==> final(self).wf(),
            AppState::same_but_input(*old(self), *final(self)),
    {
        self.cursor_position = self.input.len();
    }

    /// Empties the input buffer and resets the cursor.
    pub fn clear_input(&mut self)
        ensures
            final(self).input@.len() == 0,
            final(self).cursor_position == 0,
            old(self).wf() ==> final(self).wf(),
            AppState::same_but_input(*old(self), *final(self)),
    {
        self.input.clear();
        self.cursor_position = 0;
    }

    /// Empties the input buffer and hands its text back.
    pub fn take_input(&mut self) -> (r: String)
        ensures
            r@ == old(self).input@,
            final(self).input@.len() == 0,
            final(self).cursor_position == 0,
            old(self).wf() ==> final(self).wf(),
            AppState::same_but_input(*old(self), *final(self)),
    {
        let text = chars_to_string(&self.input);
        self.input.clear();
        self.cursor_position = 0;
        text
    }

    /// True when `b` is `a` with at most the input buffer and its cursor
    /// changed.
    pub open spec fn same_but_input(a: AppState, b: AppState) -> bool {
        &&& b.config == a.config
        &&& b.models == a.models
        &&& b.sessions == a.sessions
        &&& b.active_session_idx == a.active_session_idx
        &&& b.selected_model_idx == a.selected_model_idx
        &&& b.input_mode == a.input_mode
        &&& b.focus == a.focus
        &&& b.chat_scroll == a.chat_scroll
        &&& b.sidebar_scroll == a.sidebar_scroll
        &&& b.status_message == a.status_message
        &&& b.error_message == a.error_message
        &&& b.loading == a.loading
        &&& b.streaming == a.streaming
        &&& b.last_response_stats == a.last_response_stats
        &&& b.should_quit == a.should_quit
        &&& b.server_connected == a.server_connected
    }

    /// Shows the given status text.
    pub fn set_status(&mut self, msg: &str)
        ensures
            final(self).status_message matches Some(m) && m@ == msg@,
            *final(self) == (AppState { status_message: final(self).status_message, ..*old(self) }),
    {
        self.status_message = Some(msg.to_owned());
    }

    /// Shows a status text already built as a `String`.
    pub fn set_status_string(&mut self, msg: String)
        ensures
            final(self).status_message == Some(msg),
            *final(self) == (AppState { status_message: final(self).status_message, ..*old(self) }),
    {
        self.status_message = Some(msg);
    }

    /// Clears the status text.
    pub fn clear_status(&mut self)
        ensures
            *final(self) == (AppState { status_message: None, ..*old(self) }),
    {
        self.status_message = None;
    }

    /// Shows the given error text.
    pub fn set_error(&mut self, msg: &str)
        ensures
            final(self).error_message matches Some(m) && m@ == msg@,
            *final(self) == (AppState { error_message: final(self).error_message, ..*old(self) }),
    {
        self.error_message = Some(msg.to_owned());
    }

    /// Shows an error text already built as a `String`.
    pub fn set_error_string(&mut self, msg: String)
        ensures
            final(self).error_message == Some(msg),
            *final(self) == (AppState { error_message: final(self).error_message, ..*old(self) }),
    {
        self.error_message = Some(msg);
    }

    /// Clears the error text.
    pub fn clear_error(&mut self)
        ensures
            *final(self) == (AppState { error_message: None, ..*old(self) }),
    {
        self.error_message = None;
    }

    /// Scrolls the conversation up, saturating at the top.
    pub fn scroll_up(&mut self, amount: usize)
        ensures
            *final(self) == (AppState { chat_scroll: final(self).chat_scroll, ..*old(self) }),
            final(self).chat_scroll == if old(self).chat_scroll + amount <= usize::MAX {
                old(self).chat_scroll + amount
            } else {
                usize::MAX as int
            },
    {
        if self.chat_scroll <= usize::MAX - amount {
            self.chat_scroll = self.chat_scroll + amount;
        } else {
            self.chat_scroll = usize::MAX;
        }
    }

    /// Scrolls the conversation down, saturating at the newest content.
    pub fn scroll_down(&mut self, amount: usize)
        ensures
            *final(self) == (AppState { chat_scroll: final(self).chat_scroll, ..*old(self) }),
            final(self).chat_scroll == if old(self).chat_scroll >= amount {
                old(self).chat_scroll - amount
            } else {
                0int
            },
    {
        if self.chat_scroll >= amount {
            self.chat_scroll = self.chat_scroll - amount;
        } else {
            self.chat_scroll = 0;
        }
    }

    /// Scrolls the conversation to its newest content.
    pub fn scroll_to_bottom(&mut self)
        ensures
            *final(self) == (AppState { chat_scroll: 0, ..*old(self) }),
    {
        self.chat_scroll = 0;
    }
}

} // verus!

