//! The input state machine: raw keyboard and mouse input plus the
//! current mode become an action, and actions are applied to the state.
//!
//! Two global quit bindings short-circuit before any mode dispatch; the
//! remaining bindings are one lookup table per mode. Applying an action
//! never performs I/O and never fails: invalid actions are no-ops.

use vstd::prelude::*;
use vstd::string::StringExecFns;

use crate::state::{AppState, InputMode};

verus! {

/// The modifier keys held while a key was pressed.
#[derive(Debug, Clone, Copy, PartialEq, Eq, Structural)]
pub struct KeyModifiers {
    /// Control was held.
    pub ctrl: bool,
    /// Alt was held.
    pub alt: bool,
    /// Shift was held.
    pub shift: bool,
}

/// No modifier held.
pub open spec fn mods_none() -> KeyModifiers {
    KeyModifiers { ctrl: false, alt: false, shift: false }
}

/// Control alone held.
pub open spec fn mods_ctrl() -> KeyModifiers {
    KeyModifiers { ctrl: true, alt: false, shift: false }
}

/// Shift alone held.
pub open spec fn mods_shift() -> KeyModifiers {
    KeyModifiers { ctrl: false, alt: false, shift: true }
}

impl KeyModifiers {
    /// No modifier held.
    pub fn none() -> (r: KeyModifiers)
        ensures
            r == mods_none(),
    {
        KeyModifiers { ctrl: false, alt: false, shift: false }
    }

    /// Control alone held.
    pub fn control() -> (r: KeyModifiers)
        ensures
            r == mods_ctrl(),
    {
        KeyModifiers { ctrl: true, alt: false, shift: false }
    }

    /// Shift alone held.
    pub fn shift_only() -> (r: KeyModifiers)
        ensures
            r == mods_shift(),
    {
        KeyModifiers { ctrl: false, alt: false, shift: true }
    }
}

/// The key that was pressed.
#[derive(Debug, Clone, Copy, PartialEq, Eq, Structural)]
pub enum KeyCode {
    /// A printable character.
    Char(char),
    /// A function key.
    F(u8),
    Enter,
    Esc,
    Tab,
    BackTab,
    Backspace,
    Delete,
    Left,
    Right,
    Up,
    Down,
    Home,
    End,
    PageUp,
    PageDown,
}

/// One key press: the key and the modifiers held with it.
#[derive(Debug, Clone, Copy, PartialEq, Eq, Structural)]
pub struct KeyInput {
    /// The key pressed.
    pub code: KeyCode,
    /// The modifiers held.
    pub modifiers: KeyModifiers,
}

impl KeyInput {
    /// A key press with no modifiers held.
    pub fn plain(code: KeyCode) -> (r: KeyInput)
        ensures
            r.code == code,
            r.modifiers == mods_none(),
    {
        KeyInput { code, modifiers: KeyModifiers::none() }
    }

    /// A key press with control held.
    pub fn ctrl(code: KeyCode) -> (r: KeyInput)
        ensures
            r.code == code,
            r.modifiers == mods_ctrl(),
    {
        KeyInput { code, modifiers: KeyModifiers::control() }
    }
}

/// A decoded user intent: pure data, applied by `process_action`.
#[derive(Debug, Clone, Copy, PartialEq, Eq, Structural)]
pub enum AppAction {
    // Session navigation.
    NextSession,
    PrevSession,
    NewSession,
    DeleteSession,
    SelectSession(usize),
    RequestDeleteSession,
    ConfirmDeleteSession,
    CancelDeleteSession,
    // Model selection.
    OpenModelSelect,
    CloseModelSelect,
    NextModel,
    PrevModel,
    ConfirmModel,
    SelectModel(usize),
    // Input editing.
    EnterEditMode,
    ExitEditMode,
    SubmitMessage,
    InsertChar(char),
    DeleteChar,
    DeleteCharForward,
    MoveCursorLeft,
    MoveCursorRight,
    MoveCursorStart,
    MoveCursorEnd,
    ClearInput,
    // Scrolling.
    ScrollUp(usize),
    ScrollDown(usize),
    ScrollToTop,
    ScrollToBottom,
    PageUp,
    PageDown,
    // Miscellany.
    ToggleHelp,
    ClearError,
    Quit,
    RefreshModels,
}

/// The bindings that work in any mode: the two quit combinations.
pub open spec fn spec_global_action(key: KeyInput) -> Option<AppAction> {
    if (key.code == KeyCode::Char('c') || key.code == KeyCode::Char('q')) && key.modifiers
        == mods_ctrl() {
        Some(AppAction::Quit)
    } else {
        None
    }
}

/// The normal-mode bindings: navigation, scrolling, pickers and help.
pub open spec fn spec_normal_action(key: KeyInput) -> Option<AppAction> {
    let m = key.modifiers;
    match key.code {
        KeyCode::Char(c) => if c == 'q' && m == mods_none() {
            Some(AppAction::Quit)
        } else if c == 'i' && m == mods_none() {
            Some(AppAction::EnterEditMode)
        } else if c == 'n' && m == mods_ctrl() {
            Some(AppAction::NewSession)
        } else if c == 'w' && m == mods_ctrl() {
            Some(AppAction::RequestDeleteSession)
        } else if c == 'm' && m == mods_none() {
            Some(AppAction::OpenModelSelect)
        } else if c == 'k' && m == mods_none() {
            Some(AppAction::ScrollUp(1))
        } else if c == 'j' && m == mods_none() {
            Some(AppAction::ScrollDown(1))
        } else if c == 'u' && m == mods_ctrl() {
            Some(AppAction::PageUp)
        } else if c == 'd' && m == mods_ctrl() {
            Some(AppAction::PageDown)
        } else if c == 'g' && m == mods_none() {
            Some(AppAction::ScrollToTop)
        } else if c == 'G' && m == mods_shift() {
            Some(AppAction::ScrollToBottom)
        } else if c == '?' {
            Some(AppAction::ToggleHelp)
        } else if c == 'r' && m == mods_ctrl() {
            Some(AppAction::RefreshModels)
        } else {
            None
        },
        KeyCode::Enter => Some(AppAction::EnterEditMode),
        KeyCode::Tab => if m == mods_none() {
            Some(AppAction::NextSession)
        } else {
            None
        },
        KeyCode::BackTab => Some(AppAction::PrevSession),
        KeyCode::Up => Some(AppAction::ScrollUp(1)),
        KeyCode::Down => Some(AppAction::ScrollDown(1)),
        KeyCode::PageUp => Some(AppAction::PageUp),
        KeyCode::PageDown => Some(AppAction::PageDown),
        KeyCode::Home => Some(AppAction::ScrollToTop),
        KeyCode::End => Some(AppAction::ScrollToBottom),
        KeyCode::F(n) => if n == 1 {
            Some(AppAction::ToggleHelp)
        } else {
            None
        },
        KeyCode::Esc => Some(AppAction::ClearError),
        _ => None,
    }
}

/// The editing-mode bindings: character entry, deletion, cursor motion,
/// submit and escape.
pub open spec fn spec_editing_action(key: KeyInput) -> Option<AppAction> {
    let m = key.modifiers;
    match key.code {
        KeyCode::Esc => Some(AppAction::ExitEditMode),
        KeyCode::Enter => if m == mods_none() {
            Some(AppAction::SubmitMessage)
        } else {
            None
        },
        KeyCode::Char(c) => if m == mods_none() || m == mods_shift() {
            Some(AppAction::InsertChar(c))
        } else if c == 'h' && m == mods_ctrl() {
            Some(AppAction::DeleteChar)
        } else if (c == 'w' || c == 'u') && m == mods_ctrl() {
            Some(AppAction::ClearInput)
        } else if c == 'b' && m == mods_ctrl() {
            Some(AppAction::MoveCursorLeft)
        } else if c == 'f' && m == mods_ctrl() {
            Some(AppAction::MoveCursorRight)
        } else if c == 'a' && m == mods_ctrl() {
            Some(AppAction::MoveCursorStart)
        } else if c == 'e' && m == mods_ctrl() {
            Some(AppAction::MoveCursorEnd)
        } else {
            None
        },
        KeyCode::Backspace => Some(AppAction::DeleteChar),
        KeyCode::Delete => Some(AppAction::DeleteCharForward),
        KeyCode::Left => Some(AppAction::MoveCursorLeft),
        KeyCode::Right => Some(AppAction::MoveCursorRight),
        KeyCode::Home => Some(AppAction::MoveCursorStart),
        KeyCode::End => Some(AppAction::MoveCursorEnd),
        _ => None,
    }
}

/// The model-picker bindings; modifiers are ignored.
pub open spec fn spec_model_select_action(key: KeyInput) -> Option<AppAction> {
    match key.code {
        KeyCode::Esc => Some(AppAction::CloseModelSelect),
        KeyCode::Enter => Some(AppAction::ConfirmModel),
        KeyCode::Up => Some(AppAction::PrevModel),
        KeyCode::Down => Some(AppAction::NextModel),
        KeyCode::Char(c) => if c == 'q' {
            Some(AppAction::CloseModelSelect)
        } else if c == 'k' {
            Some(AppAction::PrevModel)
        } else if c == 'j' {
            Some(AppAction::NextModel)
        } else {
            None
        },
        _ => None,
    }
}

/// The session-picker bindings; modifiers are ignored.
pub open spec fn spec_session_select_action(key: KeyInput) -> Option<AppAction> {
    match key.code {
        KeyCode::Esc => Some(AppAction::ExitEditMode),
        KeyCode::Enter => Some(AppAction::ExitEditMode),
        KeyCode::Up => Some(AppAction::PrevSession),
        KeyCode::Down => Some(AppAction::NextSession),
        KeyCode::Char(c) => if c == 'k' {
            Some(AppAction::PrevSession)
        } else if c == 'j' {
            Some(AppAction::NextSession)
        } else if c == 'n' {
            Some(AppAction::NewSession)
        } else if c == 'd' {
            Some(AppAction::DeleteSession)
        } else {
            None
        },
        _ => None,
    }
}

/// The help-overlay bindings: any dismiss key closes it.
pub open spec fn spec_help_action(key: KeyInput) -> Option<AppAction> {
    match key.code {
        KeyCode::Esc => Some(AppAction::ToggleHelp),
        KeyCode::Char(c) => if c == 'q' || c == '?' {
            Some(AppAction::ToggleHelp)
        } else {
            None
        },
        KeyCode::F(n) => if n == 1 {
            Some(AppAction::ToggleHelp)
        } else {
            None
        },
        _ => None,
    }
}

/// The delete-confirmation bindings: confirm or cancel.
pub open spec fn spec_delete_confirm_action(key: KeyInput) -> Option<AppAction> {
    match key.code {
        KeyCode::Enter => Some(AppAction::ConfirmDeleteSession),
        KeyCode::Esc => Some(AppAction::CancelDeleteSession),
        KeyCode::Char(c) => if c == 'y' || c == 'Y' {
            Some(AppAction::ConfirmDeleteSession)
        } else if c == 'n' || c == 'N' {
            Some(AppAction::CancelDeleteSession)
        } else {
            None
        },
        _ => None,
    }
}

/// What a key press means: the global quit bindings first, then the
/// table of the current mode.
pub open spec fn spec_key_action(key: KeyInput, mode: InputMode) -> Option<AppAction> {
    match spec_global_action(key) {
        Some(a) => Some(a),
        None => match mode {
            InputMode::Normal => spec_normal_action(key),
            InputMode::Editing => spec_editing_action(key),
            InputMode::ModelSelect => spec_model_select_action(key),
            InputMode::SessionSelect => spec_session_select_action(key),
            InputMode::Help => spec_help_action(key),
            InputMode::DeleteConfirm => spec_delete_confirm_action(key),
        },
    }
}

/// Maps a key press to an action under the state's current mode. The
/// two global quit combinations win over every mode table.
pub fn handle_key_event(key: KeyInput, state: &AppState) -> (r: Option<AppAction>)
    ensures
        r == spec_key_action(key, state.input_mode),
{
    if (key.code == KeyCode::Char('c') || key.code == KeyCode::Char('q')) && key.modifiers
        == KeyModifiers::control() {
        return Some(AppAction::Quit);
    }
    match state.input_mode {
        InputMode::Normal => handle_normal_mode(key),
        InputMode::Editing => handle_editing_mode(key),
        InputMode::ModelSelect => handle_model_select_mode(key),
        InputMode::SessionSelect => handle_session_select_mode(key),
        InputMode::Help => handle_help_mode(key),
        InputMode::DeleteConfirm => handle_delete_confirm_mode(key),
    }
}

/// Normal-mode lookup.
fn handle_normal_mode(key: KeyInput) -> (r: Option<AppAction>)
    ensures
        r == spec_normal_action(key),
{
    let m = key.modifiers;
    let none = KeyModifiers::none();
    let ctrl = KeyModifiers::control();
    match key.code {
        KeyCode::Char(c) => {
            if c == 'q' && m == none {
                Some(AppAction::Quit)
            } else if c == 'i' && m == none {
                Some(AppAction::EnterEditMode)
            } else if c == 'n' && m == ctrl {
                Some(AppAction::NewSession)
            } else if c == 'w' && m == ctrl {
                Some(AppAction::RequestDeleteSession)
            } else if c == 'm' && m == none {
                Some(AppAction::OpenModelSelect)
            } else if c == 'k' && m == none {
                Some(AppAction::ScrollUp(1))
            } else if c == 'j' && m == none {
                Some(AppAction::ScrollDown(1))
            } else if c == 'u' && m == ctrl {
                Some(AppAction::PageUp)
            } else if c == 'd' && m == ctrl {
                Some(AppAction::PageDown)
            } else if c == 'g' && m == none {
                Some(AppAction::ScrollToTop)
            } else if c == 'G' && m == KeyModifiers::shift_only() {
                Some(AppAction::ScrollToBottom)
            } else if c == '?' {
                Some(AppAction::ToggleHelp)
            } else if c == 'r' && m == ctrl {
                Some(AppAction::RefreshModels)
            } else {
                None
            }
        },
        KeyCode::Enter => Some(AppAction::EnterEditMode),
        KeyCode::Tab => if m == none {
            Some(AppAction::NextSession)
        } else {
            None
        },
        KeyCode::BackTab => Some(AppAction::PrevSession),
        KeyCode::Up => Some(AppAction::ScrollUp(1)),
        KeyCode::Down => Some(AppAction::ScrollDown(1)),
        KeyCode::PageUp => Some(AppAction::PageUp),
        KeyCode::PageDown => Some(AppAction::PageDown),
        KeyCode::Home => Some(AppAction::ScrollToTop),
        KeyCode::End => Some(AppAction::ScrollToBottom),
        KeyCode::F(n) => if n == 1 {
            Some(AppAction::ToggleHelp)
        } else {
            None
        },
        KeyCode::Esc => Some(AppAction::ClearError),
        _ => None,
    }
}

/// Editing-mode lookup.
fn handle_editing_mode(key: KeyInput) -> (r: Option<AppAction>)
    ensures
        r == spec_editing_action(key),
{
    let m = key.modifiers;
    let none = KeyModifiers::none();
    let ctrl = KeyModifiers::control();
    match key.code {
        KeyCode::Esc => Some(AppAction::ExitEditMode),
        KeyCode::Enter => if m == none {
            Some(AppAction::SubmitMessage)
        } else {
            None
        },
        KeyCode::Char(c) => {
            if m == none || m == KeyModifiers::shift_only() {
                Some(AppAction::InsertChar(c))
            } else if c == 'h' && m == ctrl {
                Some(AppAction::DeleteChar)
            } else if (c == 'w' || c == 'u') && m == ctrl {
                Some(AppAction::ClearInput)
            } else if c == 'b' && m == ctrl {
                Some(AppAction::MoveCursorLeft)
            } else if c == 'f' && m == ctrl {
                Some(AppAction::MoveCursorRight)
            } else if c == 'a' && m == ctrl {
                Some(AppAction::MoveCursorStart)
            } else if c == 'e' && m == ctrl {
                Some(AppAction::MoveCursorEnd)
            } else {
                None
            }
        },
        KeyCode::Backspace => Some(AppAction::DeleteChar),
        KeyCode::Delete => Some(AppAction::DeleteCharForward),
        KeyCode::Left => Some(AppAction::MoveCursorLeft),
        KeyCode::Right => Some(AppAction::MoveCursorRight),
        KeyCode::Home => Some(AppAction::MoveCursorStart),
        KeyCode::End => Some(AppAction::MoveCursorEnd),
        _ => None,
    }
}

/// Model-picker lookup.
fn handle_model_select_mode(key: KeyInput) -> (r: Option<AppAction>)
    ensures
        r == spec_model_select_action(key),
{
    match key.code {
        KeyCode::Esc => Some(AppAction::CloseModelSelect),
        KeyCode::Enter => Some(AppAction::ConfirmModel),
        KeyCode::Up => Some(AppAction::PrevModel),
        KeyCode::Down => Some(AppAction::NextModel),
        KeyCode::Char(c) => if c == 'q' {
            Some(AppAction::CloseModelSelect)
        } else if c == 'k' {
            Some(AppAction::PrevModel)
        } else if c == 'j' {
            Some(AppAction::NextModel)
        } else {
            None
        },
        _ => None,
    }
}

/// Session-picker lookup.
fn handle_session_select_mode(key: KeyInput) -> (r: Option<AppAction>)
    ensures
        r == spec_session_select_action(key),
{
    match key.code {
        KeyCode::Esc => Some(AppAction::ExitEditMode),
        KeyCode::Enter => Some(AppAction::ExitEditMode),
        KeyCode::Up => Some(AppAction::PrevSession),
        KeyCode::Down => Some(AppAction::NextSession),
        KeyCode::Char(c) => if c == 'k' {
            Some(AppAction::PrevSession)
        } else if c == 'j' {
            Some(AppAction::NextSession)
        } else if c == 'n' {
            Some(AppAction::NewSession)
        } else if c == 'd' {
            Some(AppAction::DeleteSession)
        } else {
            None
        },
        _ => None,
    }
}

/// Help-overlay lookup.
fn handle_help_mode(key: KeyInput) -> (r: Option<AppAction>)
    ensures
        r == spec_help_action(key),
{
    match key.code {
        KeyCode::Esc => Some(AppAction::ToggleHelp),
        KeyCode::Char(c) => if c == 'q' || c == '?' {
            Some(AppAction::ToggleHelp)
        } else {
            None
        },
        KeyCode::F(n) => if n == 1 {
            Some(AppAction::ToggleHelp)
        } else {
            None
        },
        _ => None,
    }
}

/// Delete-confirmation lookup.
fn handle_delete_confirm_mode(key: KeyInput) -> (r: Option<AppAction>)
    ensures
        r == spec_delete_confirm_action(key),
{
    match key.code {
        KeyCode::Enter => Some(AppAction::ConfirmDeleteSession),
        KeyCode::Esc => Some(AppAction::CancelDeleteSession),
        KeyCode::Char(c) => if c == 'y' || c == 'Y' {
            Some(AppAction::ConfirmDeleteSession)
        } else if c == 'n' || c == 'N' {
            Some(AppAction::CancelDeleteSession)
        } else {
            None
        },
        _ => None,
    }
}

/// The position of the first model with the given name, if any.
pub open spec fn spec_find_model(
    models: Seq<crate::protocol::ModelInfo>,
    name: Seq<char>,
    from: int,
) -> Option<int>
    decreases models.len() - from,
{
    if from < 0 || from >= models.len() {
        None
    } else if models[from].name@ == name {
        Some(from)
    } else {
        spec_find_model(models, name, from + 1)
    }
}

/// The position of the first model with the given name, if any.
pub(crate) fn find_model_idx(
    models: &Vec<crate::protocol::ModelInfo>,
    name: &String,
) -> (r: Option<usize>)
    ensures
        match r {
            Some(j) => spec_find_model(models@, name@, 0) == Some(j as int),
            None => spec_find_model(models@, name@, 0) is None,
        },
{
    let n = models.len();
    let mut j: usize = 0;
    while j < n
        invariant
            j <= n,
            n == models@.len(),
            spec_find_model(models@, name@, 0) == spec_find_model(models@, name@, j as int),
        decreases n - j,
    {
        if models[j].name == *name {
            return Some(j);
        }
        j += 1;
    }
    None
}

/// What `process_action` asks the caller to do after the state change.
#[derive(Debug, Clone, Copy, PartialEq, Eq, Structural)]
pub enum Effect {
    /// Nothing beyond the state change.
    Nothing,
    /// Persist the session list.
    SaveSessions,
}

/// Applies one action to the state. Total over the action set: invalid
/// actions are no-ops, and nothing here performs I/O — a confirmed
/// deletion only asks the caller, through the returned effect, to
/// persist the sessions. Every action but `ClearError` first clears the
/// transient error text; a rejected deletion request then sets its own.
#[verifier::rlimit(100)]
#[verifier::spinoff_prover]
pub fn process_action(action: AppAction, state: &mut AppState) -> (eff: Effect)
    requires
        old(state).wf(),
    ensures
        final(state).wf(),
        eff == if action == AppAction::ConfirmDeleteSession {
            Effect::SaveSessions
        } else {
            Effect::Nothing
        },
        match action {
            AppAction::NextSession => {
                &&& *final(state) == (AppState {
                    active_session_idx: final(state).active_session_idx,
                    chat_scroll: 0usize,
                    error_message: None,
                    ..*old(state)
                })
                &&& final(state).sessions == old(state).sessions
                &&& final(state).active_session_idx == (old(state).active_session_idx + 1) % (
                old(state).sessions@.len() as int)
                &&& final(state).chat_scroll == 0
                &&& final(state).error_message is None
                &&& final(state).input_mode == old(state).input_mode
            },
            AppAction::PrevSession => {
                &&& *final(state) == (AppState {
                    active_session_idx: final(state).active_session_idx,
                    chat_scroll: 0usize,
                    error_message: None,
                    ..*old(state)
                })
                &&& final(state).sessions == old(state).sessions
                &&& final(state).active_session_idx == if old(state).active_session_idx == 0 {
                    old(state).sessions@.len() - 1
                } else {
                    old(state).active_session_idx - 1
                }
                &&& final(state).chat_scroll == 0
                &&& final(state).error_message is None
                &&& final(state).input_mode == old(state).input_mode
            },
            AppAction::NewSession => {
                &&& *final(state) == (AppState {
                    sessions: final(state).sessions,
                    active_session_idx: final(state).active_session_idx,
                    chat_scroll: 0usize,
                    status_message: None,
                    error_message: None,
                    ..*old(state)
                })
                &&& final(state).sessions@.len() == old(state).sessions@.len() + 1
                &&& final(state).sessions@.drop_last() == old(state).sessions@
                &&& final(state).sessions@.last().model@ == old(state).spec_current_model()
                &&& final(state).sessions@.last().messages@.len() == 0
                &&& final(state).active_session_idx == old(state).sessions@.len()
                &&& final(state).error_message is None
            },
            AppAction::DeleteSession => {
                &&& *final(state) == (AppState {
                    sessions: final(state).sessions,
                    active_session_idx: final(state).active_session_idx,
                    chat_scroll: final(state).chat_scroll,
                    error_message: None,
                    ..*old(state)
                })
                &&& old(state).sessions@.len() == 1 ==> final(state).sessions == old(
                    state,
                ).sessions
                &&& old(state).sessions@.len() > 1 ==> final(state).sessions@ == old(
                    state,
                ).sessions@.remove(old(state).active_session_idx as int)
                &&& final(state).error_message is None
            },
            AppAction::SelectSession(idx) => {
                &&& *final(state) == (AppState {
                    active_session_idx: final(state).active_session_idx,
                    chat_scroll: final(state).chat_scroll,
                    error_message: None,
                    ..*old(state)
                })
                &&& final(state).sessions == old(state).sessions
                &&& final(state).active_session_idx == if idx < old(state).sessions@.len() {
                    idx as int
                } else {
                    old(state).active_session_idx as int
                }
                &&& final(state).error_message is None
            },
            AppAction::RequestDeleteSession => {
                &&& *final(state) == (AppState {
                    input_mode: final(state).input_mode,
                    error_message: final(state).error_message,
                    ..*old(state)
                })
                &&& final(state).sessions == old(state).sessions
                &&& final(state).streaming == old(state).streaming
                &&& old(state).sessions@.len() <= 1 ==> {
                    &&& final(state).input_mode == old(state).input_mode
                    &&& final(state).error_message matches Some(m) && m@
                        == "Cannot delete the last remaining session"@
                }
                &&& old(state).sessions@.len() > 1 && old(state).streaming ==> {
                    &&& final(state).input_mode == old(state).input_mode
                    &&& final(state).error_message matches Some(m) && m@
                        == "Cannot delete session while receiving response"@
                }
                &&& old(state).sessions@.len() > 1 && !old(state).streaming ==> {
                    &&& final(state).input_mode == InputMode::DeleteConfirm
                    &&& final(state).error_message is None
                }
            },
            AppAction::ConfirmDeleteSession => {
                &&& *final(state) == (AppState {
                    sessions: final(state).sessions,
                    active_session_idx: final(state).active_session_idx,
                    chat_scroll: final(state).chat_scroll,
                    input_mode: InputMode::Normal,
                    status_message: final(state).status_message,
                    error_message: None,
                    ..*old(state)
                })
                &&& old(state).sessions@.len() == 1 ==> final(state).sessions == old(
                    state,
                ).sessions
                &&& old(state).sessions@.len() > 1 ==> final(state).sessions@ == old(
                    state,
                ).sessions@.remove(old(state).active_session_idx as int)
                &&& final(state).input_mode == InputMode::Normal
                &&& final(state).status_message matches Some(m) && m@ == "Session deleted: "@
                    + old(state).sessions@[old(state).active_session_idx as int].name@
                &&& final(state).error_message is None
            },
            AppAction::CancelDeleteSession => *final(state) == (AppState {
                input_mode: InputMode::Normal,
                error_message: None,
                ..*old(state)
            }),
            AppAction::OpenModelSelect => {
                &&& *final(state) == (AppState {
                    input_mode: InputMode::ModelSelect,
                    selected_model_idx: final(state).selected_model_idx,
                    error_message: None,
                    ..*old(state)
                })
                &&& final(state).input_mode == InputMode::ModelSelect
                &&& final(state).selected_model_idx == match spec_find_model(
                    old(state).models@,
                    old(state).sessions@[old(state).active_session_idx as int].model@,
                    0,
                ) {
                    Some(j) => j,
                    None => old(state).selected_model_idx as int,
                }
                &&& final(state).sessions == old(state).sessions
                &&& final(state).error_message is None
            },
            AppAction::CloseModelSelect => *final(state) == (AppState {
                input_mode: InputMode::Normal,
                error_message: None,
                ..*old(state)
            }),
            AppAction::NextModel => *final(state) == (AppState {
                selected_model_idx: if old(state).models@.len() == 0 {
                    old(state).selected_model_idx
                } else if old(state).selected_model_idx + 1 >= old(state).models@.len() {
                    0usize
                } else {
                    (old(state).selected_model_idx + 1) as usize
                },
                error_message: None,
                ..*old(state)
            }),
            AppAction::PrevModel => *final(state) == (AppState {
                selected_model_idx: if old(state).models@.len() == 0 {
                    old(state).selected_model_idx
                } else if old(state).selected_model_idx == 0 {
                    (old(state).models@.len() - 1) as usize
                } else {
                    (old(state).selected_model_idx - 1) as usize
                },
                error_message: None,
                ..*old(state)
            }),
            AppAction::ConfirmModel => {
                &&& *final(state) == (AppState {
                    sessions: final(state).sessions,
                    input_mode: InputMode::Normal,
                    status_message: final(state).status_message,
                    error_message: None,
                    ..*old(state)
                })
                &&& final(state).input_mode == InputMode::Normal
                &&& old(state).selected_model_idx < old(state).models@.len() ==> {
                    &&& final(state).sessions@[old(state).active_session_idx as int].model@ == old(
                        state,
                    ).models@[old(state).selected_model_idx as int].name@
                    &&& final(state).status_message matches Some(m) && m@
                        == "Switched to model: "@ + old(state).models@[old(
                        state,
                    ).selected_model_idx as int].name@
                }
                &&& old(state).selected_model_idx >= old(state).models@.len()
                    ==> final(state).sessions == old(state).sessions
                &&& final(state).error_message is None
            },
            AppAction::SelectModel(idx) => {
                &&& *final(state) == (AppState {
                    selected_model_idx: final(state).selected_model_idx,
                    error_message: None,
                    ..*old(state)
                })
                &&& final(state).selected_model_idx == if idx < old(state).models@.len() {
                    idx as int
                } else {
                    old(state).selected_model_idx as int
                }
                &&& final(state).sessions == old(state).sessions
                &&& final(state).error_message is None
            },
            AppAction::EnterEditMode => *final(state) == (AppState {
                input_mode: InputMode::Editing,
                error_message: None,
                ..*old(state)
            }),
            AppAction::ExitEditMode => *final(state) == (AppState {
                input_mode: InputMode::Normal,
                error_message: None,
                ..*old(state)
            }),
            AppAction::SubmitMessage => *final(state) == (AppState {
                error_message: None,
                ..*old(state)
            }),
            AppAction::InsertChar(c) => {
                &&& *final(state) == (AppState {
                    input: final(state).input,
                    cursor_position: final(state).cursor_position,
                    error_message: None,
                    ..*old(state)
                })
                &&& final(state).input@ == old(state).input@.insert(
                    old(state).cursor_position as int,
                    c,
                )
                &&& final(state).cursor_position == old(state).cursor_position + 1
                &&& final(state).sessions == old(state).sessions
                &&& final(state).error_message is None
            },
            AppAction::DeleteChar => {
                &&& *final(state) == (AppState {
                    input: final(state).input,
                    cursor_position: final(state).cursor_position,
                    error_message: None,
                    ..*old(state)
                })
                &&& old(state).cursor_position == 0 ==> final(state).input == old(state).input
                    && final(state).cursor_position == old(state).cursor_position
                &&& old(state).cursor_position > 0 ==> final(state).input@ == old(
                    state,
                ).input@.remove(old(state).cursor_position - 1 as int)
                    && final(state).cursor_position == old(state).cursor_position - 1
                &&& final(state).error_message is None
            },
            AppAction::DeleteCharForward => {
                &&& *final(state) == (AppState {
                    input: final(state).input,
                    cursor_position: final(state).cursor_position,
                    error_message: None,
                    ..*old(state)
                })
                &&& old(state).cursor_position == old(state).input@.len() ==> final(state).input
                    == old(state).input
                &&& old(state).cursor_position < old(state).input@.len() ==> final(state).input@
                    == old(state).input@.remove(old(state).cursor_position as int)
                &&& final(state).cursor_position == old(state).cursor_position
                &&& final(state).error_message is None
            },
            AppAction::MoveCursorLeft => {
                &&& *final(state) == (AppState {
                    cursor_position: final(state).cursor_position,
                    error_message: None,
                    ..*old(state)
                })
                &&& final(state).cursor_position == if old(state).cursor_position > 0 {
                    old(state).cursor_position - 1
                } else {
                    0int
                }
                &&& final(state).input == old(state).input
                &&& final(state).error_message is None
            },
            AppAction::MoveCursorRight => {
                &&& *final(state) == (AppState {
                    cursor_position: final(state).cursor_position,
                    error_message: None,
                    ..*old(state)
                })
                &&& final(state).cursor_position == if old(state).cursor_position < old(
                    state,
                ).input@.len() {
                    old(state).cursor_position + 1
                } else {
                    old(state).cursor_position as int
                }
                &&& final(state).input == old(state).input
                &&& final(state).error_message is None
            },
            AppAction::MoveCursorStart => {
                &&& *final(state) == (AppState {
                    cursor_position: 0usize,
                    error_message: None,
                    ..*old(state)
                })
                &&& final(state).cursor_position == 0
                &&& final(state).input == old(state).input
                &&& final(state).error_message is None
            },
            AppAction::MoveCursorEnd => {
                &&& *final(state) == (AppState {
                    cursor_position: final(state).cursor_position,
                    error_message: None,
                    ..*old(state)
                })
                &&& final(state).cursor_position == final(state).input@.len()
                &&& final(state).input == old(state).input
                &&& final(state).error_message is None
            },
            AppAction::ClearInput => {
                &&& *final(state) == (AppState {
                    input: final(state).input,
                    cursor_position: 0usize,
                    error_message: None,
                    ..*old(state)
                })
                &&& final(state).input@.len() == 0
                &&& final(state).cursor_position == 0
                &&& final(state).error_message is None
            },
            AppAction::ScrollUp(n) => {
                &&& *final(state) == (AppState {
                    chat_scroll: final(state).chat_scroll,
                    error_message: None,
                    ..*old(state)
                })
                &&& final(state).chat_scroll == if old(state).chat_scroll + n <= usize::MAX {
                    old(state).chat_scroll + n
                } else {
                    usize::MAX as int
                }
                &&& final(state).sessions == old(state).sessions
                &&& final(state).error_message is None
            },
            AppAction::ScrollDown(n) => {
                &&& *final(state) == (AppState {
                    chat_scroll: final(state).chat_scroll,
                    error_message: None,
                    ..*old(state)
                })
                &&& final(state).chat_scroll == if old(state).chat_scroll >= n {
                    old(state).chat_scroll - n
                } else {
                    0int
                }
                &&& final(state).sessions == old(state).sessions
                &&& final(state).error_message is None
            },
            AppAction::ScrollToTop => *final(state) == (AppState {
                chat_scroll: (usize::MAX / 2) as usize,
                error_message: None,
                ..*old(state)
            }),
            AppAction::ScrollToBottom => *final(state) == (AppState {
                chat_scroll: 0usize,
                error_message: None,
                ..*old(state)
            }),
            AppAction::PageUp => {
                &&& *final(state) == (AppState {
                    chat_scroll: final(state).chat_scroll,
                    error_message: None,
                    ..*old(state)
                })
                &&& final(state).chat_scroll == if old(state).chat_scroll + 10 <= usize::MAX {
                    old(state).chat_scroll + 10
                } else {
                    usize::MAX as int
                }
                &&& final(state).error_message is None
            },
            AppAction::PageDown => {
                &&& *final(state) == (AppState {
                    chat_scroll: final(state).chat_scroll,
                    error_message: None,
                    ..*old(state)
                })
                &&& final(state).chat_scroll == if old(state).chat_scroll >= 10 {
                    old(state).chat_scroll - 10
                } else {
                    0int
                }
                &&& final(state).error_message is None
            },
            AppAction::ToggleHelp => *final(state) == (AppState {
                input_mode: if old(state).input_mode == InputMode::Help {
                    InputMode::Normal
                } else {
                    InputMode::Help
                },
                error_message: None,
                ..*old(state)
            }),
            AppAction::ClearError => *final(state) == (AppState {
                error_message: None,
                ..*old(state)
            }),
            AppAction::Quit => *final(state) == (AppState {
                should_quit: true,
                error_message: None,
                ..*old(state)
            }),
            AppAction::RefreshModels => {
                &&& *final(state) == (AppState {
                    status_message: final(state).status_message,
                    error_message: None,
                    ..*old(state)
                })
                &&& final(state).status_message matches Some(m) && m@ == "Refreshing models..."@
                &&& final(state).sessions == old(state).sessions
                &&& final(state).error_message is None
            },
        },
{
    match action {
        AppAction::ClearError => {},
        _ => {
            state.clear_error();
        },
    }
    match action {
        AppAction::NextSession => {
            state.next_session();
            Effect::Nothing
        },
        AppAction::PrevSession => {
            state.prev_session();
            Effect::Nothing
        },
        AppAction::NewSession => {
            state.new_session();
            Effect::Nothing
        },
        AppAction::DeleteSession => {
            state.delete_current_session();
            Effect::Nothing
        },
        AppAction::SelectSession(idx) => {
            if idx < state.sessions.len() {
                state.active_session_idx = idx;
                state.chat_scroll = 0;
            }
            Effect::Nothing
        },
        AppAction::RequestDeleteSession => {
            if state.sessions.len() <= 1 {
                state.set_error("Cannot delete the last remaining session");
            } else if state.streaming {
                state.set_error("Cannot delete session while receiving response");
            } else {
                state.input_mode = InputMode::DeleteConfirm;
            }
            Effect::Nothing
        },
        AppAction::ConfirmDeleteSession => {
            let name = state.sessions[state.active_session_idx].name.clone();
            state.delete_current_session();
            let mut msg = String::from_str("Session deleted: ");
            msg.append(name.as_str());
            state.set_status_string(msg);
            state.input_mode = InputMode::Normal;
            Effect::SaveSessions
        },
        AppAction::CancelDeleteSession => {
            state.input_mode = InputMode::Normal;
            Effect::Nothing
        },
        AppAction::OpenModelSelect => {
            state.input_mode = InputMode::ModelSelect;
            let current = state.sessions[state.active_session_idx].model.clone();
            match find_model_idx(&state.models, &current) {
                Some(j) => {
                    state.selected_model_idx = j;
                },
                None => {},
            }
            Effect::Nothing
        },
        AppAction::CloseModelSelect => {
            state.input_mode = InputMode::Normal;
            Effect::Nothing
        },
        AppAction::NextModel => {
            state.next_model();
            Effect::Nothing
        },
        AppAction::PrevModel => {
            state.prev_model();
            Effect::Nothing
        },
        AppAction::ConfirmModel => {
            if state.selected_model_idx < state.models.len() {
                let name = state.models[state.selected_model_idx].name.clone();
                state.set_model(name.as_str());
                let mut msg = String::from_str("Switched to model: ");
                msg.append(name.as_str());
                state.set_status_string(msg);
            }
            state.input_mode = InputMode::Normal;
            Effect::Nothing
        },
        AppAction::SelectModel(idx) => {
            if idx < state.models.len() {
                state.selected_model_idx = idx;
            }
            Effect::Nothing
        },
        AppAction::EnterEditMode => {
            state.input_mode = InputMode::Editing;
            Effect::Nothing
        },
        AppAction::ExitEditMode => {
            state.input_mode = InputMode::Normal;
            Effect::Nothing
        },
        AppAction::SubmitMessage => {
            // Submission itself is intercepted by the event loop before
            // generic dispatch; as a plain action it changes nothing.
            Effect::Nothing
        },
        AppAction::InsertChar(c) => {
            state.insert_char(c);
            Effect::Nothing
        },
        AppAction::DeleteChar => {
            state.delete_char();
            Effect::Nothing
        },
        AppAction::DeleteCharForward => {
            state.delete_char_forward();
            Effect::Nothing
        },
        AppAction::MoveCursorLeft => {
            state.move_cursor_left();
            Effect::Nothing
        },
        AppAction::MoveCursorRight => {
            state.move_cursor_right();
            Effect::Nothing
        },
        AppAction::MoveCursorStart => {
            state.move_cursor_start();
            Effect::Nothing
        },
        AppAction::MoveCursorEnd => {
            state.move_cursor_end();
            Effect::Nothing
        },
        AppAction::ClearInput => {
            state.clear_input();
            Effect::Nothing
        },
        AppAction::ScrollUp(n) => {
            state.scroll_up(n);
            Effect::Nothing
        },
        AppAction::ScrollDown(n) => {
            state.scroll_down(n);
            Effect::Nothing
        },
        AppAction::ScrollToTop => {
            state.chat_scroll = usize::MAX / 2;
            Effect::Nothing
        },
        AppAction::ScrollToBottom => {
            state.scroll_to_bottom();
            Effect::Nothing
        },
        AppAction::PageUp => {
            state.scroll_up(10);
            Effect::Nothing
        },
        AppAction::PageDown => {
            state.scroll_down(10);
            Effect::Nothing
        },
        AppAction::ToggleHelp => {
            state.input_mode = if state.input_mode == InputMode::Help {
                InputMode::Normal
            } else {
                InputMode::Help
            };
            Effect::Nothing
        },
        AppAction::ClearError => {
            state.clear_error();
            Effect::Nothing
        },
        AppAction::Quit => {
            state.should_quit = true;
            Effect::Nothing
        },
        AppAction::RefreshModels => {
            state.set_status("Refreshing models...");
            Effect::Nothing
        },
    }
}

/// A rectangle of the rendered screen, in terminal cells.
#[derive(Debug, Clone, Copy, PartialEq, Eq, Structural)]
pub struct ScreenRect {
    /// Leftmost column.
    pub x: u16,
    /// Topmost row.
    pub y: u16,
    /// Width in columns.
    pub width: u16,
    /// Height in rows.
    pub height: u16,
}

/// Where the renderer placed the three panes this frame; mouse clicks
/// are resolved against it.
#[derive(Debug, Clone, Copy, PartialEq, Eq, Structural)]
pub struct AppRegions {
    /// The session sidebar.
    pub sidebar: ScreenRect,
    /// The conversation pane.
    pub chat: ScreenRect,
    /// The input line.
    pub input: ScreenRect,
}

/// Whether a cell lies inside a rectangle.
pub open spec fn spec_contains(rect: ScreenRect, x: u16, y: u16) -> bool {
    &&& rect.x <= x < rect.x + rect.width
    &&& rect.y <= y < rect.y + rect.height
}

/// Whether a cell lies inside a rectangle.
pub fn contains(rect: ScreenRect, x: u16, y: u16) -> (r: bool)
    ensures
        r == spec_contains(rect, x, y),
{
    let xw: u32 = rect.x as u32 + rect.width as u32;
    let yh: u32 = rect.y as u32 + rect.height as u32;
    rect.x <= x && (x as u32) < xw && rect.y <= y && (y as u32) < yh
}

/// What kind of mouse event arrived.
#[derive(Debug, Clone, Copy, PartialEq, Eq, Structural)]
pub enum MouseKind {
    /// The left button went down.
    LeftDown,
    /// The wheel scrolled up.
    WheelUp,
    /// The wheel scrolled down.
    WheelDown,
    /// Anything else, which the bindings ignore.
    Other,
}

/// One mouse event: its kind and the cell it happened in.
#[derive(Debug, Clone, Copy, PartialEq, Eq, Structural)]
pub struct MouseInput {
    /// What happened.
    pub kind: MouseKind,
    /// Column of the event.
    pub column: u16,
    /// Row of the event.
    pub row: u16,
}

/// What a left click means, given the mode, the session count and the
/// pane layout. Overlays dismiss first; then the sidebar resolves to a
/// session or the model box, the input pane starts editing, and the
/// chat pane does nothing.
pub open spec fn spec_mouse_click(
    x: u16,
    y: u16,
    mode: InputMode,
    session_count: nat,
    regions: AppRegions,
) -> Option<AppAction> {
    if mode == InputMode::Help {
        Some(AppAction::ToggleHelp)
    } else if mode == InputMode::DeleteConfirm {
        Some(AppAction::CancelDeleteSession)
    } else if mode == InputMode::ModelSelect {
        Some(AppAction::CloseModelSelect)
    } else if spec_contains(regions.sidebar, x, y) {
        spec_sidebar_click(y, session_count, regions)
    } else if spec_contains(regions.input, x, y) {
        if mode != InputMode::Editing {
            Some(AppAction::EnterEditMode)
        } else {
            None
        }
    } else {
        None
    }
}

/// What a click inside the sidebar means: the bottom five rows open the
/// model picker; a row of the sessions list above selects that session.
pub open spec fn spec_sidebar_click(y: u16, session_count: nat, regions: AppRegions) -> Option<
    AppAction,
> {
    let sb = regions.sidebar;
    let model_box_y = sb.y + (if sb.height >= 5 {
        sb.height - 5
    } else {
        0int
    });
    let list_y = sb.y + 1;
    let list_height = if sb.height >= 7 {
        sb.height - 7
    } else {
        0int
    };
    if y >= model_box_y {
        Some(AppAction::OpenModelSelect)
    } else if list_y <= y < list_y + list_height {
        if y - list_y < session_count {
            Some(AppAction::SelectSession((y - list_y) as usize))
        } else {
            None
        }
    } else {
        None
    }
}

/// What a mouse event means under the current mode: a left click is
/// resolved against the panes, and the wheel scrolls the conversation or
/// moves the model picker.
pub open spec fn spec_mouse_action(
    mouse: MouseInput,
    mode: InputMode,
    session_count: nat,
    regions: AppRegions,
) -> Option<AppAction> {
    match mouse.kind {
        MouseKind::LeftDown => spec_mouse_click(mouse.column, mouse.row, mode, session_count, regions),
        MouseKind::WheelUp => match mode {
            InputMode::Normal | InputMode::Editing => Some(AppAction::ScrollUp(3)),
            InputMode::ModelSelect => Some(AppAction::PrevModel),
            _ => None,
        },
        MouseKind::WheelDown => match mode {
            InputMode::Normal | InputMode::Editing => Some(AppAction::ScrollDown(3)),
            InputMode::ModelSelect => Some(AppAction::NextModel),
            _ => None,
        },
        MouseKind::Other => None,
    }
}

/// Maps a mouse event to an action under the state's current mode and
/// the pane layout of the last frame.
pub fn handle_mouse_event(mouse: MouseInput, state: &AppState, regions: AppRegions) -> (r: Option<
    AppAction,
>)
    ensures
        r == spec_mouse_action(mouse, state.input_mode, state.sessions@.len(), regions),
{
    match mouse.kind {
        MouseKind::LeftDown => handle_mouse_click(mouse.column, mouse.row, state, regions),
        MouseKind::WheelUp => match state.input_mode {
            InputMode::Normal | InputMode::Editing => Some(AppAction::ScrollUp(3)),
            InputMode::ModelSelect => Some(AppAction::PrevModel),
            _ => None,
        },
        MouseKind::WheelDown => match state.input_mode {
            InputMode::Normal | InputMode::Editing => Some(AppAction::ScrollDown(3)),
            InputMode::ModelSelect => Some(AppAction::NextModel),
            _ => None,
        },
        MouseKind::Other => None,
    }
}

/// Resolves a left click against the overlays and panes.
fn handle_mouse_click(x: u16, y: u16, state: &AppState, regions: AppRegions) -> (r: Option<
    AppAction,
>)
    ensures
        r == spec_mouse_click(x, y, state.input_mode, state.sessions@.len(), regions),
{
    match state.input_mode {
        InputMode::Help => {
            return Some(AppAction::ToggleHelp);
        },
        InputMode::DeleteConfirm => {
            return Some(AppAction::CancelDeleteSession);
        },
        InputMode::ModelSelect => {
            return Some(AppAction::CloseModelSelect);
        },
        _ => {},
    }
    if contains(regions.sidebar, x, y) {
        return handle_sidebar_click(y, state, regions);
    }
    if contains(regions.input, x, y) {
        if !(state.input_mode == InputMode::Editing) {
            return Some(AppAction::EnterEditMode);
        }
        return None;
    }
    None
}

/// Resolves a click inside the sidebar to a session row or the model
/// box.
fn handle_sidebar_click(y: u16, state: &AppState, regions: AppRegions) -> (r: Option<AppAction>)
    ensures
        r == spec_sidebar_click(y, state.sessions@.len(), regions),
{
    let sb = regions.sidebar;
    let model_box_y: u32 = sb.y as u32 + (if sb.height >= 5 {
        (sb.height - 5) as u32
    } else {
        0u32
    });
    if y as u32 >= model_box_y {
        return Some(AppAction::OpenModelSelect);
    }
    let list_y: u32 = sb.y as u32 + 1;
    let list_height: u32 = if sb.height >= 7 {
        (sb.height - 7) as u32
    } else {
        0u32
    };
    if list_y <= y as u32 && (y as u32) < list_y + list_height {
        let clicked: u32 = y as u32 - list_y;
        if (clicked as usize) < state.sessions.len() {
            return Some(AppAction::SelectSession(clicked as usize));
        }
    }
    None
}

/// The rows of the help overlay: a binding and what it does, with blank
/// rows and unlabelled section headers between them.
pub fn get_help_text() -> (r: Vec<(&'static str, &'static str)>)
    ensures
        r@.len() == 26,
        r@[0].0@ == "General"@ && r@[0].1@ == ""@,
        r@[1].0@ == "  q / Ctrl+c"@ && r@[1].1@ == "Quit"@,
        r@[2].0@ == "  ?"@ && r@[2].1@ == "Toggle help"@,
        r@[3].0@ == "  Ctrl+r"@ && r@[3].1@ == "Refresh models"@,
        r@[4].0@ == ""@ && r@[4].1@ == ""@,
        r@[5].0@ == "Navigation"@ && r@[5].1@ == ""@,
        r@[6].0@ == "  Tab"@ && r@[6].1@ == "Next session"@,
        r@[7].0@ == "  Shift+Tab"@ && r@[7].1@ == "Previous session"@,
        r@[8].0@ == "  Ctrl+n"@ && r@[8].1@ == "New session"@,
        r@[9].0@ == "  Ctrl+w"@ && r@[9].1@ == "Delete session"@,
        r@[10].0@ == "  m"@ && r@[10].1@ == "Select model"@,
        r@[11].0@ == ""@ && r@[11].1@ == ""@,
        r@[12].0@ == "Chat"@ && r@[12].1@ == ""@,
        r@[13].0@ == "  i / Enter"@ && r@[13].1@ == "Start typing"@,
        r@[14].0@ == "  Esc"@ && r@[14].1@ == "Stop typing"@,
        r@[15].0@ == "  Enter"@ && r@[15].1@ == "Send message (while typing)"@,
        r@[16].0@ == ""@ && r@[16].1@ == ""@,
        r@[17].0@ == "Scrolling"@ && r@[17].1@ == ""@,
        r@[18].0@ == "  j/k or ↑/↓"@ && r@[18].1@ == "Scroll up/down"@,
        r@[19].0@ == "  Ctrl+u/d"@ && r@[19].1@ == "Page up/down"@,
        r@[20].0@ == "  g / G"@ && r@[20].1@ == "Top / Bottom"@,
        r@[21].0@ == ""@ && r@[21].1@ == ""@,
        r@[22].0@ == "Input Editing"@ && r@[22].1@ == ""@,
        r@[23].0@ == "  Ctrl+a/e"@ && r@[23].1@ == "Start/end of line"@,
        r@[24].0@ == "  Ctrl+u"@ && r@[24].1@ == "Clear input"@,
        r@[25].0@ == "  Ctrl+w"@ && r@[25].1@ == "Delete word"@,
{
    let rows: Vec<(&'static str, &'static str)> = vec![
        ("General", ""),
        ("  q / Ctrl+c", "Quit"),
        ("  ?", "Toggle help"),
        ("  Ctrl+r", "Refresh models"),
        ("", ""),
        ("Navigation", ""),
        ("  Tab", "Next session"),
        ("  Shift+Tab", "Previous session"),
        ("  Ctrl+n", "New session"),
        ("  Ctrl+w", "Delete session"),
        ("  m", "Select model"),
        ("", ""),
        ("Chat", ""),
        ("  i / Enter", "Start typing"),
        ("  Esc", "Stop typing"),
        ("  Enter", "Send message (while typing)"),
        ("", ""),
        ("Scrolling", ""),
        ("  j/k or ↑/↓", "Scroll up/down"),
        ("  Ctrl+u/d", "Page up/down"),
        ("  g / G", "Top / Bottom"),
        ("", ""),
        ("Input Editing", ""),
        ("  Ctrl+a/e", "Start/end of line"),
        ("  Ctrl+u", "Clear input"),
        ("  Ctrl+w", "Delete word"),
    ];
    rows
}

} // verus!
