//! Tests of the conversation model: messages, sessions, and streaming
//! semantics.

use ratatalk::session::{ChatSession, Message, Role};

#[test]
fn test_message_creation() {
    let msg = Message::user("Hello");
    assert_eq!(msg.role, Role::User);
    assert_eq!(msg.content, "Hello");
    assert!(!msg.streaming);
}

#[test]
fn test_session_streaming() {
    let mut session = ChatSession::new("Test", "llama3.2");
    session.add_user_message("Hi");
    session.start_assistant_response();

    assert!(session.is_streaming());

    session.append_to_response("Hello");
    session.append_to_response(" world!");
    session.finish_response();

    assert!(!session.is_streaming());
    assert_eq!(session.messages.last().unwrap().content, "Hello world!");
}

#[test]
fn test_finish_response_idempotent() {
    let mut session = ChatSession::new("Test", "llama3.2");
    session.add_user_message("Hi");
    session.start_assistant_response();
    session.append_to_response("answer");

    session.finish_response();
    let once_updated = session.updated_at_ms;
    let once_contents: Vec<(String, bool)> =
        session.messages.iter().map(|m| (m.content.clone(), m.streaming)).collect();

    session.finish_response();
    let twice_contents: Vec<(String, bool)> =
        session.messages.iter().map(|m| (m.content.clone(), m.streaming)).collect();

    assert_eq!(session.updated_at_ms, once_updated);
    assert_eq!(once_contents, twice_contents);
}

#[test]
fn test_at_most_last_message_streaming() {
    let mut session = ChatSession::new("Test", "llama3.2");
    session.add_user_message("one");
    session.start_assistant_response();
    session.append_to_response("two");
    let n = session.messages.len();
    for (i, m) in session.messages.iter().enumerate() {
        if i + 1 < n {
            assert!(!m.streaming);
        }
    }
    session.finish_response();
    assert!(session.messages.iter().all(|m| !m.streaming));
}

#[test]
fn test_late_chunk_dropped_after_finish() {
    let mut session = ChatSession::new("Test", "llama3.2");
    session.add_user_message("Hi");
    session.start_assistant_response();
    session.append_to_response("done");
    session.finish_response();
    session.append_to_response(" late");
    assert_eq!(session.messages.last().unwrap().content, "done");
}

#[test]
fn test_default_name_is_timestamped() {
    let session = ChatSession::with_default_name("llama3.2");
    assert!(session.name.starts_with("Chat "));
    assert!(session.name.len() > "Chat ".len());
    assert_eq!(session.model, "llama3.2");
}

#[test]
fn test_to_chat_messages_prefixes_system_prompt() {
    let mut session = ChatSession::new("Test", "llama3.2");
    session.system_prompt = Some("be brief".to_string());
    session.add_user_message("Hi");
    let wire = session.to_chat_messages();
    assert_eq!(wire.len(), 2);
    assert_eq!(wire[0].role, Role::System);
    assert_eq!(wire[0].content, "be brief");
    assert_eq!(wire[1].role, Role::User);
    assert_eq!(wire[1].content, "Hi");
}

#[test]
fn test_preview_shows_last_user_message() {
    let mut session = ChatSession::new("Test", "llama3.2");
    assert_eq!(session.preview(), "(empty)");
    session.add_user_message("first");
    session.start_assistant_response();
    session.append_to_response("reply");
    session.finish_response();
    session.add_user_message("second");
    assert_eq!(session.preview(), "second");
}

#[test]
fn test_role_names() {
    assert_eq!(Role::System.as_str(), "system");
    assert_eq!(Role::User.as_str(), "user");
    assert_eq!(Role::Assistant.as_str(), "assistant");
}
