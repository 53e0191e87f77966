//! Tests of text wrapping, size formatting, the Markdown export, and
//! the stored-list operations.

use ratatalk::export::{export_session_to_markdown, merge_session, remove_session_by_id};
use ratatalk::session::{ChatSession, Message};
use ratatalk::text::{format_size, wrap_text};

#[test]
fn test_wrap_text_simple() {
    let result = wrap_text("hello world", 20);
    assert_eq!(result, vec!["hello world"]);
}

#[test]
fn test_wrap_text_multiline() {
    let result = wrap_text("hello world this is a test", 10);
    assert_eq!(result, vec!["hello", "world this", "is a test"]);
}

#[test]
fn test_wrap_text_newlines() {
    let result = wrap_text("line1\nline2", 20);
    assert_eq!(result, vec!["line1", "line2"]);
}

#[test]
fn test_wrap_text_long_word_is_split() {
    let result = wrap_text("abcdefgh", 3);
    assert_eq!(result, vec!["abc", "def", "gh"]);
}

#[test]
fn test_wrap_text_zero_width() {
    let result = wrap_text("anything at all", 0);
    assert_eq!(result, vec!["anything at all"]);
}

#[test]
fn test_format_size() {
    assert_eq!(format_size(500), "500 B");
    assert_eq!(format_size(1536), "1.5 KB");
    assert_eq!(format_size(1_500_000), "1.4 MB");
    assert_eq!(format_size(4_000_000_000), "3.7 GB");
}

#[test]
fn test_export_markdown() {
    let mut session = ChatSession::new("Test Chat", "llama3.2");
    session.messages.push(Message::user("Hello!"));
    session.messages.push(Message::assistant("Hi there!"));

    let md = export_session_to_markdown(&session);

    assert!(md.contains("# Test Chat"));
    assert!(md.contains("llama3.2"));
    assert!(md.contains("Hello!"));
    assert!(md.contains("Hi there!"));
}

#[test]
fn test_export_markdown_formats_timestamps() {
    let mut session = ChatSession::new("Stamped", "llama3.2");
    // 2024-01-01T00:00:00Z in milliseconds since the Unix epoch.
    session.created_at_ms = 1_704_067_200_000;
    session.updated_at_ms = 1_704_067_200_000;
    let mut msg = Message::user("Hello!");
    msg.timestamp_ms = 1_704_067_200_000 + 9 * 60_000;
    session.messages.push(msg);

    let md = export_session_to_markdown(&session);
    assert!(md.contains("**Created:** 2024-01-01 00:00"));
    assert!(md.contains("**Updated:** 2024-01-01 00:00"));
    assert!(md.contains("**You** (00:09)"));
    assert!(md.contains("\n\n---\n\n"));
}

#[test]
fn test_export_markdown_includes_system_prompt() {
    let mut session = ChatSession::new("Prompted", "llama3.2");
    session.system_prompt = Some("be brief".to_string());
    let md = export_session_to_markdown(&session);
    assert!(md.contains("## System Prompt\n\nbe brief"));
    assert!(md.contains("## Conversation"));
}

#[test]
fn test_merge_session_replaces_by_id() {
    let a = ChatSession::new("a", "m");
    let b = ChatSession::new("b", "m");
    let mut stored = vec![a.clone(), b.clone()];

    let mut changed = b.clone();
    changed.name = "renamed".to_string();
    merge_session(&mut stored, changed);
    assert_eq!(stored.len(), 2);
    assert_eq!(stored[1].name, "renamed");

    let fresh = ChatSession::new("c", "m");
    merge_session(&mut stored, fresh);
    assert_eq!(stored.len(), 3);
    assert_eq!(stored[2].name, "c");
}

#[test]
fn test_remove_session_by_id() {
    let a = ChatSession::new("a", "m");
    let b = ChatSession::new("b", "m");
    let c = ChatSession::new("c", "m");
    let mut stored = vec![a.clone(), b.clone(), c.clone()];
    remove_session_by_id(&mut stored, b.id);
    assert_eq!(stored.len(), 2);
    assert_eq!(stored[0].name, "a");
    assert_eq!(stored[1].name, "c");
    remove_session_by_id(&mut stored, 0);
    assert_eq!(stored.len(), 2);
}
