//! Tests of the streaming chunk decoder and the stream folding.

use ratatalk::protocol::{
    complete_stream, decode_chunk_line, extract_models, ChatMessage, ChunkEvent,
    StreamDirective, StreamProgress,
};
use ratatalk::session::Role;

#[test]
fn test_chat_message_creation() {
    let msg = ChatMessage::user("Hello!");
    assert_eq!(msg.role, Role::User);
    assert_eq!(msg.content, "Hello!");
}

#[test]
fn test_response_chunk_parsing() {
    let json = r#"{"model":"llama3.2","created_at":"2024-01-01T00:00:00Z","message":{"role":"assistant","content":"Hello"},"done":false}"#;
    let event = decode_chunk_line(json);
    match event {
        ChunkEvent::Chunk(chunk) => {
            assert_eq!(chunk.content(), Some("Hello"));
            assert!(!chunk.done);
        }
        _ => panic!("expected a decoded chunk"),
    }
}

#[test]
fn test_decode_simple_chunk() {
    let line = r#"{"model":"m","message":{"role":"assistant","content":"Hi"},"done":false}"#;
    match decode_chunk_line(line) {
        ChunkEvent::Chunk(chunk) => {
            assert_eq!(chunk.model, "m");
            assert_eq!(chunk.content(), Some("Hi"));
            assert!(!chunk.done);
            assert!(chunk.error.is_none());
        }
        _ => panic!("expected a decoded chunk"),
    }
}

#[test]
fn test_decode_blank_line_is_inert() {
    assert!(matches!(decode_chunk_line(""), ChunkEvent::Blank));
    assert!(matches!(decode_chunk_line("   \r\n"), ChunkEvent::Blank));
    let mut progress = StreamProgress::new();
    let directive = ratatalk::protocol::step_stream(&mut progress, &ChunkEvent::Blank);
    assert!(matches!(directive, StreamDirective::Continue(None)));
}

#[test]
fn test_decode_garbage_is_malformed() {
    assert!(matches!(decode_chunk_line("{not json"), ChunkEvent::Malformed));
    assert!(matches!(decode_chunk_line("42"), ChunkEvent::Malformed));
    let mut progress = StreamProgress::new();
    match ratatalk::protocol::step_stream(&mut progress, &ChunkEvent::Malformed) {
        StreamDirective::Fail(msg) => {
            assert_eq!(msg, "Failed to parse streaming response");
        }
        _ => panic!("a malformed line must fail the stream"),
    }
}

#[test]
fn test_error_chunk_ends_stream() {
    let line = r#"{"model":"m","done":false,"error":"boom"}"#;
    let event = decode_chunk_line(line);
    let mut progress = StreamProgress::new();
    match ratatalk::protocol::step_stream(&mut progress, &event) {
        StreamDirective::Fail(msg) => assert_eq!(msg, "boom"),
        _ => panic!("an error chunk must fail the stream"),
    }
}

#[test]
fn test_stream_statistics() {
    let mut progress = StreamProgress::new();

    let first = decode_chunk_line(
        r#"{"model":"m","message":{"role":"assistant","content":"Hi"},"done":false}"#,
    );
    match ratatalk::protocol::step_stream(&mut progress, &first) {
        StreamDirective::Continue(Some(text)) => assert_eq!(text, "Hi"),
        _ => panic!("content must be forwarded"),
    }

    let second = decode_chunk_line(
        r#"{"model":"m","message":{"role":"assistant","content":" there"},"done":false}"#,
    );
    match ratatalk::protocol::step_stream(&mut progress, &second) {
        StreamDirective::Continue(Some(text)) => assert_eq!(text, " there"),
        _ => panic!("content must be forwarded"),
    }

    let last = decode_chunk_line(
        r#"{"model":"m","done":true,"eval_count":50,"eval_duration":2000000000,"total_duration":3000000000}"#,
    );
    assert!(matches!(
        ratatalk::protocol::step_stream(&mut progress, &last),
        StreamDirective::Continue(None)
    ));

    let stats = complete_stream(&progress);
    assert_eq!(stats.tokens, 50);
    assert_eq!(stats.tokens_per_second_milli, 25_000);
    assert_eq!(stats.total_duration_ms, 3_000);
}

#[test]
fn test_tokens_per_second_undefined_without_duration() {
    let line = r#"{"model":"m","done":true,"eval_count":50,"eval_duration":0}"#;
    match decode_chunk_line(line) {
        ChunkEvent::Chunk(chunk) => {
            assert_eq!(chunk.tokens_per_second_milli(), None);
        }
        _ => panic!("expected a decoded chunk"),
    }
}

#[test]
fn test_extract_models_reads_list() {
    let body = r#"{"models":[
        {"name":"llama3.2:latest","model":"llama3.2","modified_at":"2024-01-01T00:00:00Z","size":1536,
         "digest":"abc","details":{"family":"llama","families":["llama"],"parameter_size":"3B",
         "quantization_level":"Q4","format":"gguf","parent_model":""}},
        {"name":"tiny","size":500,"done":false}
    ]}"#;
    let models = extract_models(body).expect("a models array decodes");
    assert_eq!(models.len(), 2);
    assert_eq!(models[0].name, "llama3.2:latest");
    assert_eq!(models[0].size, 1536);
    assert_eq!(models[0].modified_at_ms, Some(1_704_067_200_000));
    let details = models[0].details.as_ref().expect("details were sent");
    assert_eq!(details.family, "llama");
    assert_eq!(details.families, vec!["llama".to_string()]);
    assert_eq!(models[1].name, "tiny");
    assert_eq!(models[1].modified_at_ms, None);
    assert!(extract_models("not json").is_none());
    assert!(extract_models("{}").is_none());
}
