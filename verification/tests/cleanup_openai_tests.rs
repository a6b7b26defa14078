use spiel::cleanup::{CleanupProviderKind, CleanupRequest};
use spiel::cleanup_openai::{ChatReply, OpenAiCleanupProvider};
use spiel::modes::TextModeKind;
use spiel::transcription_openai::SendFailure;

fn request(text: &str) -> CleanupRequest {
    CleanupRequest {
        raw_text: text.to_string(),
        mode: TextModeKind::CleanNotes,
        provider: CleanupProviderKind::OpenAi,
        source_transcription_id: None,
        created_at: "2024-01-01T00:00:00.000Z".into(),
    }
}

#[test]
fn prepares_the_chat_body() {
    let p = OpenAiCleanupProvider::new("sk-1".into(), None);
    assert_eq!(p.model(), "gpt-4o-mini");
    let c = p.prepare(&request("  say \"hi\"  ")).unwrap();
    assert_eq!(c.raw_trimmed, "say \"hi\"");
    let v: serde_json::Value = serde_json::from_str(&c.body).unwrap();
    assert_eq!(v["model"], "gpt-4o-mini");
    assert_eq!(v["max_tokens"], 4096);
    assert_eq!(v["temperature"], 0.3);
    assert_eq!(v["messages"][0]["role"], "system");
    assert_eq!(v["messages"][1]["role"], "user");
    assert_eq!(v["messages"][1]["content"], "say \"hi\"");
    let system = v["messages"][0]["content"].as_str().unwrap();
    assert!(system.starts_with("You are a text cleanup assistant for Spiel"));
    assert!(system.ends_with(OpenAiCleanupProvider::mode_prompt(TextModeKind::CleanNotes)));
    assert!(system.contains("metadata.\n\nMode: Clean Notes."));
    let e = p.prepare(&request(" \n ")).unwrap_err();
    assert_eq!(e.code, "empty_raw_text");
    assert!(e.recoverable);
}

#[test]
fn reads_the_reply() {
    let p = OpenAiCleanupProvider::new("sk-1".into(), Some("gpt-x".into()));
    assert_eq!(p.model(), "gpt-x");
    let r = request("hello world");
    let body = br#"{"choices":[{"message":{"content":"  Hello, world.  "}}]}"#.to_vec();
    let ok = p.finish(&r, "hello world".into(), ChatReply::Success { body: Ok(body) }, 12, "done".into()).unwrap();
    assert_eq!(ok.final_text, "Hello, world.");
    assert!(ok.changed);
    assert_eq!(ok.warnings.len(), 1);
    assert_eq!(ok.duration_ms, 12);
    assert_eq!(ok.completed_at, "done");
    assert_eq!(ok.created_at, "2024-01-01T00:00:00.000Z");
    let same = br#"{"choices":[{"message":{"content":"hello world"}}]}"#.to_vec();
    let ok = p.finish(&r, "hello world".into(), ChatReply::Success { body: Ok(same) }, 1, "d".into()).unwrap();
    assert!(!ok.changed);
    assert_eq!(ok.warnings.len(), 2);
    let e = p.finish(&r, "hello world".into(), ChatReply::Success { body: Ok(b"not json".to_vec()) }, 1, "d".into()).unwrap_err();
    assert_eq!(e.code, "parse_error");
    assert_eq!(e.message, "Failed to parse OpenAI response: error decoding response body");
    let e = p.finish(&r, "hello world".into(), ChatReply::Success { body: Ok(br#"{"choices":[]}"#.to_vec()) }, 1, "d".into()).unwrap_err();
    assert_eq!(e.code, "empty_response");
    assert!(e.details.is_some());
    let e = p.finish(&r, "x".into(), ChatReply::ErrorStatus { status: 429, body: Some("slow down".into()) }, 1, "d".into()).unwrap_err();
    assert_eq!(e.code, "rate_limited");
    assert_eq!(e.details.as_deref(), Some("slow down"));
    let e = p.finish(&r, "x".into(), ChatReply::ErrorStatus { status: 418, body: None }, 1, "d".into()).unwrap_err();
    assert_eq!(e.code, "openai_error");
    assert_eq!(e.message, "OpenAI returned error 418: Unknown error");
    let e = p.finish(&r, "x".into(), ChatReply::SendFailed { failure: SendFailure::Timeout, error: String::new() }, 1, "d".into()).unwrap_err();
    assert_eq!(e.code, "network_error");
    assert!(e.message.starts_with("OpenAI request timed out"));
    let e = p.finish(&r, "x".into(), ChatReply::ClientFailed { error: "tls".into() }, 1, "d".into()).unwrap_err();
    assert_eq!(e.message, "Failed to create HTTP client: tls");
}

#[test]
fn chat_body_escapes_the_text_as_json() {
    let p = OpenAiCleanupProvider::new("sk-1".into(), None);
    let c = p.prepare(&request("a\"b\\c\nd\te\u{1}f\u{1f}")).unwrap();
    assert!(c.body.contains(r#"{"content":"a\"b\\c\nd\te\u0001f\u001f","role":"user"}"#));
    assert!(c.body.starts_with(r#"{"max_tokens":4096,"messages":[{"content":"You are a text cleanup assistant"#));
    assert!(c.body.ends_with(r#""model":"gpt-4o-mini","temperature":0.3}"#));
}
