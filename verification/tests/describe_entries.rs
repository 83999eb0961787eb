use tenx_hooks::parse::parse_transcript_line;
use tenx_hooks::transcript::MessageContent;

#[test]
fn user_entry_description_shows_its_text() {
    let line = r#"{"type":"user","message":{"role":"user","content":"hello"},"uuid":"u1","timestamp":"t","cwd":"/x","sessionId":"s","version":"1","userType":"external","isSidechain":false,"parentUuid":null}"#;
    let entry = parse_transcript_line(line).expect("user line should parse");
    assert_eq!(entry.description(), "User: hello");
    assert_eq!(entry.uuid(), Some("u1"));
    assert_eq!(entry.timestamp(), Some("t"));
}

#[test]
fn user_description_truncates_sixty_characters_to_fifty() {
    let text: String = "abcdefghij".repeat(6);
    assert_eq!(text.chars().count(), 60);
    let line = format!(
        r#"{{"type":"user","message":{{"role":"user","content":"{text}"}},"uuid":"u","timestamp":"t","cwd":"/","sessionId":"s","version":"1","userType":"external","isSidechain":false,"parentUuid":null}}"#
    );
    let entry = parse_transcript_line(&line).expect("user line should parse");
    let expected: String = text.chars().take(50).collect::<String>() + "...";
    assert_eq!(entry.description(), format!("User: {expected}"));
}

#[test]
fn user_description_keeps_fifty_characters_untouched() {
    let text: String = "abcdefghij".repeat(5);
    let line = format!(
        r#"{{"type":"user","message":{{"role":"user","content":"{text}"}},"uuid":"u","timestamp":"t","cwd":"/","sessionId":"s","version":"1","userType":"external","isSidechain":false,"parentUuid":null}}"#
    );
    let entry = parse_transcript_line(&line).expect("user line should parse");
    assert_eq!(entry.description(), format!("User: {text}"));
}

#[test]
fn user_without_content_gets_a_placeholder() {
    let line = r#"{"type":"user","message":{"role":"user"},"uuid":"u","timestamp":"t","cwd":"/","sessionId":"s","version":"1","userType":"external","isSidechain":false,"parentUuid":null}"#;
    let entry = parse_transcript_line(line).expect("user line should parse");
    assert_eq!(entry.description(), "User: No content");
}

#[test]
fn system_description_shows_the_level() {
    let line = r#"{"type":"system","uuid":"u","timestamp":"t","content":"c","cwd":"/","sessionId":"s","version":"1","userType":"external","isSidechain":false,"parentUuid":"p","isMeta":false,"level":"warning"}"#;
    let entry = parse_transcript_line(line).expect("system line should parse");
    assert_eq!(entry.description(), "System[warning]");

    let line = r#"{"type":"system","uuid":"u","timestamp":"t","content":"c","cwd":"/","sessionId":"s","version":"1","userType":"external","isSidechain":false,"parentUuid":"p","isMeta":false}"#;
    let entry = parse_transcript_line(line).expect("system line should parse");
    assert_eq!(entry.description(), "System[unknown]");
}

#[test]
fn summary_description_shows_the_summary() {
    let line = r#"{"type":"summary","summary":"Test summary","leafUuid":"leaf-123"}"#;
    let entry = parse_transcript_line(line).expect("summary line should parse");
    assert_eq!(entry.description(), "Summary: Test summary");
    assert_eq!(entry.uuid(), None);
    assert_eq!(entry.timestamp(), None);
}

#[test]
fn assistant_description_lists_thinking_tools_and_code() {
    let line = r#"{"type":"assistant","message":{"id":"m","type":"message","role":"assistant","model":"m1","content":[{"type":"tool_use","id":"t1","name":"bash","input":{}},{"type":"text","text":"hi"}],"thinking":"hm","tool_uses":[{"toolName":"bash","toolInput":{}},{"toolName":"edit","toolInput":{}}],"code_outputs":[{"code":"print"}],"stop_reason":null,"stop_sequence":null,"usage":{}},"uuid":"u","timestamp":"t","cwd":"/","sessionId":"s","version":"1","userType":"external","isSidechain":false,"parentUuid":"p"}"#;
    let entry = parse_transcript_line(line).expect("assistant line should parse");
    // Two listed tool uses plus one tool-use block inside the content.
    assert_eq!(
        entry.description(),
        "Assistant: with thinking: 3 tool uses: 1 code outputs"
    );
}

#[test]
fn assistant_description_is_bare_without_extras() {
    let line = r#"{"type":"assistant","message":{"id":"m","type":"message","role":"assistant","model":"m1","content":"hello","stop_reason":null,"stop_sequence":null,"usage":{"input_tokens":1,"output_tokens":2,"service_tier":"standard"}},"uuid":"u","timestamp":"t","cwd":"/","sessionId":"s","version":"1","userType":"external","isSidechain":false,"parentUuid":"p"}"#;
    let entry = parse_transcript_line(line).expect("assistant line should parse");
    assert_eq!(entry.description(), "Assistant");
}

#[test]
fn as_text_joins_blocks_with_spaces() {
    let line = r#"{"type":"assistant","message":{"id":"m","type":"message","role":"assistant","model":"m1","content":[{"type":"text","text":"one"},{"type":"tool_use","id":"t","name":"bash","input":{}},{"type":"tool_result","tool_use_id":"t","content":[{"type":"text","text":"two"},{"type":"text","text":"three"}]},{"type":"thinking","thinking":"four"}],"stop_reason":null,"stop_sequence":null,"usage":{}},"uuid":"u","timestamp":"t","cwd":"/","sessionId":"s","version":"1","userType":"external","isSidechain":false,"parentUuid":"p"}"#;
    let entry = parse_transcript_line(line).expect("assistant line should parse");
    let content = match entry {
        tenx_hooks::transcript::TranscriptEntry::Assistant(a) => match a.message {
            tenx_hooks::transcript::TranscriptMessage::Assistant { content, .. } => {
                content.expect("content is present")
            }
            _ => panic!("expected assistant message"),
        },
        _ => panic!("expected assistant entry"),
    };
    assert_eq!(content.as_text(), "one bash two three four");
    assert!(content.has_tool_uses());
    assert_eq!(content.count_tool_uses(), 1);
    assert_eq!(content.count_tool_results(), 1);
}

#[test]
fn bare_string_content_has_no_tool_uses() {
    let content = MessageContent::Text("hello".to_string());
    assert_eq!(content.as_text(), "hello");
    assert!(!content.has_tool_uses());
    assert_eq!(content.count_tool_uses(), 0);
    assert_eq!(content.count_tool_results(), 0);
}
