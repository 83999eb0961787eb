use tenx_hooks::color::ColorMode;
use tenx_hooks::decode::EntryDecodeError;
use tenx_hooks::parse::parse_transcript;
use tenx_hooks::parse::parse_transcript_line;
use tenx_hooks::parse::parse_transcript_with_context;
use tenx_hooks::parse::DecodeFailure;
use tenx_hooks::transcript::TranscriptEntry;
use tenx_hooks::transcript::TranscriptMessage;

const SUMMARY: &str = r#"{"type":"summary","summary":"one","leafUuid":"l1"}"#;
const SUMMARY2: &str = r#"{"type":"summary","summary":"two","leafUuid":"l2"}"#;
const BAD: &str = "{ broken";

#[test]
fn malformed_lines_are_isolated() {
    let text = format!("{SUMMARY}\n{BAD}\n{SUMMARY2}\n{BAD}\n{SUMMARY}");
    let result = parse_transcript_with_context(&text);
    assert_eq!(result.entries.len(), 3);
    assert_eq!(result.errors.len(), 2);
    assert_eq!(result.errors[0].line_number, 2);
    assert_eq!(result.errors[1].line_number, 4);
    assert_eq!(result.errors[0].line_content, BAD);
    assert_eq!(result.errors[1].line_content, BAD);
}

#[test]
fn order_of_entries_and_errors_follows_the_source() {
    let text = format!("{SUMMARY}\n{BAD}\n{SUMMARY2}");
    let result = parse_transcript_with_context(&text);
    let summaries: Vec<String> = result
        .entries
        .iter()
        .map(|e| match e {
            TranscriptEntry::Summary(s) => s.summary.clone(),
            _ => panic!("expected summary entries"),
        })
        .collect();
    assert_eq!(summaries, vec!["one".to_string(), "two".to_string()]);
    assert!(result.errors.windows(2).all(|w| w[0].line_number < w[1].line_number));
}

#[test]
fn blank_lines_are_skipped_without_shifting_numbers() {
    let text = format!("\n{SUMMARY}\n\n{BAD}\n\n{SUMMARY2}\n");
    let result = parse_transcript_with_context(&text);
    assert_eq!(result.entries.len(), 2);
    assert_eq!(result.errors.len(), 1);
    // The malformed line keeps its original 1-based position.
    assert_eq!(result.errors[0].line_number, 4);
}

#[test]
fn empty_text_parses_to_nothing() {
    let result = parse_transcript_with_context("");
    assert_eq!(result.entries.len(), 0);
    assert_eq!(result.errors.len(), 0);
}

#[test]
fn whole_parse_stops_at_the_first_failure() {
    let text = format!("{SUMMARY}\n{BAD}\n{SUMMARY2}");
    let err = parse_transcript(&text).expect_err("a malformed line fails the whole parse");
    assert!(matches!(err, DecodeFailure::Syntax(_)));

    let text = format!("{SUMMARY}\n\n{SUMMARY2}");
    let entries = parse_transcript(&text).expect("blank lines are skipped");
    assert_eq!(entries.len(), 2);
}

#[test]
fn syntax_errors_carry_a_column() {
    let err = parse_transcript_line(r#"{"type": }"#).expect_err("malformed JSON must fail");
    match err {
        DecodeFailure::Syntax(e) => {
            assert!(e.column > 0);
            assert!(!e.message.is_empty());
        }
        other => panic!("expected a syntax failure, got {other:?}"),
    }
}

#[test]
fn decode_error_variants_name_their_cause() {
    let err = parse_transcript_line("[1, 2]").expect_err("an array is no entry");
    assert!(matches!(
        err,
        DecodeFailure::Entry(EntryDecodeError::NotAnObject)
    ));

    let err = parse_transcript_line(r#"{"summary":"x"}"#).expect_err("the tag is required");
    match err {
        DecodeFailure::Entry(EntryDecodeError::MissingField(k)) => assert_eq!(k, "type"),
        other => panic!("expected a missing tag, got {other:?}"),
    }

    let err = parse_transcript_line(r#"{"type":7}"#).expect_err("the tag must be a string");
    match err {
        DecodeFailure::Entry(EntryDecodeError::WrongType(k)) => assert_eq!(k, "type"),
        other => panic!("expected a wrong-typed tag, got {other:?}"),
    }

    let err = parse_transcript_line(r#"{"type":"banana"}"#).expect_err("unknown kinds fail");
    match err {
        DecodeFailure::Entry(EntryDecodeError::UnknownEntryKind(t)) => assert_eq!(t, "banana"),
        other => panic!("expected an unknown entry kind, got {other:?}"),
    }

    let line = r#"{"type":"user","message":{"role":"robot"},"uuid":"u","timestamp":"t","cwd":"/","sessionId":"s","version":"1","userType":"external","isSidechain":false,"parentUuid":null}"#;
    let err = parse_transcript_line(line).expect_err("unknown roles fail");
    match err {
        DecodeFailure::Entry(EntryDecodeError::UnknownRole(t)) => assert_eq!(t, "robot"),
        other => panic!("expected an unknown role, got {other:?}"),
    }

    let line = r#"{"type":"user","message":{"role":"user","content":[{"type":"video"}]},"uuid":"u","timestamp":"t","cwd":"/","sessionId":"s","version":"1","userType":"external","isSidechain":false,"parentUuid":null}"#;
    let err = parse_transcript_line(line).expect_err("unknown block kinds fail");
    match err {
        DecodeFailure::Entry(EntryDecodeError::UnknownBlockKind(t)) => assert_eq!(t, "video"),
        other => panic!("expected an unknown block kind, got {other:?}"),
    }
}

#[test]
fn usage_counts_are_read_back_exactly() {
    let line = r#"{"type":"assistant","message":{"id":"m","type":"message","role":"assistant","model":"m1","content":"x","stop_reason":null,"stop_sequence":null,"usage":{"input_tokens":18446744073709551615,"output_tokens":0,"cache_read_input_tokens":13884}},"uuid":"u","timestamp":"t","cwd":"/","sessionId":"s","version":"1","userType":"external","isSidechain":false,"parentUuid":"p"}"#;
    let entry = parse_transcript_line(line).expect("assistant line should parse");
    match entry {
        TranscriptEntry::Assistant(a) => match a.message {
            TranscriptMessage::Assistant { usage, .. } => {
                assert_eq!(usage.input_tokens, Some(u64::MAX));
                assert_eq!(usage.output_tokens, Some(0));
                assert_eq!(usage.cache_read_input_tokens, Some(13884));
                assert_eq!(usage.cache_creation_input_tokens, None);
                assert_eq!(usage.service_tier, None);
            }
            _ => panic!("expected assistant message"),
        },
        _ => panic!("expected assistant entry"),
    }
}

#[test]
fn fractional_token_counts_are_rejected() {
    let line = r#"{"type":"assistant","message":{"id":"m","type":"message","role":"assistant","model":"m1","content":"x","stop_reason":null,"stop_sequence":null,"usage":{"input_tokens":1.5}},"uuid":"u","timestamp":"t","cwd":"/","sessionId":"s","version":"1","userType":"external","isSidechain":false,"parentUuid":"p"}"#;
    let err = parse_transcript_line(line).expect_err("a fractional count is unusable");
    match err {
        DecodeFailure::Entry(EntryDecodeError::WrongType(k)) => {
            assert_eq!(k, "input_tokens");
        }
        other => panic!("expected a wrong-typed count, got {other:?}"),
    }
}

#[test]
fn carriage_returns_before_line_feeds_are_stripped() {
    let text = format!("{SUMMARY}\r\n{SUMMARY2}\r\n");
    let result = parse_transcript_with_context(&text);
    assert_eq!(result.entries.len(), 2);
    assert_eq!(result.errors.len(), 0);
}

#[test]
fn parsed_fields_round_trip_the_wire_values() {
    let line = r#"{"type":"user","message":{"role":"user","content":"hello"},"uuid":"u1","timestamp":"t","cwd":"/x","sessionId":"s","version":"1","userType":"external","isSidechain":false,"parentUuid":null}"#;
    let entry = parse_transcript_line(line).expect("user line should parse");
    match entry {
        TranscriptEntry::User(u) => {
            assert_eq!(u.uuid, "u1");
            assert_eq!(u.timestamp, "t");
            assert_eq!(u.cwd, "/x");
            assert_eq!(u.session_id, "s");
            assert_eq!(u.version, "1");
            assert_eq!(u.user_type, "external");
            assert!(!u.is_sidechain);
            assert_eq!(u.parent_uuid, None);
            assert!(u.tool_use_result.is_none());
        }
        _ => panic!("expected user entry"),
    }
}

#[test]
fn rust_edits_are_found_in_tool_uses() {
    let with_edit = r#"{"type":"assistant","message":{"id":"m","type":"message","role":"assistant","model":"m1","content":"x","tool_uses":[{"toolName":"Edit","toolInput":{"file_path":"/src/main.rs"}}],"stop_reason":null,"stop_sequence":null,"usage":{}},"uuid":"u","timestamp":"t","cwd":"/","sessionId":"s","version":"1","userType":"external","isSidechain":false,"parentUuid":"p"}"#;
    let without_edit = r#"{"type":"assistant","message":{"id":"m","type":"message","role":"assistant","model":"m1","content":"x","tool_uses":[{"toolName":"Edit","toolInput":{"file_path":"/notes.md"}}],"stop_reason":null,"stop_sequence":null,"usage":{}},"uuid":"u","timestamp":"t","cwd":"/","sessionId":"s","version":"1","userType":"external","isSidechain":false,"parentUuid":"p"}"#;

    let entries = vec![parse_transcript_line(with_edit).expect("should parse")];
    assert!(tenx_hooks::rust_files::has_edited_rust_files(&entries));

    let entries = vec![parse_transcript_line(without_edit).expect("should parse")];
    assert!(!tenx_hooks::rust_files::has_edited_rust_files(&entries));
}

#[test]
fn color_mode_follows_the_flags() {
    assert_eq!(ColorMode::from_flags(true, false), ColorMode::Always);
    assert_eq!(ColorMode::from_flags(false, true), ColorMode::Never);
    assert_eq!(ColorMode::from_flags(false, false), ColorMode::Auto);
    assert!(ColorMode::Always.should_colorize());
    assert!(!ColorMode::Never.should_colorize());
}

#[test]
fn decoding_an_entry_written_back_gives_the_entry_again() {
    let line = r#"{"type":"user","message":{"role":"user","content":[{"type":"text","text":"hi"},{"type":"tool_result","tool_use_id":"t1","content":[{"type":"text","text":"ok"}],"is_error":false}]},"uuid":"u1","timestamp":"t","cwd":"/x","sessionId":"s","version":"1","userType":"external","isSidechain":false,"parentUuid":"p0","toolUseResult":{"k":[1,2]}}"#;
    let entry = parse_transcript_line(line).expect("user line should parse");
    let wire = entry.to_json();
    let again = tenx_hooks::decode::decode_entry(&wire).expect("the wire form decodes");
    assert_eq!(format!("{again:?}"), format!("{entry:?}"));
}
