use tenx_hooks::coverage::find_missing_fields;
use tenx_hooks::coverage::missing_paths;
use tenx_hooks::coverage::validate_entry_coverage;
use tenx_hooks::json::JsonField;
use tenx_hooks::json::JsonValue;
use tenx_hooks::parse::parse_transcript_line;
use tenx_hooks::parse::parse_transcript_with_raw;

fn field(key: &str, value: JsonValue) -> JsonField {
    JsonField {
        key: key.to_string(),
        value,
    }
}

fn s(text: &str) -> JsonValue {
    JsonValue::Str(text.to_string())
}

#[test]
fn fully_modeled_summary_has_no_gaps() {
    let line = r#"{"type":"summary","summary":"s","leafUuid":"l"}"#;
    let entry = parse_transcript_line(line).expect("summary line should parse");
    let report = validate_entry_coverage(line, &entry).expect("line is valid JSON");
    assert_eq!(report, Vec::<String>::new());
}

#[test]
fn fully_modeled_user_entry_has_no_gaps() {
    let line = r#"{"type":"user","message":{"role":"user","content":"hello"},"uuid":"u1","timestamp":"t","cwd":"/x","sessionId":"s","version":"1","userType":"external","isSidechain":false,"parentUuid":null}"#;
    let entry = parse_transcript_line(line).expect("user line should parse");
    let report = validate_entry_coverage(line, &entry).expect("line is valid JSON");
    assert_eq!(report, Vec::<String>::new());
}

#[test]
fn root_level_gap_is_detected() {
    let line = r#"{"type":"summary","summary":"x","leafUuid":"y","extra":"z"}"#;
    let entry = parse_transcript_line(line).expect("summary line should parse");
    let report = validate_entry_coverage(line, &entry).expect("line is valid JSON");
    assert_eq!(report, vec!["extra".to_string()]);
}

#[test]
fn nested_gap_is_reported_with_its_path() {
    let raw = JsonValue::Obj(vec![field(
        "message",
        JsonValue::Obj(vec![
            field("content", s("hi")),
            field("unknownNested", s("v")),
        ]),
    )]);
    let round = JsonValue::Obj(vec![field(
        "message",
        JsonValue::Obj(vec![field("content", s("hi"))]),
    )]);
    let report = missing_paths(&raw, &round, "");
    assert_eq!(report, vec!["message.unknownNested".to_string()]);
}

#[test]
fn array_gap_is_reported_per_index() {
    let raw = JsonValue::Obj(vec![field(
        "items",
        JsonValue::Arr(vec![
            JsonValue::Obj(vec![
                field("id", JsonValue::Num("1".to_string())),
                field("extra", s("f")),
            ]),
            JsonValue::Obj(vec![field("id", JsonValue::Num("2".to_string()))]),
        ]),
    )]);
    let round = JsonValue::Obj(vec![field(
        "items",
        JsonValue::Arr(vec![
            JsonValue::Obj(vec![field("id", JsonValue::Num("1".to_string()))]),
            JsonValue::Obj(vec![field("id", JsonValue::Num("2".to_string()))]),
        ]),
    )]);
    let report = missing_paths(&raw, &round, "");
    assert_eq!(report, vec!["items.[0].extra".to_string()]);
}

#[test]
fn raw_element_beyond_round_length_is_reported_whole() {
    let raw = JsonValue::Arr(vec![s("a"), s("b"), s("c")]);
    let round = JsonValue::Arr(vec![s("a")]);
    let report = missing_paths(&raw, &round, "xs.");
    assert_eq!(report, vec!["xs.[1]".to_string(), "xs.[2]".to_string()]);
}

#[test]
fn structural_mismatch_is_not_a_finding() {
    let raw = JsonValue::Obj(vec![field("a", JsonValue::Obj(vec![field("b", s("c"))]))]);
    let round = JsonValue::Obj(vec![field("a", s("scalar"))]);
    // `a` exists on both sides; the shapes differ, but coverage does not
    // compare values, so nothing is reported.
    let report = missing_paths(&raw, &round, "");
    assert_eq!(report, Vec::<String>::new());
}

#[test]
fn validation_of_invalid_raw_text_fails_distinctly() {
    let line = r#"{"type":"summary","summary":"s","leafUuid":"l"}"#;
    let entry = parse_transcript_line(line).expect("summary line should parse");
    let err = validate_entry_coverage("not json at all", &entry)
        .expect_err("garbage raw text must be a distinct failure");
    assert!(!err.message.is_empty());
}

#[test]
fn raw_preserving_parse_supports_validation() {
    let text = format!(
        "{}\n{}",
        r#"{"type":"summary","summary":"x","leafUuid":"y","extra":"z"}"#,
        r#"{"type":"summary","summary":"a","leafUuid":"b"}"#,
    );
    let result = parse_transcript_with_raw(&text);
    assert_eq!(result.entries.len(), 2);
    assert_eq!(result.errors.len(), 0);

    let first = &result.entries[0];
    let report = validate_entry_coverage(&first.raw, &first.entry).expect("raw text is JSON");
    assert_eq!(report, vec!["extra".to_string()]);

    let second = &result.entries[1];
    let report = validate_entry_coverage(&second.raw, &second.entry).expect("raw text is JSON");
    assert_eq!(report, Vec::<String>::new());
}

#[test]
fn unmodeled_payload_keys_survive_the_round_trip() {
    // The opaque tool-use result is kept as a raw tree, so its keys are not
    // coverage gaps.
    let line = r#"{"type":"user","message":{"role":"user","content":"hi"},"uuid":"u","timestamp":"t","cwd":"/","sessionId":"s","version":"1","userType":"external","isSidechain":false,"parentUuid":null,"toolUseResult":{"anything":{"nested":1}}}"#;
    let entry = parse_transcript_line(line).expect("user line should parse");
    let report = validate_entry_coverage(line, &entry).expect("line is valid JSON");
    assert_eq!(report, Vec::<String>::new());
}

#[test]
fn find_missing_fields_matches_validate() {
    let line = r#"{"type":"summary","summary":"x","leafUuid":"y","extra":"z"}"#;
    let entry = parse_transcript_line(line).expect("summary line should parse");
    let raw = JsonValue::Obj(vec![
        field("type", s("summary")),
        field("summary", s("x")),
        field("leafUuid", s("y")),
        field("extra", s("z")),
    ]);
    let report = find_missing_fields(&raw, &entry);
    assert_eq!(report, vec!["extra".to_string()]);
}
