use tenx_hooks::inputs::combine_inputs;
use tenx_hooks::inputs::parse_json_inputs;
use tenx_hooks::inputs::parse_string_inputs;
use tenx_hooks::inputs::InputError;
use tenx_hooks::json::JsonField;
use tenx_hooks::json::JsonValue;

fn get<'a>(table: &'a [JsonField], key: &str) -> Option<&'a JsonValue> {
    table.iter().find(|f| f.key == key).map(|f| &f.value)
}

#[test]
fn test_parse_string_inputs() {
    let inputs = vec![
        "command=echo hello".to_string(),
        "file=/tmp/test.txt".to_string(),
    ];

    let result = parse_string_inputs(&inputs).unwrap();
    assert_eq!(
        get(&result, "command").unwrap(),
        &JsonValue::Str("echo hello".to_string())
    );
    assert_eq!(
        get(&result, "file").unwrap(),
        &JsonValue::Str("/tmp/test.txt".to_string())
    );
}

#[test]
fn test_parse_json_inputs() {
    let inputs = vec![
        r#"args=["one", "two", "three"]"#.to_string(),
        r#"count=42"#.to_string(),
        r#"config={"debug": true}"#.to_string(),
    ];

    let result = parse_json_inputs(&inputs).unwrap();
    assert_eq!(
        get(&result, "args").unwrap(),
        &JsonValue::Arr(vec![
            JsonValue::Str("one".to_string()),
            JsonValue::Str("two".to_string()),
            JsonValue::Str("three".to_string()),
        ])
    );
    assert_eq!(
        get(&result, "count").unwrap(),
        &JsonValue::Num("42".to_string())
    );
    assert_eq!(
        get(&result, "config").unwrap(),
        &JsonValue::Obj(vec![JsonField {
            key: "debug".to_string(),
            value: JsonValue::Bool(true),
        }])
    );
}

#[test]
fn test_combine_inputs() {
    let base = vec![JsonField {
        key: "existing".to_string(),
        value: JsonValue::Str("base".to_string()),
    }];

    let string_inputs = vec!["command=test".to_string()];
    let json_inputs = vec![r#"command="override""#.to_string()];

    let result = combine_inputs(Some(base), &string_inputs, &json_inputs).unwrap();

    assert_eq!(
        get(&result, "command").unwrap(),
        &JsonValue::Str("override".to_string())
    );
    assert_eq!(
        get(&result, "existing").unwrap(),
        &JsonValue::Str("base".to_string())
    );
}

#[test]
fn pair_without_equals_is_rejected() {
    let inputs = vec!["nopair".to_string()];
    match parse_string_inputs(&inputs) {
        Err(InputError::BadPair(p)) => assert_eq!(p, "nopair"),
        other => panic!("expected a bad-pair failure, got {other:?}"),
    }
}

#[test]
fn bad_json_value_is_rejected_with_its_key() {
    let inputs = vec!["config={broken".to_string()];
    match parse_json_inputs(&inputs) {
        Err(InputError::BadJson { key, error }) => {
            assert_eq!(key, "config");
            assert!(!error.message.is_empty());
        }
        other => panic!("expected a bad-json failure, got {other:?}"),
    }
}

#[test]
fn later_pair_overrides_earlier_pair_in_place() {
    let inputs = vec!["k=a".to_string(), "x=1".to_string(), "k=b".to_string()];
    let result = parse_string_inputs(&inputs).unwrap();
    assert_eq!(result.len(), 2);
    assert_eq!(result[0].key, "k");
    assert_eq!(result[0].value, JsonValue::Str("b".to_string()));
    assert_eq!(result[1].key, "x");
}
