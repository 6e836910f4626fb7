use acp_bridge::models::{
    discover_micode_models, parse_js_string_field, parse_models_from_cli_bundle, split_lines,
};
use acp_bridge::usage::{
    normalize_message_token_usage, parse_i64, parse_thread_token_usage_from_session,
    read_usage_number, sat_add, MessageTokens, TokenUsage, UsageValue,
};

fn tokens(input: i64, output: i64, thoughts: i64, tool: i64, total: UsageValue) -> MessageTokens {
    MessageTokens {
        input: UsageValue::Signed(input),
        cached: UsageValue::Text("7".to_string()),
        output: UsageValue::Signed(output),
        thoughts: UsageValue::Signed(thoughts),
        tool: UsageValue::Signed(tool),
        total,
    }
}

#[test]
fn usage_numbers_and_parsing() {
    assert_eq!(parse_i64("-42"), Some(-42));
    assert_eq!(parse_i64("+9"), Some(9));
    assert_eq!(parse_i64("9223372036854775807"), Some(i64::MAX));
    assert_eq!(parse_i64("-9223372036854775808"), Some(i64::MIN));
    assert_eq!(parse_i64("9223372036854775808"), None);
    assert_eq!(parse_i64(""), None);
    assert_eq!(parse_i64("-"), None);
    assert_eq!(parse_i64(" 1"), None);
    assert_eq!(read_usage_number(&UsageValue::Unsigned(u64::MAX)), i64::MAX);
    assert_eq!(read_usage_number(&UsageValue::Text("x".to_string())), 0);
    assert_eq!(read_usage_number(&UsageValue::Missing), 0);
    assert_eq!(sat_add(i64::MAX, 1), i64::MAX);
    assert_eq!(sat_add(i64::MIN, -1), i64::MIN);
}

#[test]
fn message_usage_counts_tools_as_output() {
    let u = normalize_message_token_usage(&tokens(10, 5, 3, 2, UsageValue::Missing));
    assert_eq!(u, TokenUsage { input: 10, cached_input: 7, output: 7, reasoning_output: 3, total: 20 });
    let v = normalize_message_token_usage(&tokens(-4, 1, 0, 0, UsageValue::Signed(100)));
    assert_eq!(v.input, 0);
    assert_eq!(v.total, 100);
}

#[test]
fn thread_usage_keeps_last_and_total() {
    let messages = vec![
        Some(tokens(10, 5, 0, 0, UsageValue::Missing)),
        None,
        Some(tokens(1, 2, 3, 4, UsageValue::Signed(50))),
    ];
    let usage = parse_thread_token_usage_from_session(&messages).unwrap();
    assert_eq!(usage.last.total, 50);
    assert_eq!(usage.last.output, 6);
    assert_eq!(usage.total.input, 11);
    assert_eq!(usage.total.total, 65);
    assert!(parse_thread_token_usage_from_session(&vec![None]).is_none());
}

#[test]
fn js_fields_and_lines() {
    assert_eq!(parse_js_string_field("   id: \"gpt-x\",", "id").as_deref(), Some("gpt-x"));
    assert_eq!(parse_js_string_field("label: \"A \\\"B\\\"\",", "label").as_deref(), Some("A \"B\""));
    assert!(parse_js_string_field("id: 5,", "id").is_none());
    assert!(parse_js_string_field("name: \"x\"", "id").is_none());
    assert_eq!(split_lines("a\r\nb\n\nc\n"), vec!["a", "b", "", "c"]);
    assert!(split_lines("").is_empty());
}

#[test]
fn bundle_models_are_listed_once() {
    let bundle = "ignored\n\
var AVAILABLE_MODELS = [\n\
  // a comment\n\
  {\n\
    id: \"m1\",\n\
    label: \"Model One\",\n\
    description: \"first\",\n\
  },\n\
  {\n\
    id: \"m2\",\n\
    label: \"Model Two\",\n\
    isVisible: false,\n\
  },\n\
  {\n\
    id: \"m3\",\n\
    label: \"Three\",\n\
  },\n\
  {\n\
    id: \"m1\",\n\
    label: \"Again\",\n\
  },\n\
  { id: \"m4\", label: \"One line\" },\n\
];\n\
function loadCustomMifyModels() {\n\
  { id: \"late\", label: \"Late\" }\n";
    let models = parse_models_from_cli_bundle(bundle);
    assert_eq!(
        models,
        vec![
            ("m1".to_string(), "Model One".to_string(), "first".to_string()),
            ("m3".to_string(), "Three".to_string(), "Three".to_string()),
        ]
    );
    assert!(discover_micode_models(None).is_empty());
    assert_eq!(discover_micode_models(Some(bundle)).len(), 2);
}
