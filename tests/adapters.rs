use dsrs_core::adapters::{Adapter, AdapterConfig, ChatAdapter, JsonAdapter, ParseError, extract_json_span};
use dsrs_core::json::{JsonValue, parse_json};
use dsrs_core::render::format_value;
use dsrs_core::schema::Schema;

fn schema(text: &str) -> Schema {
    Schema::from_json_text(text).unwrap()
}

fn qa_input() -> Schema {
    schema(r#"{"object": {"properties": {"question": {"type": "string", "description": "The question"}}, "required": ["question"]}}"#)
}

fn qa_output() -> Schema {
    schema(r#"{"object": {"properties": {"answer": {"type": "string"}}, "required": ["answer"]}}"#)
}

fn entry<'a>(v: &'a JsonValue, key: &str) -> Option<&'a JsonValue> {
    v.get(key)
}

#[test]
fn header_section_is_parsed() {
    let a = ChatAdapter::new(AdapterConfig::default());
    let r = a.parse("[[ ## answer ## ]]\nHello", &qa_output()).unwrap();
    assert_eq!(entry(&r, "answer"), Some(&JsonValue::Str("Hello".to_string())));
}

#[test]
fn later_header_wins() {
    let a = ChatAdapter::new(AdapterConfig::default());
    let r = a.parse("[[ ## answer ## ]]\nfirst\n[[ ## answer ## ]]\nsecond\n[[ ## completed ## ]]", &qa_output()).unwrap();
    assert_eq!(r, JsonValue::Object(vec![("answer".to_string(), JsonValue::Str("second".to_string()))]));
}

#[test]
fn section_text_after_header_and_json_values() {
    let a = ChatAdapter::new(AdapterConfig::default());
    let r = a.parse("preamble\n  [[ ## n ## ]] 42  \n[[ ## s ## ]]\n  two\n  lines \n", &qa_output()).unwrap();
    assert_eq!(entry(&r, "n"), parse_json("42").as_ref());
    assert_eq!(entry(&r, "s"), Some(&JsonValue::Str("two\n  lines".to_string())));
    assert_eq!(entry(&r, "completed"), None);
}

#[test]
fn json_span_is_first_balanced_object() {
    assert_eq!(extract_json_span("noise {\"a\": {\"b\": 1}} trailing"), "{\"a\": {\"b\": 1}}");
    assert_eq!(extract_json_span("{ {} x"), "{}");
    assert_eq!(extract_json_span("no braces"), "no braces");
}

#[test]
fn json_adapter_parses_embedded_object() {
    let a = JsonAdapter::new(AdapterConfig::default());
    let r = a.parse("Sure: {\"answer\": \"yes\"} done", &qa_output()).unwrap();
    assert_eq!(entry(&r, "answer"), Some(&JsonValue::Str("yes".to_string())));
    assert_eq!(a.parse("not json", &qa_output()), Err(ParseError::InvalidJson));
}

#[test]
fn chat_round_trip_of_string_output() {
    let a = ChatAdapter::new(AdapterConfig::default());
    let out = JsonValue::Object(vec![("answer".to_string(), JsonValue::Str("Paris".to_string()))]);
    let text = a.format_assistant_message_content(&out, &qa_output());
    assert_eq!(text, "[[ ## answer ## ]]\nParis\n\n[[ ## completed ## ]]");
    assert_eq!(a.parse(&text, &qa_output()).unwrap(), out);
}

#[test]
fn json_round_trip_of_output() {
    let a = JsonAdapter::new(AdapterConfig::default());
    let out = parse_json("{\"answer\": \"Paris\", \"score\": 3}").unwrap();
    let text = a.format_assistant_message_content(&out, &qa_output());
    assert_eq!(text, "{\n  \"answer\": \"Paris\",\n  \"score\": 3\n}");
    assert_eq!(a.parse(&text, &qa_output()).unwrap(), out);
}

#[test]
fn format_value_prints_non_strings_as_json() {
    assert_eq!(format_value(&JsonValue::Str("plain".to_string())), "plain");
    assert_eq!(format_value(&parse_json("[1, 2]").unwrap()), "[\n  1,\n  2\n]");
    assert_eq!(format_value(&JsonValue::Bool(true)), "true");
}

#[test]
fn chat_layout_and_descriptions() {
    let a = ChatAdapter::new(AdapterConfig::default());
    assert_eq!(a.format_field_description(&qa_input()), "- question: The question");
    assert_eq!(a.format_field_description(&qa_output()), "- answer: No description");
    assert_eq!(
        a.format_field_structure(&qa_input(), &qa_output()),
        "All interactions will be structured in the following way, with the appropriate values filled in.\n\n[[ ## question ## ]]\nString\n\n[[ ## answer ## ]]\nString\n\n[[ ## completed ## ]]"
    );
    assert_eq!(
        a.format_task_description("Answer well.\nBe brief."),
        "In adhering to this structure, your objective is:\n        Answer well.\n        Be brief."
    );
}

#[test]
fn chat_user_message_lists_inputs_then_outputs() {
    let a = ChatAdapter::new(AdapterConfig::default());
    let inputs = parse_json("{\"question\": \"Why?\", \"ignored\": 1}").unwrap();
    assert_eq!(
        a.format_user_message_content(&inputs, &qa_input(), &qa_output()),
        "[[ ## question ## ]]\nWhy?\n\nRespond with the corresponding output fields, starting with the field `[[ ## answer ## ]]`, and then ending with the marker for `[[ ## completed ## ]]`."
    );
}

#[test]
fn json_layout_and_user_message() {
    let a = JsonAdapter::new(AdapterConfig::default());
    assert_eq!(a.format_field_description(&qa_input()), "- question: The question (String)");
    assert_eq!(
        a.format_field_structure(&qa_input(), &qa_output()),
        "All interactions will be structured in the following way:\n\nInput fields:\n- question: The question (String)\n\nOutput will be a JSON object with the following fields:\n- answer: No description (String)"
    );
    assert_eq!(a.format_task_description("Do it"), "Your task: Do it");
    let inputs = parse_json("{\"question\": \"Why?\"}").unwrap();
    assert_eq!(
        a.format_user_message_content(&inputs, &qa_input(), &qa_output()),
        "question: Why?\n\nRespond with a JSON object containing these fields: answer"
    );
}

#[test]
fn default_config_allows_three_attempts() {
    let c = AdapterConfig::default();
    assert_eq!(c.max_retries, 3);
    assert!(!c.use_native_function_calling);
    let a = ChatAdapter::new(c);
    assert_eq!(a.config().max_retries, 3);
}
