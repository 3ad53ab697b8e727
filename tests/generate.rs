use dsrs_core::adapters::{AdapterConfig, ChatAdapter};
use dsrs_core::generate::{Demo, GenerateError, Outcome, RetryLoop, Step, format_messages_with_schemas, merge_tools, splice_history};
use dsrs_core::json::parse_json;
use dsrs_core::models::{AvailableTool, ContentTypes, Message, ToolCall};
use dsrs_core::schema::Schema;

fn answer(text: &str) -> Message {
    Message::assistant(Some(text), None)
}

/// Drives the retry loop against a provider stub that fails `failures` times.
fn run(max_retries: usize, failures: usize) -> (Step<String>, usize) {
    let mut lp = RetryLoop::new(max_retries);
    let mut calls = 0usize;
    let mut step = lp.start::<String>();
    while let Step::Call { .. } = step {
        calls += 1;
        let outcome = if calls <= failures { Outcome::ProviderFailed(format!("failure {}", calls)) } else { Outcome::Responded(answer("[[ ## answer ## ]]\nok")) };
        step = lp.on_outcome(outcome);
    }
    (step, calls)
}

#[test]
fn retry_budget_allows_success_on_third_call() {
    let (step, calls) = run(3, 2);
    assert_eq!(calls, 3);
    assert_eq!(step, Step::Parse { text: "[[ ## answer ## ]]\nok".to_string(), tool_calls: None });
}

#[test]
fn retry_budget_exhausted_propagates_provider_error() {
    let (step, calls) = run(2, 2);
    assert_eq!(calls, 2);
    assert_eq!(step, Step::Fail(GenerateError::Provider("failure 2".to_string())));
}

#[test]
fn no_attempts_fail_at_once() {
    let (step, calls) = run(0, 0);
    assert_eq!(calls, 0);
    assert_eq!(step, Step::Fail(GenerateError::Exhausted { attempts: 0 }));
}

#[test]
fn parse_failures_retry_then_fail() {
    let mut lp = RetryLoop::new(2);
    assert_eq!(lp.on_outcome(Outcome::ParseFailed("bad".to_string())), Step::Call { attempt: 1 });
    assert_eq!(lp.on_outcome(Outcome::ParseFailed("worse".to_string())), Step::Fail(GenerateError::Parse("worse".to_string())));
}

fn tool_call() -> ToolCall {
    ToolCall { id: "c1".to_string(), name: "search".to_string(), arguments: parse_json("{\"q\": \"x\"}").unwrap() }
}

#[test]
fn tool_only_answer_skips_parsing() {
    let mut lp = RetryLoop::new(3);
    let step = lp.on_outcome::<String>(Outcome::Responded(Message::assistant(None, Some(vec![tool_call()]))));
    assert_eq!(step, Step::ToolsOnly { tool_calls: vec![tool_call()] });
}

#[test]
fn text_with_tool_calls_is_parsed_with_them() {
    let mut lp = RetryLoop::new(3);
    let step = lp.on_outcome::<String>(Outcome::Responded(Message::assistant(Some("hi"), Some(vec![tool_call()]))));
    assert_eq!(step, Step::Parse { text: "hi".to_string(), tool_calls: Some(vec![tool_call()]) });
}

#[test]
fn other_answers_are_shape_errors() {
    let mut lp = RetryLoop::new(3);
    assert_eq!(lp.on_outcome::<String>(Outcome::Responded(Message::user("x"))), Step::Fail(GenerateError::Shape));
    assert_eq!(lp.on_outcome::<String>(Outcome::Responded(Message::assistant(None, None))), Step::Fail(GenerateError::Shape));
}

fn schema(text: &str) -> Schema {
    Schema::from_json_text(text).unwrap()
}

#[test]
fn history_goes_after_system_message() {
    let a = ChatAdapter::new(AdapterConfig::default());
    let input = schema(r#"{"object": {"properties": {"q": {"type": "string"}}}}"#);
    let output = schema(r#"{"object": {"properties": {"a": {"type": "string"}}}}"#);
    let demos = vec![Demo { inputs: parse_json("{\"q\": \"1+1\"}").unwrap(), outputs: parse_json("{\"a\": \"2\"}").unwrap() }];
    let inputs = parse_json("{\"q\": \"2+2\"}").unwrap();
    let messages = format_messages_with_schemas(&a, "Add.", &demos, &inputs, &input, &output);
    assert_eq!(messages.len(), 4);
    let history = vec![Message::user("earlier"), answer("reply")];
    let all = splice_history(messages, Some(history));
    assert_eq!(all.len(), 6);
    assert!(matches!(all[0], Message::System { .. }));
    assert_eq!(all[1], Message::user("earlier"));
    assert_eq!(all[2], answer("reply"));
    assert_eq!(all[3], Message::user("[[ ## q ## ]]\n1+1\n\nRespond with the corresponding output fields, starting with the field `[[ ## a ## ]]`, and then ending with the marker for `[[ ## completed ## ]]`."));
    assert_eq!(all[4], answer("[[ ## a ## ]]\n2\n\n[[ ## completed ## ]]"));
    assert!(matches!(&all[5], Message::User { content: ContentTypes::Text(t) } if t.starts_with("[[ ## q ## ]]\n2+2")));
}

#[test]
fn history_alone_when_no_messages() {
    let all = splice_history(Vec::new(), Some(vec![Message::user("h")]));
    assert_eq!(all, vec![Message::user("h")]);
    let none = splice_history(vec![Message::system("s")], None);
    assert_eq!(none, vec![Message::system("s")]);
}

#[test]
fn extracted_tools_take_precedence() {
    let t = |n: &str| AvailableTool { name: n.to_string(), desc: String::new(), input_schema_json: None };
    assert_eq!(merge_tools(Some(vec![t("a")]), Some(vec![t("b")])), Some(vec![t("a")]));
    assert_eq!(merge_tools(None, Some(vec![t("b")])), Some(vec![t("b")]));
    assert_eq!(merge_tools(None, None), None);
}
