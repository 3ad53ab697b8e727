use dsrs_core::schema::{get_field_descriptions_from_schema, Schema};
use dsrs_core::specials::{check_prompt_schema, SpecialFieldError, SpecialFields};

fn manifest() -> SpecialFields {
    SpecialFields { history: vec!["history".to_string()], tools: vec!["tools".to_string()], tool_calls: vec!["calls".to_string()] }
}

#[test]
fn prompt_schema_without_special_fields_passes() {
    let s = Schema::from_json_text(r#"{"object": {"properties": {"question": {"type": "string"}}}}"#).unwrap();
    assert_eq!(check_prompt_schema(&s, &manifest()), Ok(()));
    assert!(manifest().is_special("tools"));
    assert!(!manifest().is_special("question"));
}

#[test]
fn prompt_schema_with_a_special_field_is_refused() {
    let s = Schema::from_json_text(r#"{"object": {"properties": {"question": {"type": "string"}, "tools": {"type": "array"}, "calls": {}}}}"#).unwrap();
    assert_eq!(check_prompt_schema(&s, &manifest()), Err(SpecialFieldError::InPromptSchema { name: "tools".to_string() }));
}

#[test]
fn descriptions_carry_type_labels() {
    let s = Schema::from_json_text(r#"{"object": {"properties": {"n": {"type": "integer", "description": "count"}, "m": {"anyOf": []}}}}"#).unwrap();
    assert_eq!(get_field_descriptions_from_schema(&s), vec!["- n: count (Integer)".to_string(), "- m: No description (AnyOf)".to_string()]);
}
