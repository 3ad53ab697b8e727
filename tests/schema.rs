use dsrs_core::json::JsonValue;
use dsrs_core::schema::{Schema, SchemaError, extract_fields_from_schema, extract_type_name_from_json, get_field_names_from_schema};
use dsrs_core::json::parse_json;

#[test]
fn test_extract_fields() {
    let schema = Schema::from_json_text(
        r#"{"object": {"properties": {"name": {"type": "string"}, "age": {"type": "integer", "format": "uint32"}, "email": {"type": ["string", "null"]}}, "required": ["name", "age"]}}"#,
    )
    .unwrap();
    let fields = extract_fields_from_schema(&schema);
    let get = |n: &str| fields.iter().find(|f| f.name == n);

    assert!(get("name").is_some());
    assert!(get("age").is_some());
    assert!(get("email").is_some());

    assert_eq!(get("name").unwrap().type_label, "String");
    assert_eq!(get("age").unwrap().type_label, "Integer");
    assert!(get("age").unwrap().required);
    assert!(!get("email").unwrap().required);
}

#[test]
fn field_order_follows_the_document() {
    let schema = Schema::from_json_text(r##"{"object": {"properties": {"z": {"type": "boolean"}, "a": {"$ref": "#/x"}}}}"##).unwrap();
    assert_eq!(get_field_names_from_schema(&schema), vec!["z".to_string(), "a".to_string()]);
}

#[test]
fn missing_properties_give_no_fields() {
    let schema = Schema::from_json_text(r#"{"type": "object"}"#).unwrap();
    assert!(extract_fields_from_schema(&schema).is_empty());
    assert_eq!(Schema::from_json_text("{not json").unwrap_err(), SchemaError::InvalidJson);
}

#[test]
fn type_labels_are_normalized_and_stable() {
    let cases = [
        (r#"{"type": "string"}"#, "String"),
        (r#"{"type": "number"}"#, "Number"),
        (r#"{"type": "integer"}"#, "Integer"),
        (r#"{"type": "boolean"}"#, "Boolean"),
        (r#"{"type": "array"}"#, "Array"),
        (r#"{"type": "object"}"#, "Object"),
        (r#"{"type": "null"}"#, "Null"),
        (r#"{"type": "decimal"}"#, "Unknown"),
        (r#"{"anyOf": []}"#, "AnyOf"),
        (r#"{"oneOf": []}"#, "OneOf"),
        (r#"{"allOf": []}"#, "AllOf"),
        (r##"{"$ref": "#/a"}"##, "Reference"),
        (r#"{}"#, "Unknown"),
    ];
    for (doc, label) in cases {
        let node = parse_json(doc).unwrap();
        let first = extract_type_name_from_json(&node);
        assert_eq!(first, label);
        assert_eq!(extract_type_name_from_json(&node), first);
    }
    assert_eq!(extract_type_name_from_json(&JsonValue::Null), "Unknown");
}
