//! Field information read from a JSON schema document.

use vstd::prelude::*;
use crate::json::{JsonValue, spec_get, parse_json, json_parse, str_eq};
use crate::text::views;
use crate::render::{FieldStyle, field_lines, format_field_lines};

verus! {

/// One field of a record schema.
#[derive(Debug)]
pub struct FieldInfo {
    pub name: String,
    pub type_label: String,
    pub description: Option<String>,
    pub required: bool,
}

/// The mathematical content of a `FieldInfo`.
pub struct FieldSpec {
    pub name: Seq<char>,
    pub type_label: Seq<char>,
    pub description: Option<Seq<char>>,
    pub required: bool,
}

impl View for FieldInfo {
    type V = FieldSpec;

    open spec fn view(&self) -> FieldSpec {
        FieldSpec {
            name: self.name@,
            type_label: self.type_label@,
            description: match self.description {
                Some(d) => Some(d@),
                None => None,
            },
            required: self.required,
        }
    }
}

pub open spec fn field_views(v: Seq<FieldInfo>) -> Seq<FieldSpec> {
    v.map_values(|f: FieldInfo| f@)
}

/// A schema document: the structural JSON description of a record, whose
/// `object` member holds `properties` and `required`.
#[derive(Debug)]
pub struct Schema {
    pub doc: JsonValue,
}

/// Why a schema document could not be read.
#[derive(Debug, PartialEq, Eq)]
pub enum SchemaError {
    /// The text is not a JSON document.
    InvalidJson,
}

impl Schema {
    /// Reads a schema document from its JSON text.
    pub fn from_json_text(text: &str) -> (r: Result<Schema, SchemaError>)
        ensures
            r matches Ok(s) ==> json_parse(text@) == Some(s.doc),
            r is Err <==> json_parse(text@) is None,
    {
        match parse_json(text) {
            Some(doc) => Ok(Schema { doc }),
            None => Err(SchemaError::InvalidJson),
        }
    }
}

/// The label of a primitive JSON schema type name.
pub open spec fn primitive_label(t: Seq<char>) -> Seq<char> {
    if t == "string"@ {
        "String"@
    } else if t == "number"@ {
        "Number"@
    } else if t == "integer"@ {
        "Integer"@
    } else if t == "boolean"@ {
        "Boolean"@
    } else if t == "array"@ {
        "Array"@
    } else if t == "object"@ {
        "Object"@
    } else if t == "null"@ {
        "Null"@
    } else {
        "Unknown"@
    }
}

/// The normalized type label of a field's schema node.
pub open spec fn node_label(node: JsonValue) -> Seq<char> {
    if let Some(JsonValue::Str(t)) = spec_get(node, "type"@) {
        primitive_label(t@)
    } else if spec_get(node, "anyOf"@) is Some {
        "AnyOf"@
    } else if spec_get(node, "oneOf"@) is Some {
        "OneOf"@
    } else if spec_get(node, "allOf"@) is Some {
        "AllOf"@
    } else if spec_get(node, "$ref"@) is Some {
        "Reference"@
    } else {
        "Unknown"@
    }
}

/// The labels that type normalization can give.
pub open spec fn is_type_label(l: Seq<char>) -> bool {
    ||| l == "String"@
    ||| l == "Number"@
    ||| l == "Integer"@
    ||| l == "Boolean"@
    ||| l == "Array"@
    ||| l == "Object"@
    ||| l == "Null"@
    ||| l == "AnyOf"@
    ||| l == "OneOf"@
    ||| l == "AllOf"@
    ||| l == "Reference"@
    ||| l == "Unknown"@
}

fn primitive_type_label(t: &str) -> (r: String)
    ensures
        r@ == primitive_label(t@),
{
    if str_eq(t, "string") {
        String::from_str("String")
    } else if str_eq(t, "number") {
        String::from_str("Number")
    } else if str_eq(t, "integer") {
        String::from_str("Integer")
    } else if str_eq(t, "boolean") {
        String::from_str("Boolean")
    } else if str_eq(t, "array") {
        String::from_str("Array")
    } else if str_eq(t, "object") {
        String::from_str("Object")
    } else if str_eq(t, "null") {
        String::from_str("Null")
    } else {
        String::from_str("Unknown")
    }
}

/// Normalizes the type of a field's schema node to one label.
pub fn extract_type_name_from_json(node: &JsonValue) -> (r: String)
    ensures
        r@ == node_label(*node),
{
    if let Some(JsonValue::Str(t)) = node.get("type") {
        primitive_type_label(t.as_str())
    } else if node.get("anyOf").is_some() {
        String::from_str("AnyOf")
    } else if node.get("oneOf").is_some() {
        String::from_str("OneOf")
    } else if node.get("allOf").is_some() {
        String::from_str("AllOf")
    } else if node.get("$ref").is_some() {
        String::from_str("Reference")
    } else {
        String::from_str("Unknown")
    }
}

/// The texts among a sequence of JSON values that are strings, in order.
pub open spec fn str_items(items: Seq<JsonValue>) -> Seq<Seq<char>>
    decreases items.len(),
{
    if items.len() == 0 {
        seq![]
    } else if let JsonValue::Str(t) = items.last() {
        str_items(items.drop_last()).push(t@)
    } else {
        str_items(items.drop_last())
    }
}

/// The names listed under `required` of a record schema object.
pub open spec fn required_names(obj: JsonValue) -> Seq<Seq<char>> {
    if let Some(JsonValue::Array(items)) = spec_get(obj, "required"@) {
        str_items(items@)
    } else {
        seq![]
    }
}

/// The `description` of a field's schema node, when it is a string.
pub open spec fn description_of(node: JsonValue) -> Option<Seq<char>> {
    if let Some(JsonValue::Str(d)) = spec_get(node, "description"@) {
        Some(d@)
    } else {
        None
    }
}

pub open spec fn field_of(name: Seq<char>, node: JsonValue, required: Seq<Seq<char>>) -> FieldSpec {
    FieldSpec {
        name: name,
        type_label: node_label(node),
        description: description_of(node),
        required: required.contains(name),
    }
}

/// The fields that a schema document declares, in document order; none when
/// it has no `object.properties` object.
pub open spec fn fields_of(doc: JsonValue) -> Seq<FieldSpec> {
    if let Some(obj) = spec_get(doc, "object"@) {
        if let Some(JsonValue::Object(props)) = spec_get(obj, "properties"@) {
            props@.map_values(|e: (String, JsonValue)| field_of(e.0@, e.1, required_names(obj)))
        } else {
            seq![]
        }
    } else {
        seq![]
    }
}

/// The names of a sequence of fields.
pub open spec fn names_of(fields: Seq<FieldSpec>) -> Seq<Seq<char>> {
    fields.map_values(|f: FieldSpec| f.name)
}

fn required_list(obj: &JsonValue) -> (r: Vec<String>)
    ensures
        views(r@) == required_names(*obj),
{
    let mut out: Vec<String> = Vec::new();
    if let Some(JsonValue::Array(items)) = obj.get("required") {
        let mut i: usize = 0;
        while i < items.len()
            invariant
                i <= items@.len(),
                views(out@) == str_items(items@.subrange(0, i as int)),
            decreases items@.len() - i,
        {
            assert(items@.subrange(0, i + 1).drop_last() == items@.subrange(0, i as int));
            if let JsonValue::Str(t) = &items[i] {
                let ghost before = out@;
                out.push(t.clone());
                assert(views(out@) =~= views(before).push(t@));
            }
            i = i + 1;
        }
        assert(items@.subrange(0, items@.len() as int) == items@);
    }
    out
}

/// Whether `name` is one of `names`.
pub fn contains_name(names: &Vec<String>, name: &str) -> (r: bool)
    ensures
        r == views(names@).contains(name@),
{
    let mut i: usize = 0;
    while i < names.len()
        invariant
            i <= names@.len(),
            forall|j: int| 0 <= j < i ==> names@[j]@ != name@,
        decreases names@.len() - i,
    {
        if str_eq(names[i].as_str(), name) {
            assert(views(names@)[i as int] == name@);
            return true;
        }
        i = i + 1;
    }
    assert(!views(names@).contains(name@)) by {
        if views(names@).contains(name@) {
            let j = choose|j: int| 0 <= j < views(names@).len() && views(names@)[j] == name@;
            assert(names@[j]@ == name@);
        }
    }
    false
}

fn extract_field_info_from_json(name: &String, node: &JsonValue, required: bool) -> (r: FieldInfo)
    ensures
        r@ == (FieldSpec {
            name: name@,
            type_label: node_label(*node),
            description: description_of(*node),
            required: required,
        }),
{
    let description = match node.get("description") {
        Some(JsonValue::Str(d)) => Some(d.clone()),
        _ => None,
    };
    FieldInfo { name: name.clone(), type_label: extract_type_name_from_json(node), description, required }
}

/// The fields that a schema document declares, in document order.
pub fn extract_fields_from_json(doc: &JsonValue) -> (r: Vec<FieldInfo>)
    ensures
        field_views(r@) == fields_of(*doc),
{
    let mut out: Vec<FieldInfo> = Vec::new();
    if let Some(obj) = doc.get("object") {
        if let Some(JsonValue::Object(props)) = obj.get("properties") {
            let required = required_list(obj);
            let mut i: usize = 0;
            while i < props.len()
                invariant
                    i <= props@.len(),
                    views(required@) == required_names(*obj),
                    field_views(out@) =~= props@.subrange(0, i as int).map_values(
                        |e: (String, JsonValue)| field_of(e.0@, e.1, required_names(*obj)),
                    ),
                decreases props@.len() - i,
            {
                let entry = &props[i];
                let is_required = contains_name(&required, entry.0.as_str());
                let ghost before = out@;
                out.push(extract_field_info_from_json(&entry.0, &entry.1, is_required));
                assert(field_views(out@) =~= field_views(before).push(out@[i as int]@));
                assert(props@.subrange(0, i + 1) =~= props@.subrange(0, i as int).push(props@[i as int]));
                i = i + 1;
            }
            assert(props@.subrange(0, props@.len() as int) == props@);
        }
    }
    out
}

/// The fields of a schema, in document order.
pub fn extract_fields_from_schema(schema: &Schema) -> (r: Vec<FieldInfo>)
    ensures
        field_views(r@) == fields_of(schema.doc),
{
    extract_fields_from_json(&schema.doc)
}

/// The names of the fields of a schema, in document order.
pub fn get_field_names_from_schema(schema: &Schema) -> (r: Vec<String>)
    ensures
        views(r@) == names_of(fields_of(schema.doc)),
{
    let fields = extract_fields_from_schema(schema);
    let mut out: Vec<String> = Vec::new();
    let mut i: usize = 0;
    while i < fields.len()
        invariant
            i <= fields@.len(),
            field_views(fields@) == fields_of(schema.doc),
            views(out@) =~= names_of(field_views(fields@.subrange(0, i as int))),
        decreases fields@.len() - i,
    {
        let ghost before = out@;
        out.push(fields[i].name.clone());
        assert(views(out@) =~= views(before).push(fields@[i as int].name@));
        assert(field_views(fields@.subrange(0, i + 1)) =~= field_views(fields@.subrange(0, i as int)).push(fields@[i as int]@));
        i = i + 1;
    }
    assert(fields@.subrange(0, fields@.len() as int) == fields@);
    out
}

/// One line per field of a schema: `- name: description (Type)`.
pub fn get_field_descriptions_from_schema(schema: &Schema) -> (r: Vec<String>)
    ensures
        views(r@) == field_lines(fields_of(schema.doc), FieldStyle::DescribedTyped),
{
    let fields = extract_fields_from_schema(schema);
    format_field_lines(&fields, FieldStyle::DescribedTyped)
}

} // verus!
