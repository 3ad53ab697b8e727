//! The pieces of prompt text that both adapters render from fields and
//! records.

use vstd::prelude::*;
use crate::json::{JsonValue, spec_get, json_pretty, to_pretty_json};
use crate::schema::{FieldInfo, FieldSpec, field_views};
use crate::text::views;

verus! {

/// How a value is shown in a prompt: a string as its text, anything else as
/// pretty-printed JSON.
pub open spec fn value_text(v: JsonValue) -> Seq<char> {
    if let JsonValue::Str(s) = v {
        s@
    } else {
        json_pretty(v)
    }
}

/// Renders a value for a prompt.
pub fn format_value(v: &JsonValue) -> (r: String)
    ensures
        r@ == value_text(*v),
{
    match v {
        JsonValue::Str(s) => s.clone(),
        _ => to_pretty_json(v),
    }
}

/// The section header line `[[ ## name ## ]]`.
pub open spec fn header(name: Seq<char>) -> Seq<char> {
    "[[ ## "@ + name + " ## ]]"@
}

pub fn header_exec(name: &str) -> (r: String)
    ensures
        r@ == header(name@),
{
    let mut s = String::from_str("[[ ## ");
    s.append(name);
    s.append(" ## ]]");
    s
}

/// A field's description, or a stand-in when it has none.
pub open spec fn describe(d: Option<Seq<char>>) -> Seq<char> {
    match d {
        Some(x) => x,
        None => "No description"@,
    }
}

/// The ways a field is listed in a prompt.
#[derive(Clone, Copy, Debug, PartialEq, Eq)]
pub enum FieldStyle {
    /// `- name: description`
    Described,
    /// `- name: description (Type)`
    DescribedTyped,
    /// a header line, then the type label
    HeaderTyped,
    /// the header in backquotes
    QuotedHeader,
    /// the bare name
    Name,
}

pub open spec fn field_line(f: FieldSpec, style: FieldStyle) -> Seq<char> {
    match style {
        FieldStyle::Described => "- "@ + f.name + ": "@ + describe(f.description),
        FieldStyle::DescribedTyped => "- "@ + f.name + ": "@ + describe(f.description) + " ("@ + f.type_label
            + ")"@,
        FieldStyle::HeaderTyped => header(f.name) + "\n"@ + f.type_label,
        FieldStyle::QuotedHeader => "`"@ + header(f.name) + "`"@,
        FieldStyle::Name => f.name,
    }
}

pub open spec fn field_lines(fields: Seq<FieldSpec>, style: FieldStyle) -> Seq<Seq<char>> {
    fields.map_values(|f: FieldSpec| field_line(f, style))
}

fn field_line_exec(f: &FieldInfo, style: FieldStyle) -> (r: String)
    ensures
        r@ == field_line(f@, style),
{
    match style {
        FieldStyle::Described | FieldStyle::DescribedTyped => {
            let mut s = String::from_str("- ");
            s.append(f.name.as_str());
            s.append(": ");
            match &f.description {
                Some(d) => s.append(d.as_str()),
                None => s.append("No description"),
            }
            if let FieldStyle::DescribedTyped = style {
                s.append(" (");
                s.append(f.type_label.as_str());
                s.append(")");
            }
            s
        },
        FieldStyle::HeaderTyped => {
            let mut s = header_exec(f.name.as_str());
            s.append("\n");
            s.append(f.type_label.as_str());
            s
        },
        FieldStyle::QuotedHeader => {
            let mut s = String::from_str("`");
            let h = header_exec(f.name.as_str());
            s.append(h.as_str());
            s.append("`");
            s
        },
        FieldStyle::Name => f.name.clone(),
    }
}

/// Lists each field in the given style.
pub fn format_field_lines(fields: &Vec<FieldInfo>, style: FieldStyle) -> (r: Vec<String>)
    ensures
        views(r@) == field_lines(field_views(fields@), style),
{
    let mut out: Vec<String> = Vec::new();
    let mut i: usize = 0;
    while i < fields.len()
        invariant
            i <= fields@.len(),
            views(out@) =~= field_lines(field_views(fields@.subrange(0, i as int)), style),
        decreases fields@.len() - i,
    {
        let ghost before = out@;
        out.push(field_line_exec(&fields[i], style));
        assert(views(out@) =~= views(before).push(field_line(fields@[i as int]@, style)));
        assert(fields@.subrange(0, i + 1) =~= fields@.subrange(0, i as int).push(fields@[i as int]));
        i = i + 1;
    }
    assert(fields@.subrange(0, fields@.len() as int) == fields@);
    out
}

/// For each field that the record holds, in field order, its rendering:
/// under a section header, or after `name: `.
pub open spec fn present_parts(fields: Seq<FieldSpec>, record: JsonValue, sectioned: bool) -> Seq<Seq<char>>
    decreases fields.len(),
{
    if fields.len() == 0 {
        seq![]
    } else {
        let rest = present_parts(fields.drop_last(), record, sectioned);
        let name = fields.last().name;
        match spec_get(record, name) {
            Some(v) => rest.push(
                if sectioned {
                    header(name) + "\n"@ + value_text(v)
                } else {
                    name + ": "@ + value_text(v)
                },
            ),
            None => rest,
        }
    }
}

/// Renders the fields that a record holds, in field order.
pub fn format_present_fields(fields: &Vec<FieldInfo>, record: &JsonValue, sectioned: bool) -> (r: Vec<String>)
    ensures
        views(r@) == present_parts(field_views(fields@), *record, sectioned),
{
    let mut out: Vec<String> = Vec::new();
    let mut i: usize = 0;
    while i < fields.len()
        invariant
            i <= fields@.len(),
            views(out@) == present_parts(field_views(fields@.subrange(0, i as int)), *record, sectioned),
        decreases fields@.len() - i,
    {
        let f = &fields[i];
        assert(field_views(fields@.subrange(0, i + 1)).drop_last() =~= field_views(fields@.subrange(0, i as int)));
        assert(field_views(fields@.subrange(0, i + 1)).last() == f@);
        match record.get(f.name.as_str()) {
            Some(v) => {
                let mut s = if sectioned {
                    let mut h = header_exec(f.name.as_str());
                    h.append("\n");
                    h
                } else {
                    let mut h = f.name.clone();
                    h.append(": ");
                    h
                };
                let text = format_value(v);
                s.append(text.as_str());
                let ghost before = out@;
                out.push(s);
                assert(views(out@) =~= views(before).push(s@));
            },
            None => {},
        }
        i = i + 1;
    }
    assert(fields@.subrange(0, fields@.len() as int) == fields@);
    out
}

} // verus!
