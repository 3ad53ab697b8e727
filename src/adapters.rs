//! The two rendering strategies: delimited sections and JSON.

use vstd::prelude::*;
use crate::json::{JsonValue, json_parse, json_pretty, parse_json, to_pretty_json, str_eq};
use crate::schema::{FieldSpec, Schema, fields_of, extract_fields_from_schema};
use crate::text::{views, joined, join, lines, lines_of};
use crate::render::{
    FieldStyle, field_lines, format_field_lines, present_parts, format_present_fields, header, header_exec,
};
use crate::sections::{sections_of, parse_sections, pair_views};
use crate::braces::{json_span, json_span_chars};

verus! {

/// Settings shared by both adapters.
#[derive(Clone, Copy, Debug, PartialEq, Eq)]
pub struct AdapterConfig {
    pub use_native_function_calling: bool,
    pub max_retries: usize,
}

impl Default for AdapterConfig {
    fn default() -> (r: Self)
        ensures
            r.max_retries == 3,
            !r.use_native_function_calling,
    {
        AdapterConfig { use_native_function_calling: false, max_retries: 3 }
    }
}

/// Why a completion could not be read back.
#[derive(Debug, PartialEq, Eq)]
pub enum ParseError {
    /// The completion holds no JSON document where one was expected.
    InvalidJson,
}

/// A rendering strategy: how fields, instructions and records are written
/// into prompt text, and how completion text is read back into a record.
pub trait Adapter {
    spec fn description_text(&self, fields: Seq<FieldSpec>) -> Seq<char>;

    spec fn structure_text(&self, input: Seq<FieldSpec>, output: Seq<FieldSpec>) -> Seq<char>;

    spec fn task_text(&self, instructions: Seq<char>) -> Seq<char>;

    spec fn user_text(&self, inputs: JsonValue, fields: Seq<FieldSpec>, output: Seq<FieldSpec>) -> Seq<char>;

    spec fn assistant_text(&self, outputs: JsonValue, fields: Seq<FieldSpec>) -> Seq<char>;

    /// `r` is what reading `completion` back gives.
    spec fn parsed(&self, completion: Seq<char>, r: Result<JsonValue, ParseError>) -> bool;

    spec fn spec_config(&self) -> AdapterConfig;

    fn config(&self) -> (r: &AdapterConfig)
        ensures
            *r == self.spec_config(),
    ;

    /// The fields of a schema with their descriptions, one per line.
    fn format_field_description(&self, schema: &Schema) -> (r: String)
        ensures
            r@ == self.description_text(fields_of(schema.doc)),
    ;

    /// The layout that every exchange follows.
    fn format_field_structure(&self, input_schema: &Schema, output_schema: &Schema) -> (r: String)
        ensures
            r@ == self.structure_text(fields_of(input_schema.doc), fields_of(output_schema.doc)),
    ;

    fn format_task_description(&self, instructions: &str) -> (r: String)
        ensures
            r@ == self.task_text(instructions@),
    ;

    /// The input record's fields in schema order, then what the answer
    /// must hold.
    fn format_user_message_content(&self, inputs: &JsonValue, schema: &Schema, output_schema: &Schema) -> (r: String)
        ensures
            r@ == self.user_text(*inputs, fields_of(schema.doc), fields_of(output_schema.doc)),
    ;

    /// An output record written as the answer that a completion should give.
    fn format_assistant_message_content(&self, outputs: &JsonValue, schema: &Schema) -> (r: String)
        ensures
            r@ == self.assistant_text(*outputs, fields_of(schema.doc)),
    ;

    /// Reads a completion back into a record of output fields.
    fn parse(&self, completion: &str, schema: &Schema) -> (r: Result<JsonValue, ParseError>)
        ensures
            self.parsed(completion@, r),
    ;
}

/// The instruction lines, each indented by eight spaces.
pub open spec fn indented(ls: Seq<Seq<char>>) -> Seq<Seq<char>> {
    ls.map_values(|l: Seq<char>| "        "@ + l)
}

fn indent_lines(text: &str) -> (r: Vec<String>)
    ensures
        views(r@) == indented(lines_of(text@)),
{
    let ls = lines(text);
    let mut out: Vec<String> = Vec::new();
    let mut i: usize = 0;
    while i < ls.len()
        invariant
            i <= ls@.len(),
            views(ls@) == lines_of(text@),
            views(out@) =~= indented(views(ls@).subrange(0, i as int)),
        decreases ls@.len() - i,
    {
        let mut s = String::from_str("        ");
        s.append(ls[i].as_str());
        let ghost before = out@;
        out.push(s);
        assert(views(out@) =~= views(before).push(s@));
        assert(views(ls@).subrange(0, i + 1) =~= views(ls@).subrange(0, i as int).push(ls@[i as int]@));
        i = i + 1;
    }
    assert(views(ls@).subrange(0, ls@.len() as int) == views(ls@));
    out
}

/// The sections of a completion without the `completed` marker's.
pub open spec fn without_completed(secs: Seq<(Seq<char>, Seq<char>)>) -> Seq<(Seq<char>, Seq<char>)>
    decreases secs.len(),
{
    if secs.len() == 0 {
        seq![]
    } else if secs.last().0 == "completed"@ {
        without_completed(secs.drop_last())
    } else {
        without_completed(secs.drop_last()).push(secs.last())
    }
}

/// `v` is what a section's text stands for: the JSON document it holds, or
/// else the text itself as a string.
pub open spec fn section_value(v: JsonValue, text: Seq<char>) -> bool {
    match json_parse(text) {
        Some(x) => v == x,
        None => v matches JsonValue::Str(s) && s@ == text,
    }
}

/// `entries` hold, in order, the named sections with their values.
pub open spec fn record_of_sections(entries: Seq<(String, JsonValue)>, secs: Seq<(Seq<char>, Seq<char>)>) -> bool {
    &&& entries.len() == secs.len()
    &&& forall|i: int|
        0 <= i < secs.len() ==> (#[trigger] entries[i]).0@ == secs[i].0 && section_value(entries[i].1, secs[i].1)
}

fn section_json(text: String) -> (r: JsonValue)
    ensures
        section_value(r, text@),
{
    match parse_json(text.as_str()) {
        Some(v) => v,
        None => JsonValue::Str(text),
    }
}

/// The delimited-section adapter: each field under a `[[ ## name ## ]]`
/// header, the answer closed by `[[ ## completed ## ]]`.
pub struct ChatAdapter {
    pub config: AdapterConfig,
}

impl ChatAdapter {
    pub fn new(config: AdapterConfig) -> (r: Self)
        ensures
            r.config == config,
    {
        ChatAdapter { config }
    }
}

pub open spec fn chat_output_requirement(output: Seq<FieldSpec>) -> Seq<char> {
    "Respond with the corresponding output fields, starting with the field "@ + joined(
        field_lines(output, FieldStyle::QuotedHeader),
        ", then "@,
    ) + ", and then ending with the marker for `[[ ## completed ## ]]`."@
}

impl Adapter for ChatAdapter {
    open spec fn description_text(&self, fields: Seq<FieldSpec>) -> Seq<char> {
        joined(field_lines(fields, FieldStyle::Described), "\n"@)
    }

    open spec fn structure_text(&self, input: Seq<FieldSpec>, output: Seq<FieldSpec>) -> Seq<char> {
        joined(
            seq!["All interactions will be structured in the following way, with the appropriate values filled in."@]
                + field_lines(input, FieldStyle::HeaderTyped) + field_lines(output, FieldStyle::HeaderTyped)
                + seq![header("completed"@)],
            "\n\n"@,
        )
    }

    open spec fn task_text(&self, instructions: Seq<char>) -> Seq<char> {
        "In adhering to this structure, your objective is:\n"@ + joined(indented(lines_of(instructions)), "\n"@)
    }

    open spec fn user_text(&self, inputs: JsonValue, fields: Seq<FieldSpec>, output: Seq<FieldSpec>) -> Seq<char> {
        joined(present_parts(fields, inputs, true).push(chat_output_requirement(output)), "\n\n"@)
    }

    open spec fn assistant_text(&self, outputs: JsonValue, fields: Seq<FieldSpec>) -> Seq<char> {
        joined(present_parts(fields, outputs, true).push(header("completed"@)), "\n\n"@)
    }

    open spec fn parsed(&self, completion: Seq<char>, r: Result<JsonValue, ParseError>) -> bool {
        r matches Ok(JsonValue::Object(entries)) && record_of_sections(
            entries@,
            without_completed(sections_of(completion)),
        )
    }

    open spec fn spec_config(&self) -> AdapterConfig {
        self.config
    }

    fn config(&self) -> (r: &AdapterConfig) {
        &self.config
    }

    fn format_field_description(&self, schema: &Schema) -> (r: String) {
        let fields = extract_fields_from_schema(schema);
        let ls = format_field_lines(&fields, FieldStyle::Described);
        join(&ls, "\n")
    }

    fn format_field_structure(&self, input_schema: &Schema, output_schema: &Schema) -> (r: String) {
        let mut parts: Vec<String> = Vec::new();
        parts.push(
            String::from_str(
                "All interactions will be structured in the following way, with the appropriate values filled in.",
            ),
        );
        assert(views(parts@) =~= seq![
            "All interactions will be structured in the following way, with the appropriate values filled in."@,
        ]);
        let fin = extract_fields_from_schema(input_schema);
        let fout = extract_fields_from_schema(output_schema);
        let mut a = format_field_lines(&fin, FieldStyle::HeaderTyped);
        let mut b = format_field_lines(&fout, FieldStyle::HeaderTyped);
        let ghost (intro, ins, outs) = (parts@, a@, b@);
        parts.append(&mut a);
        assert(views(parts@) =~= views(intro) + views(ins));
        parts.append(&mut b);
        assert(views(parts@) =~= views(intro) + views(ins) + views(outs));
        let done = header_exec("completed");
        let ghost fields_done = parts@;
        parts.push(done);
        assert(views(parts@) =~= views(fields_done).push(done@));
        assert(views(parts@) =~= seq![
            "All interactions will be structured in the following way, with the appropriate values filled in."@,
        ] + field_lines(fields_of(input_schema.doc), FieldStyle::HeaderTyped) + field_lines(
            fields_of(output_schema.doc),
            FieldStyle::HeaderTyped,
        ) + seq![header("completed"@)]);
        join(&parts, "\n\n")
    }

    fn format_task_description(&self, instructions: &str) -> (r: String) {
        let ls = indent_lines(instructions);
        let body = join(&ls, "\n");
        let mut s = String::from_str("In adhering to this structure, your objective is:\n");
        s.append(body.as_str());
        s
    }

    fn format_user_message_content(&self, inputs: &JsonValue, schema: &Schema, output_schema: &Schema) -> (r: String) {
        let mut parts = format_present_fields(&extract_fields_from_schema(schema), inputs, true);
        let quoted = format_field_lines(&extract_fields_from_schema(output_schema), FieldStyle::QuotedHeader);
        let mut req = String::from_str("Respond with the corresponding output fields, starting with the field ");
        let names = join(&quoted, ", then ");
        req.append(names.as_str());
        req.append(", and then ending with the marker for `[[ ## completed ## ]]`.");
        let ghost before = parts@;
        parts.push(req);
        assert(views(parts@) =~= views(before).push(req@));
        join(&parts, "\n\n")
    }

    fn format_assistant_message_content(&self, outputs: &JsonValue, schema: &Schema) -> (r: String) {
        let mut parts = format_present_fields(&extract_fields_from_schema(schema), outputs, true);
        let ghost before = parts@;
        let done = header_exec("completed");
        parts.push(done);
        assert(views(parts@) =~= views(before).push(done@));
        join(&parts, "\n\n")
    }

    fn parse(&self, completion: &str, _schema: &Schema) -> (r: Result<JsonValue, ParseError>) {
        let secs = parse_sections(completion);
        let ghost all = pair_views(secs@);
        let mut entries: Vec<(String, JsonValue)> = Vec::new();
        let mut i: usize = 0;
        while i < secs.len()
            invariant
                i <= secs@.len(),
                all == pair_views(secs@),
                all == sections_of(completion@),
                record_of_sections(entries@, without_completed(all.subrange(0, i as int))),
            decreases secs@.len() - i,
        {
            let ghost w = without_completed(all.subrange(0, i as int));
            assert(all.subrange(0, i + 1).drop_last() == all.subrange(0, i as int));
            assert(all.subrange(0, i + 1).last() == all[i as int]);
            let entry = &secs[i];
            assert(all[i as int] == (entry.0@, entry.1@));
            if !str_eq(entry.0.as_str(), "completed") {
                let v = section_json(entry.1.clone());
                let ghost before = entries@;
                let pair = (entry.0.clone(), v);
                let ghost gp = pair;
                entries.push(pair);
                assert(without_completed(all.subrange(0, i + 1)) == w.push(all[i as int]));
                assert forall|j: int| 0 <= j < w.len() + 1 implies entries@[j].0@ == w.push(all[i as int])[j].0
                    && section_value((#[trigger] entries@[j]).1, w.push(all[i as int])[j].1) by {
                    if j < w.len() {
                        assert(entries@[j] == before[j]);
                        assert(w.push(all[i as int])[j] == w[j]);
                        assert(record_of_sections(before, w));
                        assert(before[j].0@ == w[j].0 && section_value(before[j].1, w[j].1));
                    } else {
                        assert(entries@[j] == gp);
                    }
                }
            }
            i = i + 1;
        }
        assert(all.subrange(0, secs@.len() as int) == all);
        Ok(JsonValue::Object(entries))
    }
}

/// The JSON adapter: fields listed with their types, the answer one JSON
/// object.
pub struct JsonAdapter {
    pub config: AdapterConfig,
}

impl JsonAdapter {
    pub fn new(config: AdapterConfig) -> (r: Self)
        ensures
            r.config == config,
    {
        JsonAdapter { config }
    }
}

pub open spec fn json_description(fields: Seq<FieldSpec>) -> Seq<char> {
    joined(field_lines(fields, FieldStyle::DescribedTyped), "\n"@)
}

/// What a completion's JSON document reads as: the first balanced `{...}`
/// span, or the whole text.
pub open spec fn json_parsed(completion: Seq<char>, r: Result<JsonValue, ParseError>) -> bool {
    match json_parse(json_span(completion)) {
        Some(v) => r == Ok::<JsonValue, ParseError>(v),
        None => r == Err::<JsonValue, ParseError>(ParseError::InvalidJson),
    }
}

fn chars_of_str(s: &str) -> (r: Vec<char>)
    ensures
        r@ == s@,
{
    let n = s.unicode_len();
    let mut out: Vec<char> = Vec::new();
    let mut i: usize = 0;
    while i < n
        invariant
            n == s@.len(),
            i <= n,
            out@ == s@.subrange(0, i as int),
        decreases n - i,
    {
        out.push(s.get_char(i));
        assert(s@.subrange(0, i + 1) == s@.subrange(0, i as int).push(s@[i as int]));
        i = i + 1;
    }
    assert(s@.subrange(0, n as int) == s@);
    out
}

/// The first balanced `{...}` span of a completion, or the whole text.
pub fn extract_json_span(completion: &str) -> (r: &str)
    ensures
        r@ == json_span(completion@),
{
    let cs = chars_of_str(completion);
    let (a, b) = json_span_chars(&cs);
    completion.substring_char(a, b)
}

impl Adapter for JsonAdapter {
    open spec fn description_text(&self, fields: Seq<FieldSpec>) -> Seq<char> {
        json_description(fields)
    }

    open spec fn structure_text(&self, input: Seq<FieldSpec>, output: Seq<FieldSpec>) -> Seq<char> {
        joined(
            seq![
                "All interactions will be structured in the following way:"@,
                ""@,
                "Input fields:"@,
                json_description(input),
                ""@,
                "Output will be a JSON object with the following fields:"@,
                json_description(output),
            ],
            "\n"@,
        )
    }

    open spec fn task_text(&self, instructions: Seq<char>) -> Seq<char> {
        "Your task: "@ + instructions
    }

    open spec fn user_text(&self, inputs: JsonValue, fields: Seq<FieldSpec>, output: Seq<FieldSpec>) -> Seq<char> {
        joined(
            present_parts(fields, inputs, false).push(
                "\nRespond with a JSON object containing these fields: "@ + joined(
                    field_lines(output, FieldStyle::Name),
                    ", "@,
                ),
            ),
            "\n"@,
        )
    }

    open spec fn assistant_text(&self, outputs: JsonValue, fields: Seq<FieldSpec>) -> Seq<char> {
        json_pretty(outputs)
    }

    open spec fn parsed(&self, completion: Seq<char>, r: Result<JsonValue, ParseError>) -> bool {
        json_parsed(completion, r)
    }

    open spec fn spec_config(&self) -> AdapterConfig {
        self.config
    }

    fn config(&self) -> (r: &AdapterConfig) {
        &self.config
    }

    fn format_field_description(&self, schema: &Schema) -> (r: String) {
        let fields = extract_fields_from_schema(schema);
        let ls = format_field_lines(&fields, FieldStyle::DescribedTyped);
        join(&ls, "\n")
    }

    fn format_field_structure(&self, input_schema: &Schema, output_schema: &Schema) -> (r: String) {
        let mut parts: Vec<String> = Vec::new();
        parts.push(String::from_str("All interactions will be structured in the following way:"));
        parts.push(String::from_str(""));
        parts.push(String::from_str("Input fields:"));
        parts.push(self.format_field_description(input_schema));
        parts.push(String::from_str(""));
        parts.push(String::from_str("Output will be a JSON object with the following fields:"));
        parts.push(self.format_field_description(output_schema));
        assert(views(parts@) =~= seq![
            "All interactions will be structured in the following way:"@,
            ""@,
            "Input fields:"@,
            json_description(fields_of(input_schema.doc)),
            ""@,
            "Output will be a JSON object with the following fields:"@,
            json_description(fields_of(output_schema.doc)),
        ]);
        join(&parts, "\n")
    }

    fn format_task_description(&self, instructions: &str) -> (r: String) {
        let mut s = String::from_str("Your task: ");
        s.append(instructions);
        s
    }

    fn format_user_message_content(&self, inputs: &JsonValue, schema: &Schema, output_schema: &Schema) -> (r: String) {
        let mut parts = format_present_fields(&extract_fields_from_schema(schema), inputs, false);
        let names = format_field_lines(&extract_fields_from_schema(output_schema), FieldStyle::Name);
        let mut req = String::from_str("\nRespond with a JSON object containing these fields: ");
        let listed = join(&names, ", ");
        req.append(listed.as_str());
        let ghost before = parts@;
        parts.push(req);
        assert(views(parts@) =~= views(before).push(req@));
        join(&parts, "\n")
    }

    fn format_assistant_message_content(&self, outputs: &JsonValue, _schema: &Schema) -> (r: String) {
        to_pretty_json(outputs)
    }

    fn parse(&self, completion: &str, _schema: &Schema) -> (r: Result<JsonValue, ParseError>) {
        let span = extract_json_span(completion);
        match parse_json(span) {
            Some(v) => Ok(v),
            None => Err(ParseError::InvalidJson),
        }
    }
}

} // verus!
