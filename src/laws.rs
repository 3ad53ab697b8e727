//! Properties that relate several operations of the library.

use vstd::prelude::*;
use crate::json::JsonValue;
use crate::schema::{node_label, is_type_label, primitive_label};
use crate::models::Message;
use crate::generate::spliced;
use crate::schema::{FieldSpec, fields_of, names_of};
use crate::specials::{SpecialFields, excludes};
use crate::adapters::{Adapter, JsonAdapter, ParseError};
use crate::json::{json_parse, json_pretty};
use crate::braces::json_span;

verus! {

/// Type normalization is total and a function of the node alone: every node
/// gets one of the fixed labels, and the same node always gets the same one.
pub proof fn type_label_is_total_and_stable(a: JsonValue, b: JsonValue)
    requires
        a == b,
    ensures
        is_type_label(node_label(a)),
        node_label(a) == node_label(b),
{
    if let Some(JsonValue::Str(t)) = crate::json::spec_get(a, "type"@) {
        assert(is_type_label(primitive_label(t@)));
    }
}

/// With a history and a conversation that starts with its system message,
/// the spliced conversation is the system message, the history, then the
/// rest in order.
pub proof fn history_follows_system_message(messages: Seq<Message>, history: Vec<Message>)
    requires
        messages.len() > 0,
        messages[0] is System,
    ensures
        spliced(messages, Some(history))[0] == messages[0],
        spliced(messages, Some(history)).subrange(1, history@.len() + 1 as int) == history@,
        spliced(messages, Some(history)).skip(history@.len() as int + 1) == messages.drop_first(),
        spliced(messages, Some(history)).len() == messages.len() + history@.len(),
{
    let r = spliced(messages, Some(history));
    assert(r.subrange(1, history@.len() + 1 as int) =~= history@);
    assert(r.skip(history@.len() as int + 1) =~= messages.drop_first());
}

/// A prompt schema that passes the special-field check shares no field name
/// with the special fields.
pub proof fn checked_prompt_schema_has_no_special_field(doc: JsonValue, special: SpecialFields)
    requires
        excludes(names_of(fields_of(doc)), special.names()),
    ensures
        forall|name: Seq<char>| #![auto]
            names_of(fields_of(doc)).contains(name) ==> !special.names().contains(name),
{
}

/// The JSON adapter reads its own answer back: when the printed record is
/// one balanced object and the printer's text parses to the record again,
/// parsing what `format_assistant_message_content` wrote gives the record.
pub proof fn json_answer_reads_back(adapter: JsonAdapter, outputs: JsonValue, fields: Seq<FieldSpec>)
    requires
        json_span(json_pretty(outputs)) == json_pretty(outputs),
        json_parse(json_pretty(outputs)) == Some(outputs),
    ensures
        adapter.parsed(adapter.assistant_text(outputs, fields), Ok::<JsonValue, ParseError>(outputs)),
{
}

} // verus!
