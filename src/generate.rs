//! Building the conversation for one generation call, and the decisions of
//! its retry loop.

use vstd::prelude::*;
use crate::json::JsonValue;
use crate::schema::{Schema, fields_of};
use crate::adapters::Adapter;
use crate::models::{Message, ContentTypes, ToolCall, AvailableTool, is_system_text, is_user_text, is_assistant_text};

verus! {

/// A few-shot example: an input record and the output record it should give.
#[derive(Debug, PartialEq)]
pub struct Demo {
    pub inputs: JsonValue,
    pub outputs: JsonValue,
}

/// The text of the system message: field descriptions, the layout, then the
/// task.
pub open spec fn system_text<A: Adapter>(adapter: A, instructions: Seq<char>, input: Schema, output: Schema) -> Seq<char> {
    adapter.description_text(fields_of(input.doc)) + "\n"@ + adapter.structure_text(
        fields_of(input.doc),
        fields_of(output.doc),
    ) + "\n"@ + adapter.task_text(instructions)
}

/// Each demo as a user message with its inputs and an assistant message
/// with its outputs.
pub open spec fn demos_rendered<A: Adapter>(adapter: A, demos: Seq<Demo>, input: Schema, output: Schema, r: Seq<Message>) -> bool {
    &&& r.len() == 2 * demos.len()
    &&& forall|i: int|
        0 <= i < demos.len() ==> is_user_text(
            #[trigger] r[2 * i],
            adapter.user_text(demos[i].inputs, fields_of(input.doc), fields_of(output.doc)),
        ) && is_assistant_text(r[2 * i + 1], adapter.assistant_text(demos[i].outputs, fields_of(output.doc)))
}

/// Renders the demos as alternating user and assistant messages.
pub fn format_demos_with_schemas<A: Adapter>(
    adapter: &A,
    demos: &Vec<Demo>,
    input_schema: &Schema,
    output_schema: &Schema,
) -> (r: Vec<Message>)
    ensures
        demos_rendered(*adapter, demos@, *input_schema, *output_schema, r@),
{
    let mut out: Vec<Message> = Vec::new();
    let mut i: usize = 0;
    while i < demos.len()
        invariant
            i <= demos@.len(),
            demos_rendered(*adapter, demos@.subrange(0, i as int), *input_schema, *output_schema, out@),
        decreases demos@.len() - i,
    {
        let u = adapter.format_user_message_content(&demos[i].inputs, input_schema, output_schema);
        let a = adapter.format_assistant_message_content(&demos[i].outputs, output_schema);
        let ghost before = out@;
        let um = Message::user(u.as_str());
        let am = Message::assistant(Some(a.as_str()), None);
        let ghost (gu, ga) = (um, am);
        out.push(um);
        out.push(am);
        assert(out@.len() == 2 * (i + 1));
        assert(out@[2 * i] == gu && out@[2 * i + 1] == ga);
        assert forall|j: int| 0 <= j < i + 1 implies is_user_text(
            #[trigger] out@[2 * j],
            adapter.user_text(demos@.subrange(0, i + 1)[j].inputs, fields_of(input_schema.doc), fields_of(output_schema.doc)),
        ) && is_assistant_text(
            out@[2 * j + 1],
            adapter.assistant_text(demos@.subrange(0, i + 1)[j].outputs, fields_of(output_schema.doc)),
        ) by {
            if j < i {
                assert(out@[2 * j] == before[2 * j]);
                assert(out@[2 * j + 1] == before[2 * j + 1]);
                assert(demos@.subrange(0, i + 1)[j] == demos@.subrange(0, i as int)[j]);
            } else {
                assert(demos@.subrange(0, i + 1)[j] == demos@[i as int]);
                assert(out@[2 * j] == gu && out@[2 * j + 1] == ga);
            }
        }
        i = i + 1;
    }
    assert(demos@.subrange(0, demos@.len() as int) == demos@);
    out
}

/// The conversation for one call: the system message, the demos, then the
/// user message with the current inputs.
pub open spec fn messages_rendered<A: Adapter>(
    adapter: A,
    instructions: Seq<char>,
    demos: Seq<Demo>,
    inputs: JsonValue,
    input: Schema,
    output: Schema,
    r: Seq<Message>,
) -> bool {
    &&& r.len() == 2 * demos.len() + 2
    &&& is_system_text(r[0], system_text(adapter, instructions, input, output))
    &&& demos_rendered(adapter, demos, input, output, r.subrange(1, r.len() - 1))
    &&& is_user_text(r.last(), adapter.user_text(inputs, fields_of(input.doc), fields_of(output.doc)))
}

/// Renders the whole conversation for one call.
pub fn format_messages_with_schemas<A: Adapter>(
    adapter: &A,
    instructions: &str,
    demos: &Vec<Demo>,
    inputs: &JsonValue,
    input_schema: &Schema,
    output_schema: &Schema,
) -> (r: Vec<Message>)
    ensures
        messages_rendered(*adapter, instructions@, demos@, *inputs, *input_schema, *output_schema, r@),
{
    let mut system = adapter.format_field_description(input_schema);
    system.append("\n");
    let structure = adapter.format_field_structure(input_schema, output_schema);
    system.append(structure.as_str());
    system.append("\n");
    let task = adapter.format_task_description(instructions);
    system.append(task.as_str());
    let mut out: Vec<Message> = Vec::new();
    out.push(Message::system(system.as_str()));
    let mut rendered = format_demos_with_schemas(adapter, demos, input_schema, output_schema);
    let ghost d = rendered@;
    out.append(&mut rendered);
    let user = adapter.format_user_message_content(inputs, input_schema, output_schema);
    out.push(Message::user(user.as_str()));
    assert(out@.subrange(1, out@.len() - 1) =~= d);
    out
}

/// The conversation with the history put right after the system message,
/// or, when there are no messages, the history alone.
pub open spec fn spliced(messages: Seq<Message>, history: Option<Vec<Message>>) -> Seq<Message> {
    match history {
        Some(h) => if messages.len() > 0 {
            seq![messages[0]] + h@ + messages.drop_first()
        } else {
            h@
        },
        None => messages,
    }
}

/// Puts the extracted history into the conversation after its first message.
pub fn splice_history(messages: Vec<Message>, history: Option<Vec<Message>>) -> (r: Vec<Message>)
    ensures
        r@ == spliced(messages@, history),
{
    match history {
        Some(mut h) => {
            let mut messages = messages;
            if messages.len() > 0 {
                let ghost m = messages@;
                let ghost hv = h@;
                let first = messages.remove(0);
                let mut out: Vec<Message> = Vec::new();
                out.push(first);
                out.append(&mut h);
                out.append(&mut messages);
                assert(out@ =~= seq![m[0]] + hv + m.drop_first());
                out
            } else {
                h
            }
        },
        None => messages,
    }
}

/// The tools for a call: those the inputs declare, or else the caller's.
pub fn merge_tools(extracted: Option<Vec<AvailableTool>>, base: Option<Vec<AvailableTool>>) -> (r: Option<Vec<AvailableTool>>)
    ensures
        r == (if extracted is Some { extracted } else { base }),
{
    match extracted {
        Some(t) => Some(t),
        None => base,
    }
}

/// Why a generation call ended without a result.
#[derive(Debug, PartialEq)]
pub enum GenerateError<E> {
    /// The provider failed on the last attempt.
    Provider(E),
    /// The completion could not be read back on the last attempt.
    Parse(E),
    /// The provider answered with neither text nor tool calls.
    Shape,
    /// No attempt was allowed.
    Exhausted { attempts: usize },
}

/// What happened on an attempt.
pub enum Outcome<E> {
    /// The provider failed.
    ProviderFailed(E),
    /// The provider answered.
    Responded(Message),
    /// The answer's text could not be read back.
    ParseFailed(E),
}

/// What the caller does next.
#[derive(Debug, PartialEq)]
pub enum Step<E> {
    /// Call the provider, for the attempt with this index.
    Call { attempt: usize },
    /// Read the text back; add the tool calls, if any, to the result.
    Parse { text: String, tool_calls: Option<Vec<ToolCall>> },
    /// Build the result from an empty record and these tool calls.
    ToolsOnly { tool_calls: Vec<ToolCall> },
    /// Stop with this error.
    Fail(GenerateError<E>),
}

pub open spec fn first_step<E>(attempt: usize, max_retries: usize) -> Step<E> {
    if attempt < max_retries {
        Step::Call { attempt }
    } else {
        Step::Fail(GenerateError::Exhausted { attempts: max_retries })
    }
}

/// After a failure: the next attempt while one is left, else the failure.
pub open spec fn after_failure<E>(attempt: usize, max_retries: usize, err: GenerateError<E>) -> (usize, Step<E>) {
    if attempt + 1 < max_retries {
        ((attempt + 1) as usize, Step::Call { attempt: (attempt + 1) as usize })
    } else {
        (attempt, Step::Fail(err))
    }
}

/// What an answer leads to: text is read back (with any tool calls), tool
/// calls alone build the result from an empty record, anything else fails.
pub open spec fn answer_step<E>(m: Message) -> Step<E> {
    match m {
        Message::Assistant { content: Some(ContentTypes::Text(t)), tool_calls } => Step::Parse { text: t, tool_calls },
        Message::Assistant { content: None, tool_calls: Some(calls) } => Step::ToolsOnly { tool_calls: calls },
        _ => Step::Fail(GenerateError::Shape),
    }
}

/// The attempt index and the step after an outcome.
pub open spec fn next_step<E>(attempt: usize, max_retries: usize, outcome: Outcome<E>) -> (usize, Step<E>) {
    match outcome {
        Outcome::ProviderFailed(e) => after_failure(attempt, max_retries, GenerateError::Provider(e)),
        Outcome::ParseFailed(e) => after_failure(attempt, max_retries, GenerateError::Parse(e)),
        Outcome::Responded(m) => (attempt, answer_step(m)),
    }
}

/// The attempt counter of a generation call: at most `max_retries` calls of
/// the provider, where a provider failure or an unreadable answer moves on
/// to the next attempt, and the last one's failure ends the call.
pub struct RetryLoop {
    pub attempt: usize,
    pub max_retries: usize,
}

impl RetryLoop {
    pub fn new(max_retries: usize) -> (r: RetryLoop)
        ensures
            r.attempt == 0,
            r.max_retries == max_retries,
    {
        RetryLoop { attempt: 0, max_retries }
    }

    /// The first step: the first call, or failure when no attempt is allowed.
    pub fn start<E>(&self) -> (r: Step<E>)
        ensures
            r == first_step::<E>(self.attempt, self.max_retries),
    {
        if self.attempt < self.max_retries {
            Step::Call { attempt: self.attempt }
        } else {
            Step::Fail(GenerateError::Exhausted { attempts: self.max_retries })
        }
    }

    /// Decides the next step from what happened on the current attempt.
    pub fn on_outcome<E>(&mut self, outcome: Outcome<E>) -> (r: Step<E>)
        requires
            old(self).attempt < old(self).max_retries,
        ensures
            final(self).max_retries == old(self).max_retries,
            (final(self).attempt, r) == next_step(old(self).attempt, old(self).max_retries, outcome),
    {
        match outcome {
            Outcome::ProviderFailed(e) => {
                if self.attempt + 1 < self.max_retries {
                    self.attempt = self.attempt + 1;
                    Step::Call { attempt: self.attempt }
                } else {
                    Step::Fail(GenerateError::Provider(e))
                }
            },
            Outcome::ParseFailed(e) => {
                if self.attempt + 1 < self.max_retries {
                    self.attempt = self.attempt + 1;
                    Step::Call { attempt: self.attempt }
                } else {
                    Step::Fail(GenerateError::Parse(e))
                }
            },
            Outcome::Responded(m) => match m {
                Message::Assistant { content: Some(ContentTypes::Text(t)), tool_calls } => Step::Parse {
                    text: t,
                    tool_calls,
                },
                Message::Assistant { content: None, tool_calls: Some(calls) } => Step::ToolsOnly { tool_calls: calls },
                _ => Step::Fail(GenerateError::Shape),
            },
        }
    }
}

} // verus!
