//! The messages exchanged with a completion provider.

use vstd::prelude::*;
use crate::json::JsonValue;

verus! {

#[derive(Debug, PartialEq)]
pub enum ContentTypes {
    Text(String),
}

/// A call of a tool that the provider asked for.
#[derive(Debug, PartialEq)]
pub struct ToolCall {
    pub id: String,
    pub name: String,
    pub arguments: JsonValue,
}

/// One message of a conversation.
#[derive(Debug, PartialEq)]
pub enum Message {
    System { content: ContentTypes },
    User { content: ContentTypes },
    Assistant { content: Option<ContentTypes>, tool_calls: Option<Vec<ToolCall>> },
    Tool { content: ContentTypes, tool_call_id: String },
}

/// A tool that the provider may call.
#[derive(Debug, PartialEq)]
pub struct AvailableTool {
    pub name: String,
    pub desc: String,
    pub input_schema_json: Option<JsonValue>,
}

/// What a completion request is made with.
#[derive(Debug, PartialEq)]
pub struct CompletionConfig {
    pub model: String,
    pub tools: Option<Vec<AvailableTool>>,
}

pub open spec fn is_system_text(m: Message, t: Seq<char>) -> bool {
    m matches Message::System { content: ContentTypes::Text(s) } && s@ == t
}

pub open spec fn is_user_text(m: Message, t: Seq<char>) -> bool {
    m matches Message::User { content: ContentTypes::Text(s) } && s@ == t
}

/// An assistant message with the given text and no tool calls.
pub open spec fn is_assistant_text(m: Message, t: Seq<char>) -> bool {
    m matches Message::Assistant { content: Some(ContentTypes::Text(s)), tool_calls: None } && s@ == t
}

impl Message {
    pub fn user(content: &str) -> (r: Message)
        ensures
            is_user_text(r, content@),
    {
        Message::User { content: ContentTypes::Text(String::from_str(content)) }
    }

    pub fn assistant(content: Option<&str>, tool_calls: Option<Vec<ToolCall>>) -> (r: Message)
        ensures
            r matches Message::Assistant { content: c, tool_calls: t } && t == tool_calls && match content {
                Some(x) => c matches Some(ContentTypes::Text(s)) && s@ == x@,
                None => c is None,
            },
    {
        let c = match content {
            Some(x) => Some(ContentTypes::Text(String::from_str(x))),
            None => None,
        };
        Message::Assistant { content: c, tool_calls }
    }

    pub fn system(content: &str) -> (r: Message)
        ensures
            is_system_text(r, content@),
    {
        Message::System { content: ContentTypes::Text(String::from_str(content)) }
    }

    pub fn tool(content: &str, tool_call_id: &str) -> (r: Message)
        ensures
            r matches Message::Tool { content: ContentTypes::Text(s), tool_call_id: id } && s@ == content@
                && id@ == tool_call_id@,
    {
        Message::Tool {
            content: ContentTypes::Text(String::from_str(content)),
            tool_call_id: String::from_str(tool_call_id),
        }
    }
}

} // verus!
