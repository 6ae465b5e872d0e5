//! The earlier message shape: text, tool use and tool result messages, whole or
//! partial, each carrying its own id.
use vstd::prelude::*;

pub use crate::types::{PartialTextMessage, PartialToolUseMessage, TextMessage, ToolResultMessage, ToolUseMessage};

verus! {

#[derive(Debug, Clone)]
pub enum Message {
    Text(TextMessage),
    ToolUse(ToolUseMessage),
    ToolResult(ToolResultMessage),
    PartialText(PartialTextMessage),
    PartialToolUse(PartialToolUseMessage),
}

impl Message {
    pub open spec fn id_text(&self) -> Seq<char> {
        match self {
            Message::Text(m) => m.message_id@,
            Message::ToolUse(m) => m.message_id@,
            Message::ToolResult(m) => m.message_id@,
            Message::PartialText(m) => m.message_id@,
            Message::PartialToolUse(m) => m.message_id@,
        }
    }

    pub fn message_id(&self) -> (r: &str)
        ensures
            r@ == self.id_text(),
    {
        match self {
            Message::Text(m) => m.message_id.as_str(),
            Message::ToolUse(m) => m.message_id.as_str(),
            Message::ToolResult(m) => m.message_id.as_str(),
            Message::PartialText(m) => m.message_id.as_str(),
            Message::PartialToolUse(m) => m.message_id.as_str(),
        }
    }
}

} // verus!
