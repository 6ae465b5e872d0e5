//! Conversation messages and their parts, as the engine hands them to callers.
use std::collections::HashMap;
use vstd::prelude::*;

verus! {

#[derive(Debug, Clone)]
pub struct TextBlock {
    pub text: String,
}

#[derive(Debug, Clone)]
pub struct ThinkingBlock {
    pub thinking: String,
    pub signature: String,
}

#[derive(Debug, Clone)]
pub struct ToolUseBlock {
    pub id: String,
    pub name: String,
    pub input: HashMap<String, serde_json::Value>,
}

#[derive(Debug, Clone)]
pub struct ToolResultBlock {
    pub tool_use_id: String,
    pub content: Option<serde_json::Value>,
    pub is_error: Option<bool>,
}

#[derive(Debug, Clone)]
pub enum ContentBlock {
    Text(TextBlock),
    Thinking(ThinkingBlock),
    ToolUse(ToolUseBlock),
    ToolResult(ToolResultBlock),
}

#[derive(Debug, Clone)]
pub struct UserMessage {
    pub content: String,
    pub parent_tool_use_id: Option<String>,
}

#[derive(Debug, Clone)]
pub struct AssistantMessage {
    pub content: Vec<ContentBlock>,
    pub model: String,
    pub parent_tool_use_id: Option<String>,
}

#[derive(Debug, Clone)]
pub struct SystemMessage {
    pub subtype: String,
    pub data: HashMap<String, serde_json::Value>,
}

/// The terminal message of a streaming exchange, with its completion metadata.
/// The cost is kept as the JSON number the peer sent.
#[derive(Debug, Clone)]
pub struct ResultMessage {
    pub subtype: String,
    pub duration_ms: u64,
    pub duration_api_ms: u64,
    pub is_error: bool,
    pub num_turns: u32,
    pub session_id: String,
    pub total_cost_usd: Option<serde_json::Number>,
    pub usage: Option<HashMap<String, serde_json::Value>>,
    pub result: Option<String>,
}

#[derive(Debug, Clone)]
pub struct StreamEvent {
    pub uuid: String,
    pub session_id: String,
    pub event: serde_json::Value,
    pub parent_tool_use_id: Option<String>,
}

#[derive(Debug, Clone)]
pub struct TextMessage {
    pub message_id: String,
    pub content: String,
    pub role: String,
    pub metadata: HashMap<String, serde_json::Value>,
}

#[derive(Debug, Clone)]
pub struct ToolUseMessage {
    pub message_id: String,
    pub tool_name: String,
    pub tool_input: HashMap<String, serde_json::Value>,
    pub role: String,
    pub metadata: HashMap<String, serde_json::Value>,
}

#[derive(Debug, Clone)]
pub struct ToolResultMessage {
    pub message_id: String,
    pub tool_name: String,
    pub tool_result: serde_json::Value,
    pub role: String,
    pub metadata: HashMap<String, serde_json::Value>,
}

#[derive(Debug, Clone)]
pub struct PartialTextMessage {
    pub message_id: String,
    pub content: String,
    pub role: String,
    pub metadata: HashMap<String, serde_json::Value>,
}

#[derive(Debug, Clone)]
pub struct PartialToolUseMessage {
    pub message_id: String,
    pub tool_name: String,
    pub tool_input: HashMap<String, serde_json::Value>,
    pub role: String,
    pub metadata: HashMap<String, serde_json::Value>,
}

#[derive(Debug, Clone)]
pub struct ToolDefinition {
    pub name: String,
    pub description: String,
    pub input_schema: serde_json::Value,
}

/// An answer made of conversation messages.
#[derive(Debug, Clone)]
pub struct QueryResponse {
    pub message_id: String,
    pub content: Vec<Message>,
    pub role: String,
    pub metadata: HashMap<String, serde_json::Value>,
}

/// A conversation message. `Result` ends a streaming exchange.
#[derive(Debug, Clone)]
pub enum Message {
    User(UserMessage),
    Assistant(AssistantMessage),
    System(SystemMessage),
    Result(ResultMessage),
    StreamEvent(StreamEvent),
    Text(TextMessage),
    ToolUse(ToolUseMessage),
    ToolResult(ToolResultMessage),
    PartialText(PartialTextMessage),
    PartialToolUse(PartialToolUseMessage),
}

impl Message {
    /// The id of a message: a fixed name for each of the structured kinds, the
    /// carried `message_id` for the others.
    pub open spec fn id_text(&self) -> Seq<char> {
        match self {
            Message::User(_) => "user_message"@,
            Message::Assistant(_) => "assistant_message"@,
            Message::System(_) => "system_message"@,
            Message::Result(_) => "result_message"@,
            Message::StreamEvent(_) => "stream_event"@,
            Message::Text(m) => m.message_id@,
            Message::ToolUse(m) => m.message_id@,
            Message::ToolResult(m) => m.message_id@,
            Message::PartialText(m) => m.message_id@,
            Message::PartialToolUse(m) => m.message_id@,
        }
    }

    pub fn message_id(&self) -> (r: &str)
        ensures
            r@ == self.id_text(),
    {
        proof {
            reveal_strlit("user_message");
            reveal_strlit("assistant_message");
            reveal_strlit("system_message");
            reveal_strlit("result_message");
            reveal_strlit("stream_event");
        }
        match self {
            Message::User(_) => "user_message",
            Message::Assistant(_) => "assistant_message",
            Message::System(_) => "system_message",
            Message::Result(_) => "result_message",
            Message::StreamEvent(_) => "stream_event",
            Message::Text(m) => m.message_id.as_str(),
            Message::ToolUse(m) => m.message_id.as_str(),
            Message::ToolResult(m) => m.message_id.as_str(),
            Message::PartialText(m) => m.message_id.as_str(),
            Message::PartialToolUse(m) => m.message_id.as_str(),
        }
    }

    /// Whether this message ends a streaming exchange.
    pub fn is_terminal(&self) -> (r: bool)
        ensures
            r == self is Result,
    {
        match self {
            Message::Result(_) => true,
            _ => false,
        }
    }
}

} // verus!
