//! Control-protocol engine for conversing with an external agent process over a
//! line-oriented duplex stream: frame classification, correlation of control
//! responses with the requests that asked for them, hook and permission dispatch,
//! and the session lifecycle.

pub mod client;
pub mod error;
pub mod frames;
pub mod hooks;
pub mod ids;
pub mod json;
pub mod message_parser;
pub mod permissions;
pub mod query;
pub mod registry;
pub mod table;
pub mod types;

pub use client::InternalClient;
pub use error::AgentError;
pub use query::Query;
pub use types::{
    AssistantMessage, ContentBlock, Message, PartialTextMessage, PartialToolUseMessage, QueryResponse, ResultMessage,
    StreamEvent, SystemMessage, TextBlock, TextMessage, ThinkingBlock, ToolDefinition, ToolResultBlock,
    ToolResultMessage, ToolUseBlock, ToolUseMessage, UserMessage,
};
