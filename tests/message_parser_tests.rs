use claude_agent_sdk::message_parser::{
    Message, PartialTextMessage, PartialToolUseMessage, TextMessage, ToolResultMessage, ToolUseMessage,
};
use serde_json::Value;
use std::collections::HashMap;

#[test]
fn test_text_message_creation() {
    let message = TextMessage {
        message_id: "test_id".to_string(),
        content: "test content".to_string(),
        role: "user".to_string(),
        metadata: HashMap::new(),
    };

    assert_eq!(message.message_id, "test_id");
    assert_eq!(message.content, "test content");
    assert_eq!(message.role, "user");
}

#[test]
fn test_tool_use_message_creation() {
    let mut tool_input = HashMap::new();
    tool_input.insert("key".to_string(), Value::String("value".to_string()));

    let message = ToolUseMessage {
        message_id: "test_id".to_string(),
        tool_name: "test_tool".to_string(),
        tool_input,
        role: "assistant".to_string(),
        metadata: HashMap::new(),
    };

    assert_eq!(message.message_id, "test_id");
    assert_eq!(message.tool_name, "test_tool");
    assert_eq!(message.role, "assistant");
    assert_eq!(message.tool_input.get("key").unwrap(), &Value::String("value".to_string()));
}

#[test]
fn test_tool_result_message_creation() {
    let message = ToolResultMessage {
        message_id: "test_id".to_string(),
        tool_name: "test_tool".to_string(),
        tool_result: Value::String("result".to_string()),
        role: "user".to_string(),
        metadata: HashMap::new(),
    };

    assert_eq!(message.message_id, "test_id");
    assert_eq!(message.tool_name, "test_tool");
    assert_eq!(message.role, "user");
    assert_eq!(message.tool_result, Value::String("result".to_string()));
}

#[test]
fn test_partial_text_message_creation() {
    let message = PartialTextMessage {
        message_id: "test_id".to_string(),
        content: "partial content".to_string(),
        role: "assistant".to_string(),
        metadata: HashMap::new(),
    };

    assert_eq!(message.message_id, "test_id");
    assert_eq!(message.content, "partial content");
    assert_eq!(message.role, "assistant");
}

#[test]
fn test_partial_tool_use_message_creation() {
    let mut tool_input = HashMap::new();
    tool_input.insert("key".to_string(), Value::String("value".to_string()));

    let message = PartialToolUseMessage {
        message_id: "test_id".to_string(),
        tool_name: "test_tool".to_string(),
        tool_input,
        role: "assistant".to_string(),
        metadata: HashMap::new(),
    };

    assert_eq!(message.message_id, "test_id");
    assert_eq!(message.tool_name, "test_tool");
    assert_eq!(message.role, "assistant");
    assert_eq!(message.tool_input.get("key").unwrap(), &Value::String("value".to_string()));
}

#[test]
fn message_parser_tests_test_message_id_extraction() {
    let text_message = Message::Text(TextMessage {
        message_id: "text_id".to_string(),
        content: "test".to_string(),
        role: "user".to_string(),
        metadata: HashMap::new(),
    });
    assert_eq!(text_message.message_id(), "text_id");

    let tool_use_message = Message::ToolUse(ToolUseMessage {
        message_id: "tool_use_id".to_string(),
        tool_name: "test_tool".to_string(),
        tool_input: HashMap::new(),
        role: "assistant".to_string(),
        metadata: HashMap::new(),
    });
    assert_eq!(tool_use_message.message_id(), "tool_use_id");

    let tool_result_message = Message::ToolResult(ToolResultMessage {
        message_id: "tool_result_id".to_string(),
        tool_name: "test_tool".to_string(),
        tool_result: Value::String("result".to_string()),
        role: "user".to_string(),
        metadata: HashMap::new(),
    });
    assert_eq!(tool_result_message.message_id(), "tool_result_id");

    let partial_text_message = Message::PartialText(PartialTextMessage {
        message_id: "partial_text_id".to_string(),
        content: "partial".to_string(),
        role: "assistant".to_string(),
        metadata: HashMap::new(),
    });
    assert_eq!(partial_text_message.message_id(), "partial_text_id");

    let partial_tool_use_message = Message::PartialToolUse(PartialToolUseMessage {
        message_id: "partial_tool_use_id".to_string(),
        tool_name: "test_tool".to_string(),
        tool_input: HashMap::new(),
        role: "assistant".to_string(),
        metadata: HashMap::new(),
    });
    assert_eq!(partial_tool_use_message.message_id(), "partial_tool_use_id");
}
