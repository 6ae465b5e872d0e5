use claude_agent_sdk::error::AgentError;

#[test]
fn test_transport_error() {
    let agent_error = AgentError::TransportError("test error".to_string());
    let msg = agent_error.to_string();
    assert!(msg.contains("Transport error"));
}

#[test]
fn test_serialization_error() {
    let json_error = serde_json::from_str::<serde_json::Value>("invalid json").unwrap_err();
    let agent_error = AgentError::SerializationError(json_error.to_string());
    let msg = agent_error.to_string();
    assert!(msg.contains("Serialization error"));
}

#[test]
fn test_io_error() {
    let io_error = std::io::Error::new(std::io::ErrorKind::Other, "test error");
    let agent_error = AgentError::IOError(io_error.to_string());
    let msg = agent_error.to_string();
    assert!(msg.contains("IO error"));
}

#[test]
fn test_process_error() {
    let agent_error = AgentError::ProcessError("test error".to_string());
    let msg = agent_error.to_string();
    assert!(msg.contains("Process error"));
    assert!(msg.contains("test error"));
}

#[test]
fn test_message_parsing_error() {
    let agent_error = AgentError::MessageParsingError("test error".to_string());
    let msg = agent_error.to_string();
    assert!(msg.contains("Message parsing error"));
    assert!(msg.contains("test error"));
}

#[test]
fn test_invalid_message_type_error() {
    let agent_error = AgentError::InvalidMessageType("test error".to_string());
    let msg = agent_error.to_string();
    assert!(msg.contains("Invalid message type"));
    assert!(msg.contains("test error"));
}

#[test]
fn test_tool_execution_error() {
    let agent_error = AgentError::ToolExecutionError("test error".to_string());
    let msg = agent_error.to_string();
    assert!(msg.contains("Tool execution error"));
    assert!(msg.contains("test error"));
}

#[test]
fn test_custom_error() {
    let agent_error = AgentError::CustomError("test error".to_string());
    let msg = agent_error.to_string();
    assert!(msg.contains("Custom error"));
    assert!(msg.contains("test error"));
}

#[test]
fn test_custom_error_method() {
    let agent_error = AgentError::custom("test error");
    let msg = agent_error.to_string();
    assert!(msg.contains("Custom error"));
    assert!(msg.contains("test error"));
}

#[test]
fn error_text_is_label_then_message() {
    assert_eq!(AgentError::ProcessError("boom".to_string()).to_string(), "Process error: boom");
    assert_eq!(AgentError::TransportError("x".to_string()).to_string(), "Transport error: x");
    assert_eq!(AgentError::SerializationError("x".to_string()).to_string(), "Serialization error: x");
    assert_eq!(AgentError::IOError("x".to_string()).to_string(), "IO error: x");
    assert_eq!(AgentError::custom("").to_string(), "Custom error: ");
}
