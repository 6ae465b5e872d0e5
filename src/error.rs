//! The error taxonomy of the engine.
use vstd::prelude::*;

verus! {

/// Every failure the engine reports. Each variant carries a human-readable text.
#[derive(Debug, Clone, PartialEq, Eq)]
pub enum AgentError {
    /// The underlying channel failed.
    TransportError(String),
    /// A frame could not be encoded or decoded.
    SerializationError(String),
    /// An I/O operation failed.
    IOError(String),
    /// The protocol was misused: a control operation outside streaming mode or
    /// before initialization, a timeout, an unknown permission update, an
    /// unregistered hook id, or a closed session.
    ProcessError(String),
    MessageParsingError(String),
    InvalidMessageType(String),
    ToolExecutionError(String),
    CustomError(String),
}

impl AgentError {
    /// The text that the error carries.
    pub open spec fn text(self) -> Seq<char> {
        match self {
            AgentError::TransportError(m) => m@,
            AgentError::SerializationError(m) => m@,
            AgentError::IOError(m) => m@,
            AgentError::ProcessError(m) => m@,
            AgentError::MessageParsingError(m) => m@,
            AgentError::InvalidMessageType(m) => m@,
            AgentError::ToolExecutionError(m) => m@,
            AgentError::CustomError(m) => m@,
        }
    }

    pub fn custom(message: &str) -> (r: AgentError)
        ensures
            r is CustomError,
            r.text() == message@,
    {
        AgentError::CustomError(message.to_string())
    }

    /// The label that the text of the error follows.
    pub open spec fn label(self) -> Seq<char> {
        match self {
            AgentError::TransportError(_) => "Transport error: "@,
            AgentError::SerializationError(_) => "Serialization error: "@,
            AgentError::IOError(_) => "IO error: "@,
            AgentError::ProcessError(_) => "Process error: "@,
            AgentError::MessageParsingError(_) => "Message parsing error: "@,
            AgentError::InvalidMessageType(_) => "Invalid message type: "@,
            AgentError::ToolExecutionError(_) => "Tool execution error: "@,
            AgentError::CustomError(_) => "Custom error: "@,
        }
    }

    /// The human-readable form of the error: its label, then its text.
    pub fn to_string(&self) -> (r: String)
        ensures
            r@ == self.label() + self.text(),
    {
        proof {
            reveal_strlit("Transport error: ");
            reveal_strlit("Serialization error: ");
            reveal_strlit("IO error: ");
            reveal_strlit("Process error: ");
            reveal_strlit("Message parsing error: ");
            reveal_strlit("Invalid message type: ");
            reveal_strlit("Tool execution error: ");
            reveal_strlit("Custom error: ");
        }
        let (label, text) = match self {
            AgentError::TransportError(m) => ("Transport error: ", m),
            AgentError::SerializationError(m) => ("Serialization error: ", m),
            AgentError::IOError(m) => ("IO error: ", m),
            AgentError::ProcessError(m) => ("Process error: ", m),
            AgentError::MessageParsingError(m) => ("Message parsing error: ", m),
            AgentError::InvalidMessageType(m) => ("Invalid message type: ", m),
            AgentError::ToolExecutionError(m) => ("Tool execution error: ", m),
            AgentError::CustomError(m) => ("Custom error: ", m),
        };
        label.to_string().concat(text.as_str())
    }
}

} // verus!
