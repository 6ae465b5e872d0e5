//! Classification of inbound frames: a conversation message, a control response
//! for some request id, or anything else.
use crate::json::{member, member_of, opt_text, str_member, str_member_of};
use crate::registry::ControlReply;
use crate::types::Message;
use vstd::prelude::*;

verus! {

#[derive(Debug)]
pub enum InboundFrame {
    /// The frame decoded as a conversation message.
    Conversation(Message),
    /// A control response naming the request it answers.
    ControlResponse { request_id: String, reply: ControlReply },
    /// Neither: handed verbatim to a one-shot caller, dropped by a streaming one.
    Other(serde_json::Value),
}

pub open spec fn control_response_tag() -> Seq<char> {
    "control_response"@
}

/// The reply a control response carries: its `response` member if present, else
/// its `error` text if present, else nothing.
pub open spec fn reply_of(response: Option<serde_json::Value>, error: Option<String>) -> ControlReply {
    match response {
        Some(v) => ControlReply::Success(v),
        None => match error {
            Some(e) => ControlReply::Failure(e),
            None => ControlReply::Empty,
        },
    }
}

/// Classifies a frame from what was read of it: `decoded` is the frame as a
/// conversation message if it decodes as one; `type_tag`, `request_id`,
/// `response` and `error` are its members of those names (the text ones only
/// when they are JSON strings).
pub fn classify_fields(
    decoded: Option<Message>,
    raw: serde_json::Value,
    type_tag: Option<String>,
    request_id: Option<String>,
    response: Option<serde_json::Value>,
    error: Option<String>,
) -> (r: InboundFrame)
    ensures
        match decoded {
            Some(m) => r == InboundFrame::Conversation(m),
            None => {
                if type_tag matches Some(t) && t@ == control_response_tag() && request_id is Some {
                    r == (InboundFrame::ControlResponse {
                        request_id: request_id->Some_0,
                        reply: reply_of(response, error),
                    })
                } else {
                    r == InboundFrame::Other(raw)
                }
            },
        },
{
    match decoded {
        Some(m) => InboundFrame::Conversation(m),
        None => {
            let is_control = match &type_tag {
                Some(t) => {
                    proof {
                        reveal_strlit("control_response");
                    }
                    *t == "control_response".to_string()
                },
                None => false,
            };
            match request_id {
                Some(id) if is_control => {
                    let reply = match response {
                        Some(v) => ControlReply::Success(v),
                        None => match error {
                            Some(e) => ControlReply::Failure(e),
                            None => ControlReply::Empty,
                        },
                    };
                    InboundFrame::ControlResponse { request_id: id, reply }
                },
                _ => InboundFrame::Other(raw),
            }
        },
    }
}

/// `reply` is the reply that a control response with the given `response`
/// member and `error` text carries.
pub open spec fn reply_matches(reply: ControlReply, response: Option<serde_json::Value>, error: Option<Seq<char>>) -> bool {
    match response {
        Some(v) => reply == ControlReply::Success(v),
        None => match error {
            Some(e) => reply matches ControlReply::Failure(m) && m@ == e,
            None => reply == ControlReply::Empty,
        },
    }
}

/// Classifies a frame, given its decoding as a conversation message if it has
/// one: a decoded frame is a conversation message; otherwise a frame whose
/// `type` is `control_response` and whose `request_id` is a string is a control
/// response for that id, carrying its `response` member, else its `error` text;
/// anything else is handed on verbatim.
pub fn classify_frame(decoded: Option<Message>, raw: serde_json::Value) -> (r: InboundFrame)
    ensures
        match decoded {
            Some(m) => r == InboundFrame::Conversation(m),
            None => {
                if str_member_of(raw, "type"@) == Some(control_response_tag()) && str_member_of(raw, "request_id"@) is Some {
                    r matches InboundFrame::ControlResponse { request_id, reply } && {
                        &&& Some(request_id@) == str_member_of(raw, "request_id"@)
                        &&& reply_matches(reply, member_of(raw, "response"@), str_member_of(raw, "error"@))
                    }
                } else {
                    r == InboundFrame::Other(raw)
                }
            },
        },
{
    let type_tag = str_member(&raw, "type");
    let request_id = str_member(&raw, "request_id");
    let response = member(&raw, "response");
    let error = str_member(&raw, "error");
    classify_fields(decoded, raw, type_tag, request_id, response, error)
}

} // verus!
