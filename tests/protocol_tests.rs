use claude_agent_sdk::client::{sink_step, InternalClient, SinkStep};
use claude_agent_sdk::frames::{classify_fields, classify_frame, InboundFrame};
use claude_agent_sdk::hooks::HookMatcher;
use claude_agent_sdk::ids::{decimal_text, hook_id};
use claude_agent_sdk::table::NameTable;
use claude_agent_sdk::permissions::{PermissionResult, PermissionUpdate, PermissionUpdateKind};
use claude_agent_sdk::query::{ControlRequest, FrameOutcome, PermissionUpdateStep, ToolUseStep};
use claude_agent_sdk::registry::ControlReply;
use claude_agent_sdk::types::{Message, ResultMessage, UserMessage};
use claude_agent_sdk::{AgentError, Query};
use serde_json::Value;
use std::collections::HashMap;

type TestQuery = Query<(), String, u32>;

fn json(text: &str) -> Value {
    serde_json::from_str(text).unwrap()
}

fn response_frame(id: &str, body: &str) -> InboundFrame {
    let raw = json(&format!(r#"{{"type":"control_response","request_id":"{}","response":{}}}"#, id, body));
    classify_frame(None, raw)
}

fn error_frame(id: &str, message: &str) -> InboundFrame {
    let raw = json(&format!(r#"{{"type":"control_response","request_id":"{}","error":"{}"}}"#, id, message));
    classify_frame(None, raw)
}

fn user(text: &str) -> Message {
    Message::User(UserMessage { content: text.to_string(), parent_tool_use_id: None })
}

fn result_message() -> Message {
    Message::Result(ResultMessage {
        subtype: "success".to_string(),
        duration_ms: 10,
        duration_api_ms: 5,
        is_error: false,
        num_turns: 1,
        session_id: "s".to_string(),
        total_cost_usd: None,
        usage: None,
        result: None,
    })
}

fn initialized() -> TestQuery {
    let mut q = TestQuery::new(true, None, None, None);
    let env = q.initialize(0).unwrap().unwrap();
    let mut seen = Vec::new();
    let outcome = q.process_frame(response_frame(&env.request_id, "{}"), &mut seen);
    assert_eq!(outcome, FrameOutcome::Resolved(env.request_id.clone()));
    let reply = q.complete_control_request(&env.request_id).unwrap();
    assert!(q.finish_initialize(reply).unwrap().is_some());
    q
}

#[test]
fn request_ids_carry_counter_and_nonce() {
    let mut q = initialized();
    let env = q.begin_control_request_with_nonce(ControlRequest::Interrupt, "abc", 0).unwrap();
    assert_eq!(env.request_id, "req_2_abc");
    let env = q.begin_control_request_with_nonce(ControlRequest::Interrupt, "x", 0).unwrap();
    assert_eq!(env.request_id, "req_3_x");
    let random = q.interrupt(0).unwrap();
    assert!(random.request_id.starts_with("req_4_"));
    assert!(random.request_id.len() > "req_4_".len());
}

#[test]
fn out_of_order_responses_reach_their_own_callers() {
    let mut q = initialized();
    let a = q.interrupt(1).unwrap();
    let b = q.set_model(Some("sonnet"), 2).unwrap();
    assert_eq!(a.request.subtype(), "interrupt");
    assert_eq!(b.request.subtype(), "set_model");
    let mut seen = Vec::new();
    assert_eq!(q.process_frame(response_frame(&b.request_id, r#""B""#), &mut seen), FrameOutcome::Resolved(b.request_id.clone()));
    assert_eq!(q.control_waker(&b.request_id), Some(&2));
    assert!(q.complete_control_request(&a.request_id).is_none());
    assert_eq!(q.complete_control_request(&b.request_id).unwrap().unwrap(), Value::String("B".to_string()));
    assert_eq!(q.process_frame(response_frame(&a.request_id, r#""A""#), &mut seen), FrameOutcome::Resolved(a.request_id.clone()));
    assert_eq!(q.complete_control_request(&a.request_id).unwrap().unwrap(), Value::String("A".to_string()));
    assert!(seen.is_empty());
}

#[test]
fn many_concurrent_requests_resolve_by_id() {
    let mut q = initialized();
    let mut ids = Vec::new();
    for i in 0..6u32 {
        ids.push(q.interrupt(i).unwrap().request_id);
    }
    let order = [3usize, 0, 5, 1, 4, 2];
    let mut seen = Vec::new();
    for &i in order.iter() {
        let outcome = q.process_frame(response_frame(&ids[i], &i.to_string()), &mut seen);
        assert_eq!(outcome, FrameOutcome::Resolved(ids[i].clone()));
    }
    for (i, id) in ids.iter().enumerate() {
        assert_eq!(q.complete_control_request(id).unwrap().unwrap(), json(&i.to_string()));
    }
}

#[test]
fn peer_error_becomes_process_error() {
    let mut q = initialized();
    let a = q.set_permission_mode("plan", 0).unwrap();
    let mut seen = Vec::new();
    q.process_frame(error_frame(&a.request_id, "bad mode"), &mut seen);
    let out = q.complete_control_request(&a.request_id).unwrap();
    assert_eq!(out.unwrap_err(), AgentError::ProcessError("bad mode".to_string()));
}

#[test]
fn empty_response_reports_no_result() {
    let mut q = initialized();
    let a = q.interrupt(0).unwrap();
    let raw = json(&format!(r#"{{"type":"control_response","request_id":"{}"}}"#, a.request_id));
    let mut seen = Vec::new();
    q.process_frame(classify_frame(None, raw), &mut seen);
    let out = q.complete_control_request(&a.request_id).unwrap();
    assert_eq!(out.unwrap_err(), AgentError::ProcessError("No result found for control request".to_string()));
}

#[test]
fn timed_out_request_leaves_no_entry() {
    let mut q = initialized();
    let a = q.interrupt(0).unwrap();
    let b = q.set_model(None, 0).unwrap();
    let err = q.expire_control_request(&a.request_id);
    assert_eq!(err.to_string(), "Process error: Control request timeout: interrupt");
    assert!(q.control_waker(&a.request_id).is_none());
    let mut seen = Vec::new();
    assert_eq!(q.process_frame(response_frame(&a.request_id, "1"), &mut seen), FrameOutcome::Dropped);
    assert!(q.complete_control_request(&a.request_id).is_none());
    assert_eq!(q.process_frame(response_frame(&b.request_id, "2"), &mut seen), FrameOutcome::Resolved(b.request_id.clone()));
    assert_eq!(q.complete_control_request(&b.request_id).unwrap().unwrap(), json("2"));
    let err = q.expire_control_request(&a.request_id);
    assert_eq!(err, AgentError::ProcessError("Control request timeout: unknown".to_string()));
}

#[test]
fn initialize_without_streaming_sends_nothing() {
    let mut q = TestQuery::new(false, None, None, None);
    assert!(q.initialize(0).unwrap().is_none());
    assert!(q.control_waker(&"req_1_x".to_string()).is_none());
    let err = q.interrupt(0).unwrap_err();
    assert_eq!(err, AgentError::ProcessError("Control requests require streaming mode".to_string()));
}

#[test]
fn initialize_numbers_every_hook_function() {
    let hooks = vec![
        (
            "PreToolUse".to_string(),
            vec![
                HookMatcher { matcher: Some("Bash".to_string()), hooks: vec!["a".to_string(), "b".to_string()] },
                HookMatcher { matcher: None, hooks: vec!["c".to_string()] },
            ],
        ),
        ("Stop".to_string(), vec![]),
        ("PostToolUse".to_string(), vec![HookMatcher { matcher: None, hooks: vec![] }]),
        ("UserPromptSubmit".to_string(), vec![HookMatcher { matcher: None, hooks: vec!["d".to_string()] }]),
    ];
    let mut q = TestQuery::new(true, None, Some(hooks), None);
    let env = q.initialize(0).unwrap().unwrap();
    assert_eq!(env.request_id.starts_with("req_1_"), true);
    let config = match env.request {
        ControlRequest::Initialize { hooks: Some(c) } => c,
        _ => panic!("expected an announced configuration"),
    };
    let events: Vec<&str> = config.iter().map(|e| e.event.as_str()).collect();
    assert_eq!(events, vec!["PreToolUse", "PostToolUse", "UserPromptSubmit"]);
    assert_eq!(config[0].matchers[0].matcher, Some("Bash".to_string()));
    assert_eq!(config[0].matchers[0].hook_callback_ids, vec!["hook_0".to_string(), "hook_1".to_string()]);
    assert_eq!(config[0].matchers[1].hook_callback_ids, vec!["hook_2".to_string()]);
    assert!(config[1].matchers[0].hook_callback_ids.is_empty());
    assert_eq!(config[2].matchers[0].hook_callback_ids, vec!["hook_3".to_string()]);
    let all: Vec<String> = config
        .iter()
        .flat_map(|e| e.matchers.iter().flat_map(|m| m.hook_callback_ids.clone()))
        .collect();
    let mut distinct = all.clone();
    distinct.sort();
    distinct.dedup();
    assert_eq!(all.len(), 4);
    assert_eq!(distinct.len(), 4);
    assert_eq!(q.execute_hook(&"hook_0".to_string()).unwrap(), "a");
    assert_eq!(q.execute_hook(&"hook_2".to_string()).unwrap(), "c");
    assert_eq!(q.execute_hook(&"hook_3".to_string()).unwrap(), "d");
    let missing = q.execute_hook(&"hook_4".to_string()).unwrap_err();
    assert_eq!(missing, AgentError::ProcessError("Hook callback not found: hook_4".to_string()));
}

#[test]
fn initialize_with_no_hooks_announces_none() {
    let mut q = TestQuery::new(true, None, Some(vec![("Stop".to_string(), vec![])]), None);
    let env = q.initialize(0).unwrap().unwrap();
    assert!(matches!(env.request, ControlRequest::Initialize { hooks: None }));
}

#[test]
fn registered_callbacks_are_found_by_id() {
    let mut q = TestQuery::new(true, None, None, None);
    q.register_hook_callback("mine".to_string(), "first".to_string());
    q.register_hook_callback("mine".to_string(), "second".to_string());
    assert_eq!(q.execute_hook(&"mine".to_string()).unwrap(), "second");
}

#[test]
fn streaming_stops_after_result_message() {
    let mut q = initialized();
    let frames = vec![user("one"), user("two"), user("three"), result_message(), user("late")];
    let mut collected = Vec::new();
    let mut deliveries = 0;
    for m in frames {
        deliveries += 1;
        match q.process_frame(InboundFrame::Conversation(m), &mut collected) {
            FrameOutcome::Delivered { terminal: true } => break,
            FrameOutcome::Delivered { terminal: false } => {},
            other => panic!("unexpected outcome {:?}", other),
        }
    }
    assert_eq!(deliveries, 4);
    assert_eq!(collected.len(), 4);
    assert!(collected[3].is_terminal());
}

#[test]
fn sink_sees_exactly_one_result() {
    let frames = vec![user("one"), user("two"), user("three"), result_message(), user("late")];
    let mut sink = Vec::new();
    for m in frames {
        match sink_step(Some(m), Value::Null) {
            SinkStep::Deliver { message, last } => {
                sink.push(message);
                if last {
                    break;
                }
            },
            SinkStep::ReturnFrame(_) => panic!("unexpected frame"),
        }
    }
    assert_eq!(sink.len(), 4);
    let raw = json(r#"{"type":"control_request","request_id":"r"}"#);
    assert!(matches!(sink_step(None, raw.clone()), SinkStep::ReturnFrame(v) if v == raw));
}

#[test]
fn tool_use_without_predicate_is_allowed_unchanged() {
    let q = TestQuery::new(true, None, None, None);
    let mut input = HashMap::new();
    input.insert("command".to_string(), Value::String("ls".to_string()));
    match q.handle_tool_use("Bash".to_string(), input) {
        ToolUseStep::Decided(PermissionResult::Allow(a)) => {
            assert_eq!(a.behavior, "allow");
            assert!(a.updated_input.is_none());
            assert!(a.updated_permissions.is_none());
        },
        _ => panic!("expected allow"),
    }
}

#[test]
fn tool_use_with_predicate_asks_it() {
    let q = Query::<u8, String, u32>::new(true, Some(7), None, None);
    let mut input = HashMap::new();
    input.insert("path".to_string(), Value::String("/tmp".to_string()));
    match q.handle_tool_use("Read".to_string(), input.clone()) {
        ToolUseStep::AskPredicate { tool_name, tool_input, context } => {
            assert_eq!(tool_name, "Read");
            assert_eq!(tool_input, input);
            assert!(context.signal.is_none());
            assert!(context.suggestions.is_empty());
        },
        _ => panic!("expected the predicate to be asked"),
    }
}

fn update(kind: &str, mode: Option<&str>) -> PermissionUpdate {
    PermissionUpdate {
        kind: kind.to_string(),
        rules: None,
        behavior: None,
        mode: mode.map(|m| m.to_string()),
        directories: Some(vec!["/tmp".to_string()]),
        destination: None,
    }
}

#[test]
fn unknown_permission_update_is_rejected_without_change() {
    let mut q = initialized();
    let err = q.handle_permission_update(update("grantEverything", Some("x")), 0).unwrap_err();
    assert_eq!(err, AgentError::ProcessError("Unknown permission update type: grantEverything".to_string()));
    let next = q.begin_control_request_with_nonce(ControlRequest::Interrupt, "n", 0).unwrap();
    assert_eq!(next.request_id, "req_2_n");
}

#[test]
fn permission_updates_dispatch_on_kind() {
    let mut q = initialized();
    match q.handle_permission_update(update("setMode", Some("plan")), 0).unwrap() {
        PermissionUpdateStep::SetMode(env) => match env.request {
            ControlRequest::SetPermissionMode { mode } => assert_eq!(mode, "plan"),
            _ => panic!("expected set_permission_mode"),
        },
        _ => panic!("expected a mode change"),
    }
    assert!(matches!(q.handle_permission_update(update("setMode", None), 0).unwrap(), PermissionUpdateStep::Unchanged));
    assert!(matches!(
        q.handle_permission_update(update("replaceRules", None), 0).unwrap(),
        PermissionUpdateStep::Rules { kind: PermissionUpdateKind::ReplaceRules, .. }
    ));
    match q.handle_permission_update(update("removeDirectories", None), 0).unwrap() {
        PermissionUpdateStep::Directories { kind, directories } => {
            assert_eq!(kind, PermissionUpdateKind::RemoveDirectories);
            assert_eq!(directories, Some(vec!["/tmp".to_string()]));
        },
        _ => panic!("expected a directory change"),
    }
}

#[test]
fn closed_session_refuses_work() {
    let mut q = initialized();
    q.close();
    assert!(q.is_closed());
    assert_eq!(q.interrupt(0).unwrap_err(), AgentError::ProcessError("Query is closed".to_string()));
    assert_eq!(q.execute_query(vec![], None, None).unwrap_err(), AgentError::ProcessError("Query is closed".to_string()));
}

#[test]
fn query_envelopes_carry_stream_flag() {
    let q = TestQuery::new(false, None, None, None);
    let one = q.execute_query(vec![user("hi")], None, Some(Value::String("sys".to_string()))).unwrap();
    assert!(!one.stream);
    assert_eq!(one.messages.len(), 1);
    let many = q.execute_query_streaming(vec![], Some(vec![Value::Null]), None).unwrap();
    assert!(many.stream);
    assert_eq!(many.tools, Some(vec![Value::Null]));
}

#[test]
fn frames_are_classified_by_shape() {
    assert!(matches!(classify_frame(Some(user("x")), Value::Null), InboundFrame::Conversation(_)));
    match error_frame("req_9_z", "nope") {
        InboundFrame::ControlResponse { request_id, reply: ControlReply::Failure(m) } => {
            assert_eq!(request_id, "req_9_z");
            assert_eq!(m, "nope");
        },
        _ => panic!("expected a control response"),
    }
    let no_id = json(r#"{"type":"control_response","response":1}"#);
    assert!(matches!(classify_frame(None, no_id), InboundFrame::Other(_)));
    let other = json(r#"{"type":"something","request_id":"r","response":1}"#);
    assert!(matches!(classify_frame(None, other.clone()), InboundFrame::Other(v) if v == other));
    let direct = classify_fields(
        None,
        Value::Null,
        Some("control_response".to_string()),
        Some("r".to_string()),
        Some(Value::Bool(true)),
        Some("ignored".to_string()),
    );
    assert!(matches!(direct, InboundFrame::ControlResponse { reply: ControlReply::Success(Value::Bool(true)), .. }));
}

#[test]
fn queued_messages_are_drained_in_order() {
    let mut q = TestQuery::new(false, None, None, None);
    q.handle_message(user("a"));
    q.handle_message(user("b"));
    let drained = q.get_messages();
    assert_eq!(drained.len(), 2);
    assert_eq!(drained[1].message_id(), "user_message");
    assert!(q.get_messages().is_empty());
}

#[test]
fn mcp_servers_are_listed_once_added() {
    let mut q = TestQuery::new(false, None, None, None);
    assert!(q.list_mcp_servers().is_none());
    q.add_mcp_server("calc".to_string(), "stdio://calc".to_string());
    q.add_mcp_server("calc".to_string(), "stdio://calc2".to_string());
    let servers = q.list_mcp_servers().unwrap();
    assert_eq!(servers.get(&"calc".to_string()), Some(&"stdio://calc2".to_string()));
    assert_eq!(servers.len(), 1);
}

#[test]
fn given_mcp_servers_are_listed() {
    let mut table = NameTable::new();
    table.insert("a".to_string(), "uri-a".to_string());
    table.insert("b".to_string(), "uri-b".to_string());
    let mut q = TestQuery::new(true, None, None, Some(table));
    q.add_mcp_server("c".to_string(), "uri-c".to_string());
    let servers = q.list_mcp_servers().unwrap();
    assert_eq!(servers.len(), 3);
    assert_eq!(servers.get(&"a".to_string()), Some(&"uri-a".to_string()));
    assert_eq!(servers.get(&"b".to_string()), Some(&"uri-b".to_string()));
    assert_eq!(servers.get(&"c".to_string()), Some(&"uri-c".to_string()));
    let (name, uri) = servers.entry(0);
    assert_eq!((name.as_str(), uri.as_str()), ("a", "uri-a"));
}

#[test]
fn decimal_text_of_counters() {
    assert_eq!(decimal_text(0), "0");
    assert_eq!(decimal_text(7), "7");
    assert_eq!(decimal_text(10), "10");
    assert_eq!(decimal_text(1234567890), "1234567890");
    assert_eq!(decimal_text(u64::MAX), u64::MAX.to_string());
    assert_eq!(hook_id(42), "hook_42");
}

#[test]
fn internal_client_answers_with_nothing() {
    let client = InternalClient::new();
    assert!(client.process_query("hello".to_string()).unwrap().is_empty());
}

#[test]
fn later_response_replaces_earlier_one() {
    let mut q = initialized();
    let a = q.interrupt(0).unwrap();
    let mut seen = Vec::new();
    assert_eq!(q.process_frame(response_frame(&a.request_id, "1"), &mut seen), FrameOutcome::Resolved(a.request_id.clone()));
    assert_eq!(q.process_frame(response_frame(&a.request_id, "2"), &mut seen), FrameOutcome::Resolved(a.request_id.clone()));
    assert_eq!(q.complete_control_request(&a.request_id).unwrap().unwrap(), json("2"));
    assert_eq!(q.process_frame(response_frame(&a.request_id, "3"), &mut seen), FrameOutcome::Dropped);
}

#[test]
fn closed_session_outside_streaming_reports_streaming_mode() {
    let mut q = TestQuery::new(false, None, None, None);
    q.close();
    assert_eq!(q.interrupt(0).unwrap_err(), AgentError::ProcessError("Control requests require streaming mode".to_string()));
}
