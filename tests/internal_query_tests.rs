use claude_agent_sdk::hooks::{HookContext, HookMatcher};
use claude_agent_sdk::permissions::{
    PermissionResultAllow, PermissionResultDeny, PermissionRuleValue, PermissionUpdate, ToolPermissionContext,
};
use claude_agent_sdk::{AgentError, Query};

#[test]
fn test_tool_permission_context_creation() {
    let context = ToolPermissionContext { signal: Some("test_signal".to_string()), suggestions: vec![] };
    assert_eq!(context.signal, Some("test_signal".to_string()));
}

#[test]
fn test_permission_result_allow_creation() {
    let allow_result =
        PermissionResultAllow { behavior: "allow".to_string(), updated_input: None, updated_permissions: None };
    assert_eq!(allow_result.behavior, "allow");
}

#[test]
fn test_permission_result_deny_creation() {
    let deny_result = PermissionResultDeny {
        behavior: "deny".to_string(),
        message: "test message".to_string(),
        interrupt: false,
    };
    assert_eq!(deny_result.behavior, "deny");
    assert_eq!(deny_result.message, "test message");
    assert_eq!(deny_result.interrupt, false);
}

#[test]
fn test_permission_rule_value_creation() {
    let rule = PermissionRuleValue { tool_name: "test_tool".to_string(), rule_content: Some("test_content".to_string()) };
    assert_eq!(rule.tool_name, "test_tool");
    assert_eq!(rule.rule_content, Some("test_content".to_string()));
}

#[test]
fn test_permission_update_creation() {
    let update = PermissionUpdate {
        kind: "addRules".to_string(),
        rules: None,
        behavior: None,
        mode: None,
        directories: None,
        destination: None,
    };
    assert_eq!(update.kind, "addRules");
}

#[test]
fn test_hook_context_creation() {
    let context = HookContext { signal: Some("test_signal".to_string()) };
    assert_eq!(context.signal, Some("test_signal".to_string()));
}

#[test]
fn test_hook_matcher_creation() {
    let matcher = HookMatcher {
        matcher: Some("test_matcher".to_string()),
        hooks: vec!["hook1".to_string(), "hook2".to_string()],
    };
    assert_eq!(matcher.matcher, Some("test_matcher".to_string()));
    assert_eq!(matcher.hooks.len(), 2);
}

#[test]
fn test_query_creation() {
    let query = Query::<(), String, u32>::new(true, None, None, None);
    assert!(!query.is_closed());
}

#[test]
fn test_query_initialize_non_streaming() {
    let mut query = Query::<(), String, u32>::new(false, None, None, None);
    let result = query.initialize(0);
    assert!(result.is_ok());
    assert!(result.unwrap().is_none());
}

#[test]
fn test_query_interrupt() {
    let mut query = Query::<(), String, u32>::new(true, None, None, None);
    let err = query.interrupt(0).unwrap_err();
    assert_eq!(err, AgentError::ProcessError("Query is not initialized".to_string()));
}

#[test]
fn test_query_set_permission_mode() {
    let mut query = Query::<(), String, u32>::new(false, None, None, None);
    let err = query.set_permission_mode("plan", 0).unwrap_err();
    assert_eq!(err, AgentError::ProcessError("Control requests require streaming mode".to_string()));
}

#[test]
fn test_query_set_model() {
    let mut query = Query::<(), String, u32>::new(true, None, None, None);
    query.close();
    let err = query.set_model(Some("m"), 0).unwrap_err();
    assert_eq!(err, AgentError::ProcessError("Query is closed".to_string()));
}
