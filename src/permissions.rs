//! The permission gate's data: what a permission predicate is told, what it
//! decides, and the permission-state updates a decision may carry.
use std::collections::HashMap;
use vstd::prelude::*;

verus! {

#[derive(Debug, Clone)]
pub struct PermissionRuleValue {
    pub tool_name: String,
    pub rule_content: Option<String>,
}

/// One change to the permission state. `kind` names the change: `addRules`,
/// `replaceRules`, `removeRules`, `setMode`, `addDirectories` or
/// `removeDirectories`.
#[derive(Debug, Clone)]
pub struct PermissionUpdate {
    pub kind: String,
    pub rules: Option<Vec<PermissionRuleValue>>,
    pub behavior: Option<String>,
    pub mode: Option<String>,
    pub directories: Option<Vec<String>>,
    pub destination: Option<String>,
}

/// What a permission predicate is told besides the tool and its input.
#[derive(Debug, Clone)]
pub struct ToolPermissionContext {
    pub signal: Option<String>,
    pub suggestions: Vec<PermissionUpdate>,
}

/// The tool may run, with its input rewritten when `updated_input` is given.
#[derive(Debug, Clone)]
pub struct PermissionResultAllow {
    pub behavior: String,
    pub updated_input: Option<HashMap<String, serde_json::Value>>,
    pub updated_permissions: Option<Vec<PermissionUpdate>>,
}

/// The tool may not run; `interrupt` asks that the rest of the turn stop too.
#[derive(Debug, Clone)]
pub struct PermissionResultDeny {
    pub behavior: String,
    pub message: String,
    pub interrupt: bool,
}

#[derive(Debug, Clone)]
pub enum PermissionResult {
    Allow(PermissionResultAllow),
    Deny(PermissionResultDeny),
}

#[derive(Debug, Clone, Copy, PartialEq, Eq)]
pub enum PermissionUpdateKind {
    AddRules,
    ReplaceRules,
    RemoveRules,
    SetMode,
    AddDirectories,
    RemoveDirectories,
}

/// The kind that a permission update's name stands for, if any.
pub open spec fn update_kind_of(name: Seq<char>) -> Option<PermissionUpdateKind> {
    if name == "addRules"@ {
        Some(PermissionUpdateKind::AddRules)
    } else if name == "replaceRules"@ {
        Some(PermissionUpdateKind::ReplaceRules)
    } else if name == "removeRules"@ {
        Some(PermissionUpdateKind::RemoveRules)
    } else if name == "setMode"@ {
        Some(PermissionUpdateKind::SetMode)
    } else if name == "addDirectories"@ {
        Some(PermissionUpdateKind::AddDirectories)
    } else if name == "removeDirectories"@ {
        Some(PermissionUpdateKind::RemoveDirectories)
    } else {
        None
    }
}

fn names(s: &String, lit: &str) -> (r: bool)
    ensures
        r == (s@ == lit@),
{
    *s == lit.to_string()
}

pub fn permission_update_kind(name: &String) -> (r: Option<PermissionUpdateKind>)
    ensures
        r == update_kind_of(name@),
{
    proof {
        reveal_strlit("addRules");
        reveal_strlit("replaceRules");
        reveal_strlit("removeRules");
        reveal_strlit("setMode");
        reveal_strlit("addDirectories");
        reveal_strlit("removeDirectories");
    }
    if names(name, "addRules") {
        Some(PermissionUpdateKind::AddRules)
    } else if names(name, "replaceRules") {
        Some(PermissionUpdateKind::ReplaceRules)
    } else if names(name, "removeRules") {
        Some(PermissionUpdateKind::RemoveRules)
    } else if names(name, "setMode") {
        Some(PermissionUpdateKind::SetMode)
    } else if names(name, "addDirectories") {
        Some(PermissionUpdateKind::AddDirectories)
    } else if names(name, "removeDirectories") {
        Some(PermissionUpdateKind::RemoveDirectories)
    } else {
        None
    }
}

} // verus!
