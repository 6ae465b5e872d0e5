//! JSON values as they travel through the engine. The engine never looks inside a
//! payload it merely carries; the few fields it reads are fetched through the
//! accessors here.
use vstd::prelude::*;

verus! {

#[verifier::external_type_specification]
#[verifier::external_body]
pub struct ExValue(serde_json::Value);

#[verifier::external_type_specification]
#[verifier::external_body]
pub struct ExNumber(serde_json::Number);

/// Relies on the derived `Clone` of `serde_json::Value`, which copies the whole
/// tree: the copy is the same JSON value.
pub assume_specification[ <serde_json::Value as Clone>::clone ](v: &serde_json::Value) -> (r: serde_json::Value)
    ensures
        r == *v,
;

/// The text of the member `key` of `v`, when `v` is an object whose member `key`
/// is a JSON string.
pub uninterp spec fn str_member_of(v: serde_json::Value, key: Seq<char>) -> Option<Seq<char>>;

/// The member `key` of `v`, when `v` is an object that has one.
pub uninterp spec fn member_of(v: serde_json::Value, key: Seq<char>) -> Option<serde_json::Value>;

pub open spec fn opt_text(o: Option<String>) -> Option<Seq<char>> {
    match o {
        Some(s) => Some(s@),
        None => None,
    }
}

/// Relies on `serde_json::Value::get` with a string key: the text of the member
/// `key` of an object, when that member is a JSON string.
#[verifier::external_body]
pub(crate) fn str_member(v: &serde_json::Value, key: &str) -> (r: Option<String>)
    ensures
        opt_text(r) == str_member_of(*v, key@),
{
    match v.get(key) {
        Some(serde_json::Value::String(s)) => Some(s.clone()),
        _ => None,
    }
}

/// Relies on `serde_json::Value::get` with a string key: the member `key` of an
/// object, whatever its kind.
#[verifier::external_body]
pub(crate) fn member(v: &serde_json::Value, key: &str) -> (r: Option<serde_json::Value>)
    ensures
        r == member_of(*v, key@),
{
    v.get(key).cloned()
}

} // verus!
