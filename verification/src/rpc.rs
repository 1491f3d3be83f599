//! What bitcoind answers to remote procedure calls.
use serde_json::Value;
use vstd::prelude::*;

verus! {

/// `serde_json::Value`: a JSON value.
#[verifier::external_type_specification]
#[verifier::external_body]
pub struct ExValue(Value);

/// The members of a JSON object by their names, each as the boolean that it is, or `None` where
/// it is not a boolean. A value that is not an object has no members.
pub uninterp spec fn json_members(value: Value) -> Map<Seq<char>, Option<bool>>;

/// Looks a member up with `serde_json::Value::get`: `None` where the value is not an object or
/// has no member of that name. The member is handed out as `serde_json::Value::as_bool` gives
/// it: the boolean that it is, or `None` for any other JSON value.
#[verifier::external_body]
fn json_member(value: &Value, name: &str) -> (member: Option<Option<bool>>)
    ensures
        member == (if json_members(*value).contains_key(name@) {
            Some(json_members(*value)[name@])
        } else {
            None
        }),
{
    match value.get(name) {
        Some(member) => Some(member.as_bool()),
        None => None,
    }
}

/// Whether the answer to `getblockchaininfo` says that bitcoind is in initial block download.
pub open spec fn downloading(info: Value) -> bool {
    let name = "initialblockdownload"@;
    json_members(info).contains_key(name) && json_members(info)[name] == Some(true)
}

/// Whether the answer to `getblockchaininfo` says that bitcoind is in initial block download.
pub fn in_initial_block_download(info: &Value) -> (yes: bool)
    ensures
        yes == downloading(*info),
{
    is_set(json_member(info, "initialblockdownload"))
}

/// Whether a member of an answer is there and is `true`; anything else counts as `false`.
pub fn is_set(member: Option<Option<bool>>) -> (yes: bool)
    ensures
        yes == (member == Some(Some(true))),
{
    match member {
        Some(Some(value)) => value,
        _ => false,
    }
}

} // verus!
