//! The little of JSON that the library reads: the members of an object
//! that hold text.

use vstd::prelude::*;
use crate::models::text_of;

verus! {

/// `serde_json::Value`, of which nothing is known but what `members` names.
#[verifier::external_type_specification]
#[verifier::external_body]
pub struct ExJsonValue(serde_json::Value);

/// `serde_json::Error`, of which nothing is known.
#[verifier::external_type_specification]
#[verifier::external_body]
pub struct ExJsonError(serde_json::Error);

/// The members of the JSON object that `body` is, by name, but for those
/// whose value is `null`: the text of a member that is a string, nothing
/// for a member of another kind. No members where `body` is JSON but no
/// object; nothing at all where `body` is no JSON.
pub uninterp spec fn json_members(body: Seq<char>) -> Option<Map<Seq<char>, Option<Seq<char>>>>;

/// The members of a parsed JSON value, by name, but for those whose value
/// is `null`: the text of a member that is a string, nothing for a member
/// of another kind. A value that is no object has no members.
pub uninterp spec fn members(value: serde_json::Value) -> Map<Seq<char>, Option<Seq<char>>>;

/// Calls `serde_json::from_str`. Assumed: whether it succeeds, and what
/// members the value then has, depends on the text alone.
#[verifier::external_body]
pub(crate) fn parse_json(body: &str) -> (r: Result<serde_json::Value, serde_json::Error>)
    ensures
        match r {
            Ok(value) => json_members(body@) == Some(members(value)),
            Err(_) => json_members(body@) is None,
        },
{
    serde_json::from_str(body)
}

/// Indexes a `serde_json::Value` by a name and tells the kinds of value
/// apart. Assumed: a member that is a string gives its text, a member of
/// another kind gives no text, and a member that is `null` or is not there
/// gives nothing, as does a value that is no object.
#[verifier::external_body]
pub(crate) fn member(value: &serde_json::Value, name: &str) -> (r: Option<Option<String>>)
    ensures
        match r {
            Some(held) => members(*value).contains_key(name@) && members(*value)[name@] == text_of(
                held,
            ),
            None => !members(*value).contains_key(name@),
        },
{
    match &value[name] {
        serde_json::Value::Null => None,
        serde_json::Value::String(text) => Some(Some(text.clone())),
        _ => Some(None),
    }
}

/// What `members` hold under `name`: the text of a string, no text for a
/// value of another kind, nothing for no value.
pub open spec fn held(members: Map<Seq<char>, Option<Seq<char>>>, name: Seq<char>) -> Option<
    Option<Seq<char>>,
> {
    if members.contains_key(name) {
        Some(members[name])
    } else {
        None
    }
}

/// The text that `members` hold under `name`, if they hold text there.
pub open spec fn text_at(members: Map<Seq<char>, Option<Seq<char>>>, name: Seq<char>) -> Option<
    Seq<char>,
> {
    match held(members, name) {
        Some(Some(text)) => Some(text),
        _ => None,
    }
}

/// The text of a member, if it holds text.
pub fn text_in(held: Option<Option<String>>) -> (text: Option<String>)
    ensures
        text == (match held {
            Some(Some(t)) => Some(t),
            _ => None,
        }),
{
    match held {
        Some(Some(t)) => Some(t),
        _ => None,
    }
}

} // verus!
