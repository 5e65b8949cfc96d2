//! JSON values, as far as the commands build them.
//!
//! The values themselves are `serde_json`'s. This module says what such a
//! value holds, in terms that contracts can speak of, and offers the few
//! constructors that the commands need. What is stated of a constructor here
//! is taken on trust from `serde_json`; everything built on top is proved.

use vstd::prelude::*;

verus! {

/// `serde_json::Value`, carried as it is: nothing of its inside is visible
/// here but through `json_of`.
#[verifier::external_type_specification]
#[verifier::external_body]
pub struct ExValue(serde_json::Value);

/// `serde_json::Map`, carried as it is: nothing of its inside is visible here
/// but through `members_of`.
#[verifier::external_type_specification]
#[verifier::external_body]
#[verifier::reject_recursive_types(K)]
#[verifier::reject_recursive_types(V)]
pub struct ExObject<K, V>(serde_json::Map<K, V>);

/// The content of a JSON value made of booleans, texts and objects.
pub enum Json {
    /// `true` or `false`.
    Flag(bool),
    /// A string, as its characters.
    Text(Seq<char>),
    /// An object: its members by key.
    Object(Map<Seq<char>, Json>),
}

/// What a value holds: `Flag(b)` for the boolean `b`, `Text(s)` for the string
/// `s`, `Object(m)` for an object with the members `m`. Of a value of any
/// other kind nothing is said.
pub uninterp spec fn json_of(value: serde_json::Value) -> Json;

/// The members that an object holds, each under its key.
pub uninterp spec fn members_of(members: serde_json::Map<String, serde_json::Value>) -> Map<
    Seq<char>,
    Json,
>;

/// `serde_json::Value::from` on a `bool`: the value is that boolean.
#[verifier::external_body]
pub(crate) fn flag(b: bool) -> (value: serde_json::Value)
    ensures
        json_of(value) == Json::Flag(b),
{
    serde_json::Value::from(b)
}

/// `serde_json::Value::from` on a `String`: the value is a string of the same
/// characters.
#[verifier::external_body]
pub(crate) fn text(s: String) -> (value: serde_json::Value)
    ensures
        json_of(value) == Json::Text(s@),
{
    serde_json::Value::from(s)
}

/// `serde_json::Map::new`: an object without members.
#[verifier::external_body]
pub(crate) fn no_members() -> (members: serde_json::Map<String, serde_json::Value>)
    ensures
        (members_of(members) == Map::<Seq<char>, Json>::empty()),
{
    serde_json::Map::new()
}

/// `serde_json::Map::insert`: afterwards `key` stands for `value`, in place of
/// whatever it stood for before, and every other member is as it was.
#[verifier::external_body]
pub(crate) fn put(
    members: &mut serde_json::Map<String, serde_json::Value>,
    key: &str,
    value: serde_json::Value,
)
    ensures
        members_of(*final(members)) == members_of(*old(members)).insert(key@, json_of(value)),
{
    members.insert(key.to_owned(), value);
}

/// `serde_json::Value::from` on a `serde_json::Map`: the value is an object
/// with the members of the map.
#[verifier::external_body]
pub(crate) fn object(members: serde_json::Map<String, serde_json::Value>) -> (value:
    serde_json::Value)
    ensures
        json_of(value) == Json::Object(members_of(members)),
{
    serde_json::Value::from(members)
}

} // verus!
