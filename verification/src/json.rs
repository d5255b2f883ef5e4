//! JSON documents, read and written by `serde_json`.
//!
//! A parsed document is a `serde_json::Value`, which the verifier cannot look
//! into. Its contents are named by [`document`], a mathematical [`Json`] tree,
//! and every call into `serde_json` is stated over that tree. None of these
//! statements is proved here: each is taken from the source of `serde_json`.

use vstd::prelude::*;

verus! {

/// A JSON document as a mathematical value. An object is a map from member
/// names to members: it holds each name once and has no order of its own.
pub enum Json {
    Null,
    Bool(bool),
    /// A number, by the text that stands for it.
    Number(Seq<char>),
    String(Seq<char>),
    Array(Seq<Json>),
    Object(Map<Seq<char>, Json>),
}

/// `serde_json::Value`: a parsed JSON document. Nothing is known of it but
/// what the calls below say.
#[verifier::external_type_specification]
#[verifier::external_body]
pub struct ExValue(serde_json::Value);

/// `serde_json::Error`: why a text was not read or a document not written.
/// Nothing is read from it.
#[verifier::external_type_specification]
#[verifier::external_body]
pub struct ExError(serde_json::Error);

/// The document that a `serde_json::Value` holds.
pub uninterp spec fn document(value: serde_json::Value) -> Json;

/// What `serde_json::from_slice` reads from `text`: the document, or `None`
/// where it reports an error.
pub uninterp spec fn parsed(text: Seq<u8>) -> Option<Json>;

/// What `serde_json::to_vec` writes for `doc`, or `None` where it reports an
/// error.
pub uninterp spec fn written(doc: Json) -> Option<Seq<u8>>;

/// `doc` is an object with a member called `name`.
pub open spec fn has_member(doc: Json, name: Seq<char>) -> bool {
    doc matches Json::Object(members) && members.contains_key(name)
}

/// The member of the object `doc` called `name`.
pub open spec fn member_of(doc: Json, name: Seq<char>) -> Json
    recommends
        has_member(doc, name),
{
    doc->Object_0[name]
}

/// The object `doc` with its member `name` set to `member`, added if it was
/// not there.
pub open spec fn with_member(doc: Json, name: Seq<char>, member: Json) -> Json
    recommends
        doc is Object,
{
    Json::Object(doc->Object_0.insert(name, member))
}

/// `serde_json::from_slice::<Value>`: parses `text` as one JSON document.
#[verifier::external_body]
pub(crate) fn parse(text: &[u8]) -> (r: Result<serde_json::Value, serde_json::Error>)
    ensures
        match r {
            Ok(value) => parsed(text@) == Some(document(value)),
            Err(_) => parsed(text@) is None,
        },
{
    serde_json::from_slice::<serde_json::Value>(text)
}

/// `serde_json::to_vec`: writes the document of `value` as JSON text.
#[verifier::external_body]
pub(crate) fn serialize(value: &serde_json::Value) -> (r: Result<Vec<u8>, serde_json::Error>)
    ensures
        match r {
            Ok(text) => written(document(*value)) == Some(text@),
            Err(_) => written(document(*value)) is None,
        },
{
    serde_json::to_vec(value)
}

/// `Value::get` with a string index: the member called `name` where `value`
/// is an object that has one, `None` for any other object and for a value
/// that is no object.
#[verifier::external_body]
pub(crate) fn member<'a>(value: &'a serde_json::Value, name: &str) -> (r: Option<
    &'a serde_json::Value,
>)
    ensures
        match r {
            Some(found) => has_member(document(*value), name@) && document(*found) == member_of(
                document(*value),
                name@,
            ),
            None => !has_member(document(*value), name@),
        },
{
    value.get(name)
}

/// `Value::as_bool`: the boolean that `value` is, `None` where it is none.
pub assume_specification[ serde_json::Value::as_bool ](value: &serde_json::Value) -> (r: Option<
    bool,
>)
    ensures
        r == (match document(*value) {
            Json::Bool(b) => Some(b),
            _ => None,
        }),
;

/// `Value::as_str`: the string that `value` is, `None` where it is none.
pub assume_specification<'a>[ serde_json::Value::as_str ](value: &'a serde_json::Value) -> (r:
    Option<&'a str>)
    ensures
        match document(*value) {
            Json::String(s) => r matches Some(t) && t@ == s,
            _ => r is None,
        },
;

/// `Clone` for `Value`: a copy holds the same document.
pub assume_specification[ <serde_json::Value as Clone>::clone ](value: &serde_json::Value) -> (r:
    serde_json::Value)
    ensures
        document(r) == document(*value),
;

/// The variant `Value::String`: a document that is the string `s`.
#[verifier::external_body]
pub(crate) fn string_value(s: String) -> (r: serde_json::Value)
    ensures
        document(r) == Json::String(s@),
{
    serde_json::Value::String(s)
}

/// Assignment through `IndexMut` for `Value` with a string index: sets the
/// member `name` of an object, adding it if it was not there. (It panics on a
/// value that is neither an object nor null.)
#[verifier::external_body]
pub(crate) fn set_member(value: &mut serde_json::Value, name: &str, member: serde_json::Value)
    requires
        document(*old(value)) is Object,
    ensures
        document(*final(value)) == with_member(document(*old(value)), name@, document(member)),
{
    value[name] = member;
}

} // verus!
