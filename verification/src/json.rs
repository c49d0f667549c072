use vstd::prelude::*;

verus! {

/// The mathematical content of a JSON document.
pub enum Document {
    Null,
    Bool(bool),
    /// A number, by the decimal text that stands for it.
    Number(Seq<char>),
    Text(Seq<char>),
    Array(Seq<Document>),
    Object(Map<Seq<char>, Document>),
}

/// `serde_json::Value`, a JSON value in memory. Nothing of its inside is known here: what it
/// holds is named by `document_of`.
#[verifier::external_type_specification]
#[verifier::external_body]
pub struct ExValue(serde_json::Value);

/// `serde_json::Map`, the members of a JSON object in memory. What it holds is named by
/// `members_of`.
#[verifier::external_type_specification]
#[verifier::external_body]
#[verifier::reject_recursive_types(K)]
#[verifier::reject_recursive_types(V)]
pub struct ExJsonMap<K, V>(serde_json::Map<K, V>);

/// The document that a `serde_json::Value` holds.
pub uninterp spec fn document_of(value: serde_json::Value) -> Document;

/// The members that a `serde_json::Map` holds, by their keys.
pub uninterp spec fn members_of(object: serde_json::Map<String, serde_json::Value>) -> Map<
    Seq<char>,
    Document,
>;

/// What `serde_json::from_str` makes of a text: the document it reads, or nothing where it
/// rejects the text.
pub uninterp spec fn parsed(text: Seq<char>) -> Option<Document>;

/// The text that `serde_json::to_string` writes for a document.
pub uninterp spec fn rendered(document: Document) -> Seq<char>;

/// Calls `serde_json::from_str` for a `Value`. A value that comes back holds the named
/// reading of the text; where the text is rejected, the reading is nothing and the error's
/// own text comes back.
#[verifier::external_body]
pub(crate) fn parse(text: &str) -> (result: Result<serde_json::Value, String>)
    ensures
        match result {
            Ok(value) => parsed(text@) == Some(document_of(value)),
            Err(_) => parsed(text@) is None,
        },
{
    match serde_json::from_str::<serde_json::Value>(text) {
        Ok(value) => Ok(value),
        Err(error) => Err(error.to_string()),
    }
}

/// Calls `serde_json::to_string` on a `Value`. A text always comes back: writing a `Value`
/// emits only null, booleans, numbers, strings, sequences and maps with string keys, and the
/// text is gathered in memory, so neither of the two ways in which the call can fail is
/// open. The text is the named rendering of the document that the value holds. It holds no
/// NUL: every character of a string below U+0020 is written as an escape, and what stands
/// between the strings is punctuation, digits and letters. The result stays a `Result`, as
/// the call gives it, with an error as its own text.
#[verifier::external_body]
pub(crate) fn render(value: &serde_json::Value) -> (result: Result<String, String>)
    ensures
        result is Ok,
        result matches Ok(text) ==> text@ == rendered(document_of(*value)),
        result matches Ok(text) ==> !text@.contains('\0'),
{
    match serde_json::to_string(value) {
        Ok(text) => Ok(text),
        Err(error) => Err(error.to_string()),
    }
}

/// Calls `Value::get` with a string key: the member of an object under that key, and
/// nothing for a missing key or a value that is no object.
#[verifier::external_body]
pub(crate) fn member<'a>(value: &'a serde_json::Value, key: &str) -> (result: Option<
    &'a serde_json::Value,
>)
    ensures
        match result {
            Some(found) => document_of(*value) matches Document::Object(members)
                && members.contains_key(key@) && document_of(*found) == members[key@],
            None => !(document_of(*value) matches Document::Object(members)
                && members.contains_key(key@)),
        },
{
    value.get(key)
}

/// Calls `Value::as_str`: the text of a string value, nothing for any other value.
#[verifier::external_body]
pub(crate) fn text_of<'a>(value: &'a serde_json::Value) -> (result: Option<&'a str>)
    ensures
        match result {
            Some(text) => document_of(*value) == Document::Text(text@),
            None => !(document_of(*value) is Text),
        },
{
    value.as_str()
}

/// Builds `Value::String`: the value that holds the text.
#[verifier::external_body]
pub(crate) fn text_value(text: String) -> (value: serde_json::Value)
    ensures
        document_of(value) == Document::Text(text@),
{
    serde_json::Value::String(text)
}

/// Builds a `Value::Number` from an unsigned integer, by `Value::from`: the number whose
/// decimal text is that of the integer.
#[verifier::external_body]
pub(crate) fn number_value(number: u64) -> (value: serde_json::Value)
    ensures
        document_of(value) == Document::Number(crate::text::decimal(number as nat)),
{
    serde_json::Value::from(number)
}

/// Calls `Map::new`: an object without members.
#[verifier::external_body]
pub(crate) fn new_object() -> (object: serde_json::Map<String, serde_json::Value>)
    ensures
        members_of(object) =~= Map::empty(),
{
    serde_json::Map::new()
}

/// Calls `Map::insert`: the member under `key` becomes `value`, the others stay. What stood
/// under `key` before comes back.
#[verifier::external_body]
pub(crate) fn set_member(
    object: &mut serde_json::Map<String, serde_json::Value>,
    key: String,
    value: serde_json::Value,
) -> (previous: Option<serde_json::Value>)
    ensures
        members_of(*final(object)) == members_of(*old(object)).insert(key@, document_of(value)),
        match previous {
            Some(member) => members_of(*old(object)).contains_key(key@)
                && document_of(member) == members_of(*old(object))[key@],
            None => !members_of(*old(object)).contains_key(key@),
        },
{
    object.insert(key, value)
}

/// Builds `Value::Object`: the value that holds the members.
#[verifier::external_body]
pub(crate) fn object_value(object: serde_json::Map<String, serde_json::Value>) -> (value:
    serde_json::Value)
    ensures
        document_of(value) == Document::Object(members_of(object)),
{
    serde_json::Value::Object(object)
}

} // verus!
