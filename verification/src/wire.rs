use vstd::prelude::*;
use vstd::utf8::{decode_utf8, valid_utf8};

use crate::error::{quotes, Error, ErrorKind};
use crate::json::{document_of, parse, parsed, render, rendered, Document};
use crate::text::contains_nul;

verus! {

broadcast use vstd::string::group_string_axioms;

/// A type whose values can be written as wire documents.
pub trait ToWire: View {
    /// The document that stands for a value.
    spec fn document(model: Self::V) -> Document;

    /// The value in the form of a document.
    fn to_wire(&self) -> (value: serde_json::Value)
        ensures
            document_of(value) == Self::document(self@),
    ;
}

/// A type whose values can be read from wire documents.
pub trait FromWire: View + Sized {
    /// The value that a document stands for, where it stands for one.
    spec fn reading(document: Document) -> Option<Self::V>;

    /// The value that a document stands for; `DeserializationFailed` where it stands for
    /// none.
    fn from_wire(value: &serde_json::Value) -> (result: Result<Self, Error>)
        ensures
            match result {
                Ok(object) => Self::reading(document_of(*value)) == Some(object@),
                Err(error) => Self::reading(document_of(*value)) is None
                    && error.kind_of() == ErrorKind::DeserializationFailed,
            },
    ;
}

/// `core::str::Utf8Error`, the standard library's report of bytes that are no UTF-8.
#[verifier::external_type_specification]
#[verifier::external_body]
pub struct ExUtf8Error(core::str::Utf8Error);

/// Calls `core::str::from_utf8`: the text that the bytes encode, or an error where they are
/// not valid UTF-8.
#[verifier::external_body]
pub(crate) fn text_from_bytes(bytes: &[u8]) -> (text: Result<&str, core::str::Utf8Error>)
    ensures
        match text {
            Ok(decoded) => valid_utf8(bytes@) && decoded@ == decode_utf8(bytes@),
            Err(_) => !valid_utf8(bytes@),
        },
{
    core::str::from_utf8(bytes)
}

/// What reading a dump gives: the bytes have to be valid UTF-8, the text a JSON document,
/// and the document one that stands for a value.
pub open spec fn wire_reading<D: FromWire>(dump: Seq<u8>) -> Option<D::V> {
    if valid_utf8(dump) {
        match parsed(decode_utf8(dump)) {
            Some(document) => D::reading(document),
            None => None,
        }
    } else {
        None
    }
}

/// The words with which the failure to read a dump begins: bytes that are no text could not
/// be cast, and a text that is no document of a value could not be deserialized.
pub open spec fn unread_context(dump: Seq<u8>) -> Seq<char> {
    if valid_utf8(dump) {
        "Failed to deserialize JSON"@
    } else {
        "Failed to cast dumped JSON"@
    }
}

/// Reads a value from the JSON text that the host dumped. The failure quotes its cause.
pub fn deserialize<D: FromWire>(dump: &[u8]) -> (object: Result<D, Error>)
    ensures
        match object {
            Ok(value) => wire_reading::<D>(dump@) == Some(value@),
            Err(error) => wire_reading::<D>(dump@) is None && error.kind_of()
                == ErrorKind::DeserializationFailed && quotes(error.text(), unread_context(dump@)),
        },
{
    let text = match text_from_bytes(dump) {
        Ok(text) => text,
        Err(cause) => {
            return Err(
                Error::wrap(
                    ErrorKind::DeserializationFailed,
                    "Failed to cast dumped JSON",
                    cause.to_string().as_str(),
                ),
            );
        },
    };
    let value = match parse(text) {
        Ok(value) => value,
        Err(cause) => {
            return Err(
                Error::wrap(ErrorKind::DeserializationFailed, "Failed to deserialize JSON", cause.as_str()),
            );
        },
    };
    match D::from_wire(&value) {
        Ok(object) => Ok(object),
        Err(cause) => Err(
            Error::wrap(ErrorKind::DeserializationFailed, "Failed to deserialize JSON", cause.as_str()),
        ),
    }
}

/// What becomes of a rendering: a text without NUL is the dump; a text with NUL cannot be
/// handed to the host, and a failed rendering is passed on, both as `SerializationFailed`.
pub fn checked_dump(rendering: Result<String, String>) -> (dump: Result<String, Error>)
    ensures
        match rendering {
            Ok(text) => if text@.contains('\0') {
                dump matches Err(error) && error.kind_of() == ErrorKind::SerializationFailed
                    && error.text() == "Failed to cast dumped JSON"@
            } else {
                dump == Ok::<String, Error>(text)
            },
            Err(cause) => dump matches Err(error) && error.kind_of() == ErrorKind::SerializationFailed
                && error.text() == "Failed to dump JSON"@ + ": "@ + cause@,
        },
{
    match rendering {
        Ok(text) => {
            if contains_nul(text.as_str()) {
                Err(Error::with_kind(ErrorKind::SerializationFailed, "Failed to cast dumped JSON"))
            } else {
                Ok(text)
            }
        },
        Err(cause) => Err(
            Error::wrap(ErrorKind::SerializationFailed, "Failed to dump JSON", cause.as_str()),
        ),
    }
}

/// Writes a value as JSON text for the host: the rendering of the value's document, which
/// holds no NUL. Writing a document never fails, so the text is always there.
pub fn serialize<S: ToWire>(object: &S) -> (dump: Result<String, Error>)
    ensures
        dump matches Ok(text) && text@ == rendered(S::document(object@)) && !text@.contains('\0'),
{
    let value = object.to_wire();
    checked_dump(render(&value))
}

} // verus!
