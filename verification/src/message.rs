use vstd::prelude::*;
use vstd::string::StringExecFns;

use crate::error::{Error, ErrorKind};
use crate::json::{document_of, member, new_object, object_value, set_member, text_of, text_value, Document};
use crate::text::same_text;
use crate::wire::{FromWire, ToWire};

verus! {

/// A session description that is offered or answered while media is negotiated. The
/// description itself is opaque text.
#[derive(Debug, PartialEq, Eq)]
pub enum Jsep {
    Offer { sdp: String },
    Answer { sdp: String },
}

/// What a `Jsep` holds.
pub enum JsepView {
    Offer { sdp: Seq<char> },
    Answer { sdp: Seq<char> },
}

impl View for Jsep {
    type V = JsepView;

    open spec fn view(&self) -> JsepView {
        match self {
            Jsep::Offer { sdp } => JsepView::Offer { sdp: sdp@ },
            Jsep::Answer { sdp } => JsepView::Answer { sdp: sdp@ },
        }
    }
}

impl Clone for Jsep {
    fn clone(&self) -> (copy: Self)
        ensures
            copy@ == self@,
    {
        match self {
            Jsep::Offer { sdp } => Jsep::Offer { sdp: sdp.clone() },
            Jsep::Answer { sdp } => Jsep::Answer { sdp: sdp.clone() },
        }
    }
}

impl JsepView {
    /// The word that tells the two variants apart on the wire.
    pub open spec fn tag(self) -> Seq<char> {
        match self {
            JsepView::Offer { .. } => "offer"@,
            JsepView::Answer { .. } => "answer"@,
        }
    }

    /// The description text.
    pub open spec fn description(self) -> Seq<char> {
        match self {
            JsepView::Offer { sdp } => sdp,
            JsepView::Answer { sdp } => sdp,
        }
    }
}

/// A message that a client sent to a session: the transaction id that pairs it with its
/// answer, the payload, and a session description where one came along.
#[derive(Debug)]
pub struct IncomingMessage<P> {
    transaction: String,
    payload: P,
    jsep: Option<Jsep>,
}

impl<P> IncomingMessage<P> {
    /// The transaction id.
    pub closed spec fn transaction_id(&self) -> Seq<char> {
        self.transaction@
    }

    /// The payload.
    pub closed spec fn content(&self) -> P {
        self.payload
    }

    /// The session description, where the message carries one.
    pub closed spec fn negotiation(&self) -> Option<Jsep> {
        self.jsep
    }

    pub fn new(transaction: String, payload: P) -> (message: Self)
        ensures
            message.transaction_id() == transaction@,
            message.content() == payload,
            message.negotiation() is None,
    {
        IncomingMessage { transaction, payload, jsep: None }
    }

    pub fn set_jsep(self, jsep: Jsep) -> (message: Self)
        ensures
            message.transaction_id() == self.transaction_id(),
            message.content() == self.content(),
            message.negotiation() == Some(jsep),
    {
        IncomingMessage { transaction: self.transaction, payload: self.payload, jsep: Some(jsep) }
    }

    pub fn transaction(&self) -> (transaction: &str)
        ensures
            transaction@ == self.transaction_id(),
    {
        self.transaction.as_str()
    }

    pub fn payload(&self) -> (payload: &P)
        ensures
            *payload == self.content(),
    {
        &self.payload
    }

    pub fn jsep(&self) -> (jsep: Option<&Jsep>)
        ensures
            match jsep {
                Some(found) => self.negotiation() == Some(*found),
                None => self.negotiation() is None,
            },
    {
        self.jsep.as_ref()
    }
}

/// A message that a session sends to its client.
#[derive(Debug)]
pub struct OutgoingMessage<P> {
    transaction: String,
    payload: P,
    jsep: Option<Jsep>,
}

impl<P> OutgoingMessage<P> {
    /// The transaction id.
    pub closed spec fn transaction_id(&self) -> Seq<char> {
        self.transaction@
    }

    /// The payload.
    pub closed spec fn content(&self) -> P {
        self.payload
    }

    /// The session description, where the message carries one.
    pub closed spec fn negotiation(&self) -> Option<Jsep> {
        self.jsep
    }

    pub fn new(transaction: String, payload: P) -> (message: Self)
        ensures
            message.transaction_id() == transaction@,
            message.content() == payload,
            message.negotiation() is None,
    {
        OutgoingMessage { transaction, payload, jsep: None }
    }

    pub fn set_jsep(self, jsep: Jsep) -> (message: Self)
        ensures
            message.transaction_id() == self.transaction_id(),
            message.content() == self.content(),
            message.negotiation() == Some(jsep),
    {
        OutgoingMessage { transaction: self.transaction, payload: self.payload, jsep: Some(jsep) }
    }

    pub fn transaction(&self) -> (transaction: &str)
        ensures
            transaction@ == self.transaction_id(),
    {
        self.transaction.as_str()
    }

    pub fn payload(&self) -> (payload: &P)
        ensures
            *payload == self.content(),
    {
        &self.payload
    }

    pub fn jsep(&self) -> (jsep: Option<&Jsep>)
        ensures
            match jsep {
                Some(found) => self.negotiation() == Some(*found),
                None => self.negotiation() is None,
            },
    {
        self.jsep.as_ref()
    }
}

/// What a handle answers to an incoming message.
#[derive(Debug)]
pub enum MessageResponse<P> {
    /// The answer is this payload, at once.
    Syncronous(P),
    /// The answer comes later, as an event pushed on the same transaction.
    Ack,
}

/// A document is an object whose member under `key` is a text.
pub open spec fn has_text(document: Document, key: Seq<char>) -> bool {
    document matches Document::Object(members) && members.contains_key(key) && members[key] is Text
}

/// The text under `key` in an object that has one there.
pub open spec fn text_at(document: Document, key: Seq<char>) -> Seq<char> {
    document->Object_0[key]->Text_0
}

/// The text under `key` of an object, where the object has a text there.
pub fn text_member<'a>(value: &'a serde_json::Value, key: &str) -> (text: Option<&'a str>)
    ensures
        match text {
            Some(found) => has_text(document_of(*value), key@) && found@ == text_at(
                document_of(*value),
                key@,
            ),
            None => !has_text(document_of(*value), key@),
        },
{
    match member(value, key) {
        Some(found) => text_of(found),
        None => None,
    }
}

impl ToWire for Jsep {
    /// An object with the variant's word under `type` and the description under `sdp`.
    open spec fn document(model: JsepView) -> Document {
        Document::Object(
            Map::<Seq<char>, Document>::empty().insert("type"@, Document::Text(model.tag())).insert(
                "sdp"@,
                Document::Text(model.description()),
            ),
        )
    }

    fn to_wire(&self) -> (value: serde_json::Value) {
        let mut object = new_object();
        match self {
            Jsep::Offer { sdp } => {
                set_member(&mut object, String::from_str("type"), text_value(String::from_str("offer")));
                set_member(&mut object, String::from_str("sdp"), text_value(sdp.clone()));
            },
            Jsep::Answer { sdp } => {
                set_member(&mut object, String::from_str("type"), text_value(String::from_str("answer")));
                set_member(&mut object, String::from_str("sdp"), text_value(sdp.clone()));
            },
        }
        object_value(object)
    }
}

impl FromWire for Jsep {
    /// An object that has a text under `type`, which is one of the two words, and a text
    /// under `sdp` stands for the variant of that word with that description. Other members
    /// are passed over.
    open spec fn reading(document: Document) -> Option<JsepView> {
        if has_text(document, "type"@) && has_text(document, "sdp"@) {
            if text_at(document, "type"@) == "offer"@ {
                Some(JsepView::Offer { sdp: text_at(document, "sdp"@) })
            } else if text_at(document, "type"@) == "answer"@ {
                Some(JsepView::Answer { sdp: text_at(document, "sdp"@) })
            } else {
                None
            }
        } else {
            None
        }
    }

    fn from_wire(value: &serde_json::Value) -> (result: Result<Self, Error>) {
        let tag = match text_member(value, "type") {
            Some(tag) => tag,
            None => {
                return Err(Error::with_kind(ErrorKind::DeserializationFailed, "missing field `type`"));
            },
        };
        let sdp = match text_member(value, "sdp") {
            Some(sdp) => sdp,
            None => {
                return Err(Error::with_kind(ErrorKind::DeserializationFailed, "missing field `sdp`"));
            },
        };
        if same_text(tag, "offer") {
            Ok(Jsep::Offer { sdp: String::from_str(sdp) })
        } else if same_text(tag, "answer") {
            Ok(Jsep::Answer { sdp: String::from_str(sdp) })
        } else {
            Err(
                Error::with_kind(
                    ErrorKind::DeserializationFailed,
                    "unknown variant, expected `offer` or `answer`",
                ),
            )
        }
    }
}

/// Reading the document of a session description gives the description back.
pub proof fn lemma_jsep_round_trip(jsep: JsepView)
    ensures
        Jsep::reading(Jsep::document(jsep)) == Some(jsep),
{
    reveal_strlit("type");
    reveal_strlit("sdp");
    reveal_strlit("offer");
    reveal_strlit("answer");
    assert("type"@ != "sdp"@) by {
        assert("type"@.len() == 4);
        assert("sdp"@.len() == 3);
    }
    assert("offer"@ != "answer"@) by {
        assert("offer"@.len() == 5);
        assert("answer"@.len() == 6);
    }
}

} // verus!
