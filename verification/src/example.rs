use vstd::prelude::*;
use vstd::string::StringExecFns;

use crate::error::{Error, ErrorKind};
use crate::json::{new_object, number_value, object_value, set_member, text_value, Document};
use crate::media::MediaEvent;
use crate::message::{has_text, text_at, text_member, IncomingMessage, MessageResponse, OutgoingMessage};
use crate::text::{decimal, push_decimal, push_signed_decimal, same_text, signed_decimal};
use crate::wire::{FromWire, ToWire};

verus! {

/// What the example plugin is configured with.
#[derive(Debug)]
pub struct Config {
    /// What a ping is answered with, after the ping's own data.
    pub ping_response: String,
    /// Whether a ping is answered at once, and not by an event that is pushed later.
    pub synchronous: bool,
}

impl Clone for Config {
    fn clone(&self) -> (copy: Self)
        ensures
            copy.ping_response@ == self.ping_response@,
            copy.synchronous == self.synchronous,
    {
        Config { ping_response: self.ping_response.clone(), synchronous: self.synchronous }
    }
}

/// What a client can ask of the example plugin.
#[derive(Debug, PartialEq, Eq)]
pub enum IncomingMessagePayload {
    Ping { data: String },
}

/// What an `IncomingMessagePayload` holds.
pub enum IncomingMessagePayloadView {
    Ping { data: Seq<char> },
}

impl View for IncomingMessagePayload {
    type V = IncomingMessagePayloadView;

    open spec fn view(&self) -> IncomingMessagePayloadView {
        match self {
            IncomingMessagePayload::Ping { data } => IncomingMessagePayloadView::Ping { data: data@ },
        }
    }
}

impl Clone for IncomingMessagePayload {
    fn clone(&self) -> (copy: Self)
        ensures
            copy@ == self@,
    {
        match self {
            IncomingMessagePayload::Ping { data } => IncomingMessagePayload::Ping { data: data.clone() },
        }
    }
}

impl ToWire for IncomingMessagePayload {
    /// An object with the word `ping` under `method` and the data under `data`.
    open spec fn document(model: IncomingMessagePayloadView) -> Document {
        Document::Object(
            Map::<Seq<char>, Document>::empty().insert("method"@, Document::Text("ping"@)).insert(
                "data"@,
                Document::Text(model->data),
            ),
        )
    }

    fn to_wire(&self) -> (value: serde_json::Value) {
        let mut object = new_object();
        match self {
            IncomingMessagePayload::Ping { data } => {
                set_member(&mut object, String::from_str("method"), text_value(String::from_str("ping")));
                set_member(&mut object, String::from_str("data"), text_value(data.clone()));
            },
        }
        object_value(object)
    }
}

impl FromWire for IncomingMessagePayload {
    /// An object that has the word `ping` under `method` and a text under `data` stands for
    /// a ping with that data. Other members are passed over.
    open spec fn reading(document: Document) -> Option<IncomingMessagePayloadView> {
        if has_text(document, "method"@) && text_at(document, "method"@) == "ping"@ && has_text(
            document,
            "data"@,
        ) {
            Some(IncomingMessagePayloadView::Ping { data: text_at(document, "data"@) })
        } else {
            None
        }
    }

    fn from_wire(value: &serde_json::Value) -> (result: Result<Self, Error>) {
        let method = match text_member(value, "method") {
            Some(method) => method,
            None => {
                return Err(Error::with_kind(ErrorKind::DeserializationFailed, "missing field `method`"));
            },
        };
        if !same_text(method, "ping") {
            return Err(
                Error::with_kind(ErrorKind::DeserializationFailed, "unknown variant, expected `ping`"),
            );
        }
        match text_member(value, "data") {
            Some(data) => Ok(IncomingMessagePayload::Ping { data: String::from_str(data) }),
            None => Err(Error::with_kind(ErrorKind::DeserializationFailed, "missing field `data`")),
        }
    }
}

/// Reading the document of a ping gives the ping back.
pub proof fn lemma_ping_round_trip(ping: IncomingMessagePayloadView)
    ensures
        IncomingMessagePayload::reading(IncomingMessagePayload::document(ping)) == Some(ping),
{
    reveal_strlit("method");
    reveal_strlit("data");
    assert("method"@ != "data"@) by {
        assert("method"@.len() == 6);
        assert("data"@.len() == 4);
    }
}

/// What the example plugin answers.
#[derive(Debug, PartialEq, Eq)]
pub enum OutgoingMessagePayload {
    Pong { data: String },
}

/// What an `OutgoingMessagePayload` holds.
pub enum OutgoingMessagePayloadView {
    Pong { data: Seq<char> },
}

impl View for OutgoingMessagePayload {
    type V = OutgoingMessagePayloadView;

    open spec fn view(&self) -> OutgoingMessagePayloadView {
        match self {
            OutgoingMessagePayload::Pong { data } => OutgoingMessagePayloadView::Pong { data: data@ },
        }
    }
}

impl Clone for OutgoingMessagePayload {
    fn clone(&self) -> (copy: Self)
        ensures
            copy@ == self@,
    {
        match self {
            OutgoingMessagePayload::Pong { data } => OutgoingMessagePayload::Pong { data: data.clone() },
        }
    }
}

impl ToWire for OutgoingMessagePayload {
    /// An object with one member, named `Pong`: an object with the data under `data`.
    open spec fn document(model: OutgoingMessagePayloadView) -> Document {
        Document::Object(
            Map::<Seq<char>, Document>::empty().insert(
                "Pong"@,
                Document::Object(
                    Map::<Seq<char>, Document>::empty().insert("data"@, Document::Text(model->data)),
                ),
            ),
        )
    }

    fn to_wire(&self) -> (value: serde_json::Value) {
        let mut fields = new_object();
        match self {
            OutgoingMessagePayload::Pong { data } => {
                set_member(&mut fields, String::from_str("data"), text_value(data.clone()));
            },
        }
        let mut object = new_object();
        set_member(&mut object, String::from_str("Pong"), object_value(fields));
        object_value(object)
    }
}

/// The example plugin's state for one session.
#[derive(Debug)]
pub struct Handle {
    id: u64,
    config: Config,
}

/// What a `Handle` shows of itself when the host asks for a session's state.
pub struct HandleView {
    pub id: u64,
}

impl View for Handle {
    type V = HandleView;

    closed spec fn view(&self) -> HandleView {
        HandleView { id: self.id }
    }
}

impl ToWire for Handle {
    /// An object with the identity, in decimal, under `id`.
    open spec fn document(model: HandleView) -> Document {
        Document::Object(
            Map::<Seq<char>, Document>::empty().insert("id"@, Document::Number(decimal(model.id as nat))),
        )
    }

    fn to_wire(&self) -> (value: serde_json::Value) {
        let mut object = new_object();
        set_member(&mut object, String::from_str("id"), number_value(self.id));
        object_value(object)
    }
}

/// The answer to a ping: the ping's data, a space, and the configured response.
pub open spec fn pong_data(data: Seq<char>, ping_response: Seq<char>) -> Seq<char> {
    data + " "@ + ping_response
}

impl Handle {
    /// The configured response to a ping.
    pub closed spec fn ping_response(&self) -> Seq<char> {
        self.config.ping_response@
    }

    /// Whether pings are answered at once.
    pub closed spec fn answers_at_once(&self) -> bool {
        self.config.synchronous
    }

    /// The handle of the session with identity `id`.
    pub fn new(id: u64, config: Config) -> (handle: Self)
        ensures
            handle@.id == id,
            crate::plugin::Handle::identity(&handle) == id,
            handle.ping_response() == config.ping_response@,
            handle.answers_at_once() == config.synchronous,
    {
        Handle { id, config }
    }

    /// The payload that answers a ping with the given data.
    pub fn pong(&self, data: &str) -> (payload: OutgoingMessagePayload)
        ensures
            payload@ == (OutgoingMessagePayloadView::Pong {
                data: pong_data(data@, self.ping_response()),
            }),
    {
        let mut answer = String::from_str(data);
        answer.append(" ");
        answer.append(self.config.ping_response.as_str());
        OutgoingMessagePayload::Pong { data: answer }
    }

    /// The message that answers a ping later: the ping's transaction id, and the pong.
    pub fn ping(&self, transaction: &str, data: &str) -> (message: OutgoingMessage<
        OutgoingMessagePayload,
    >)
        ensures
            message.transaction_id() == transaction@,
            message.content()@ == (OutgoingMessagePayloadView::Pong {
                data: pong_data(data@, self.ping_response()),
            }),
            message.negotiation() is None,
    {
        OutgoingMessage::new(String::from_str(transaction), self.pong(data))
    }
}

impl crate::plugin::Handle for Handle {
    type IncomingMessagePayload = IncomingMessagePayload;

    type OutgoingMessagePayload = OutgoingMessagePayload;

    closed spec fn identity(&self) -> u64 {
        self.id
    }

    fn id(&self) -> (id: u64) {
        self.id
    }

    /// The example keeps nothing of media events.
    fn handle_media_event(&self, media_event: &MediaEvent) {
    }

    /// A ping is answered with a pong at once where the handle is configured so, and
    /// acknowledged else: the pong is then pushed later.
    fn handle_message(&self, message: IncomingMessage<IncomingMessagePayload>) -> (response: Result<
        MessageResponse<OutgoingMessagePayload>,
        Error,
    >)
        ensures
            response is Ok,
            self.answers_at_once() ==> response->Ok_0 is Syncronous && response->Ok_0->Syncronous_0@
                == (OutgoingMessagePayloadView::Pong {
                data: pong_data(message.content()@->data, self.ping_response()),
            }),
            !self.answers_at_once() ==> response->Ok_0 is Ack,
    {
        if self.config.synchronous {
            match message.payload() {
                IncomingMessagePayload::Ping { data } => Ok(
                    MessageResponse::Syncronous(self.pong(data.as_str())),
                ),
            }
        } else {
            Ok(MessageResponse::Ack)
        }
    }
}

/// The line in which the example plugin reports a media event.
pub open spec fn media_event_line(media_event: MediaEvent) -> Seq<char> {
    match media_event {
        MediaEvent::Setup => "Media setup"@,
        MediaEvent::Media { protocol, kind, buffer } => "Got "@ + decimal(buffer@.len())
            + " bytes of "@ + kind.label() + " by "@ + protocol.label(),
        MediaEvent::Data { buffer } => "Got "@ + decimal(buffer@.len()) + " bytes of data"@,
        MediaEvent::SlowLink { kind, uplink } => "Slow link on "@ + kind.label() + " media: "@
            + signed_decimal(uplink as int),
        MediaEvent::Hangup => "Media hangup"@,
    }
}

/// The line in which the example plugin reports a media event.
pub fn media_event_text(media_event: &MediaEvent) -> (line: String)
    ensures
        line@ == media_event_line(*media_event),
{
    match media_event {
        MediaEvent::Setup => String::from_str("Media setup"),
        MediaEvent::Media { protocol, kind, buffer } => {
            let mut line = String::from_str("Got ");
            push_decimal(&mut line, buffer.len() as u64);
            line.append(" bytes of ");
            line.append(kind.to_text().as_str());
            line.append(" by ");
            line.append(protocol.to_text().as_str());
            line
        },
        MediaEvent::Data { buffer } => {
            let mut line = String::from_str("Got ");
            push_decimal(&mut line, buffer.len() as u64);
            line.append(" bytes of data");
            line
        },
        MediaEvent::SlowLink { kind, uplink } => {
            let mut line = String::from_str("Slow link on ");
            line.append(kind.to_text().as_str());
            line.append(" media: ");
            push_signed_decimal(&mut line, *uplink);
            line
        },
        MediaEvent::Hangup => String::from_str("Media hangup"),
    }
}

impl Clone for Handle {
    fn clone(&self) -> (copy: Self)
        ensures
            copy@ == self@,
            crate::plugin::Handle::identity(&copy) == crate::plugin::Handle::identity(self),
            copy.ping_response() == self.ping_response(),
            copy.answers_at_once() == self.answers_at_once(),
    {
        Handle { id: self.id, config: self.config.clone() }
    }
}

/// The example plugin: it answers pings.
pub struct ExamplePlugin {
    config: Config,
}

impl ExamplePlugin {
    /// What handles answer a ping with, after the ping's own data.
    pub closed spec fn ping_response(&self) -> Seq<char> {
        self.config.ping_response@
    }

    /// Whether handles answer pings at once.
    pub closed spec fn answers_at_once(&self) -> bool {
        self.config.synchronous
    }

    /// A plugin with the given configuration.
    pub fn new(config: Config) -> (plugin: Self)
        ensures
            plugin.ping_response() == config.ping_response@,
            plugin.answers_at_once() == config.synchronous,
    {
        ExamplePlugin { config }
    }
}

impl crate::plugin::Plugin for ExamplePlugin {
    type Handle = Handle;

    const VERSION: i32 = 1;

    const VERSION_STRING: &'static str = "0.0.1";

    const NAME: &'static str = "Example";

    const DESCRIPTION: &'static str = "Example plugin";

    const AUTHOR: &'static str = "Fey Martynov";

    const PACKAGE: &'static str = "janus.plugin.app_example";

    /// The plugin with its built-in configuration: pings are answered later, with `pong`.
    fn init(config_path: &str) -> (plugin: Result<Box<Self>, Error>)
        ensures
            plugin is Ok,
            plugin->Ok_0.ping_response() == "pong"@,
            !plugin->Ok_0.answers_at_once(),
    {
        let config = Config { ping_response: String::from_str("pong"), synchronous: false };
        Ok(Box::new(ExamplePlugin::new(config)))
    }

    /// A handle with the identity and the plugin's configuration.
    fn build_handle(&self, id: u64) -> (handle: Handle)
        ensures
            handle@.id == id,
            crate::plugin::Handle::identity(&handle) == id,
            handle.ping_response() == self.ping_response(),
            handle.answers_at_once() == self.answers_at_once(),
    {
        Handle::new(id, self.config.clone())
    }
}

} // verus!
