use std::collections::VecDeque;
use vstd::prelude::*;
use vstd::slice::slice_to_vec;
use vstd::string::StringExecFns;

use crate::error::{failed, failed_with, Error, ErrorKind};
use crate::handle_registry::RawHandle;
use crate::json::{rendered, Document};
use crate::media::{video_flag, MediaKind, MediaProtocol};
use crate::message::{Jsep, OutgoingMessage};
use crate::plugin::{session_fault, App, CallbackTable, Handle, Plugin};
use crate::text::{contains_nul, decimal, push_decimal};
use crate::wire::{serialize, ToWire};

verus! {

/// Something that a session wants the host to do.
#[derive(Debug, PartialEq, Eq)]
pub enum DispatchCommand {
    /// Send a media buffer to the session's peer.
    RelayMediaPacket { protocol: MediaProtocol, kind: MediaKind, buffer: Vec<i8> },
    /// Send a buffer to the session's peer over the data channel.
    RelayDataPacket { buffer: Vec<i8> },
    /// Close the session's peer connection.
    ClosePeerConnection,
    /// End the session.
    EndSession,
    /// Tell the host's event handlers of an event, given as JSON text.
    NotifyEvent { event: String },
    /// Push a message to the session's client: the transaction id, the payload as JSON text,
    /// and a session description as JSON text where one goes along.
    PushMessage { transaction: String, payload: String, jsep: Option<String> },
}

/// One call of a function of the host's callback table, with what it is given besides the
/// session.
#[derive(Debug, PartialEq, Eq)]
pub enum HostRequest {
    RelayRtp { is_video: i32, buffer: Vec<i8> },
    RelayRtcp { is_video: i32, buffer: Vec<i8> },
    RelayData { buffer: Vec<i8> },
    ClosePc,
    EndSession,
    NotifyEvent { event: String },
    PushEvent { transaction: String, payload: String, jsep: Option<String> },
}

/// A call that is ready to be made: the host's callback table, the host's reference to the
/// session as the registry held it when the call was prepared, and the request.
#[derive(Debug, PartialEq, Eq)]
pub struct NativeCall {
    pub callbacks: CallbackTable,
    pub session: RawHandle,
    pub request: HostRequest,
}

/// The request that carries out a command. A media buffer goes to the function of its
/// protocol, with the flag of its kind; every other command has one function.
pub open spec fn request_for(command: DispatchCommand) -> HostRequest {
    match command {
        DispatchCommand::RelayMediaPacket { protocol, kind, buffer } => match protocol {
            MediaProtocol::Rtp => HostRequest::RelayRtp { is_video: kind.video_flag(), buffer },
            MediaProtocol::Rtcp => HostRequest::RelayRtcp { is_video: kind.video_flag(), buffer },
        },
        DispatchCommand::RelayDataPacket { buffer } => HostRequest::RelayData { buffer },
        DispatchCommand::ClosePeerConnection => HostRequest::ClosePc,
        DispatchCommand::EndSession => HostRequest::EndSession,
        DispatchCommand::NotifyEvent { event } => HostRequest::NotifyEvent { event },
        DispatchCommand::PushMessage { transaction, payload, jsep } => HostRequest::PushEvent {
            transaction,
            payload,
            jsep,
        },
    }
}

/// The request that carries out a command.
pub fn into_request(command: DispatchCommand) -> (request: HostRequest)
    ensures
        request == request_for(command),
{
    match command {
        DispatchCommand::RelayMediaPacket { protocol, kind, buffer } => match protocol {
            MediaProtocol::Rtp => HostRequest::RelayRtp { is_video: video_flag(kind), buffer },
            MediaProtocol::Rtcp => HostRequest::RelayRtcp { is_video: video_flag(kind), buffer },
        },
        DispatchCommand::RelayDataPacket { buffer } => HostRequest::RelayData { buffer },
        DispatchCommand::ClosePeerConnection => HostRequest::ClosePc,
        DispatchCommand::EndSession => HostRequest::EndSession,
        DispatchCommand::NotifyEvent { event } => HostRequest::NotifyEvent { event },
        DispatchCommand::PushMessage { transaction, payload, jsep } => HostRequest::PushEvent {
            transaction,
            payload,
            jsep,
        },
    }
}

/// The text that reports a session without entry.
pub open spec fn not_found_text(id: u64) -> Seq<char> {
    "Handle "@ + decimal(id as nat) + " not found"@
}

/// The host's callback table. Fails with `NotInitialized` on an empty container.
pub fn janus_callbacks<P: Plugin>(app: &Option<App<P>>) -> (result: Result<CallbackTable, Error>)
    ensures
        match *app {
            Some(initialized) => result == Ok::<CallbackTable, Error>(initialized.callback_table()),
            None => failed_with(result, ErrorKind::NotInitialized, "Plugin not initialized"@),
        },
{
    match app {
        None => Err(Error::with_kind(ErrorKind::NotInitialized, "Plugin not initialized")),
        Some(initialized) => Ok(initialized.janus_callbacks()),
    }
}

/// The host's reference to the session with identity `id`, as the registry holds it now.
/// Fails with `NotInitialized` on an empty container and with `HandleNotFound` where the
/// identity has no entry.
pub fn raw_handle<P: Plugin>(app: &Option<App<P>>, id: u64) -> (result: Result<RawHandle, Error>)
    ensures
        match session_fault(*app, id) {
            Some(ErrorKind::NotInitialized) => failed_with(
                result,
                ErrorKind::NotInitialized,
                "Plugin not initialized"@,
            ),
            Some(_) => failed_with(result, ErrorKind::HandleNotFound, not_found_text(id)),
            None => result == Ok::<RawHandle, Error>((*app)->0.handles()[id].raw_handle),
        },
{
    match app {
        None => Err(Error::with_kind(ErrorKind::NotInitialized, "Plugin not initialized")),
        Some(initialized) => match initialized.handle_registry().get_by_id(id) {
            Some(entry) => Ok(entry.raw_handle()),
            None => {
                let mut detail = String::from_str("Handle ");
                push_decimal(&mut detail, id);
                detail.append(" not found");
                Err(Error::with_kind(ErrorKind::HandleNotFound, detail.as_str()))
            },
        },
    }
}

/// The host's callback table and its reference to the session with identity `id`, both as
/// they are now: the two things that every call needs.
pub fn prepare<P: Plugin>(app: &Option<App<P>>, id: u64) -> (result: Result<
    (CallbackTable, RawHandle),
    Error,
>)
    ensures
        match session_fault(*app, id) {
            Some(ErrorKind::NotInitialized) => failed_with(
                result,
                ErrorKind::NotInitialized,
                "Plugin not initialized"@,
            ),
            Some(_) => failed_with(result, ErrorKind::HandleNotFound, not_found_text(id)),
            None => result == Ok::<(CallbackTable, RawHandle), Error>(
                ((*app)->0.callback_table(), (*app)->0.handles()[id].raw_handle),
            ),
        },
{
    let callbacks = match janus_callbacks(app) {
        Ok(callbacks) => callbacks,
        Err(error) => {
            return Err(error);
        },
    };
    let session = match raw_handle(app, id) {
        Ok(session) => session,
        Err(error) => {
            return Err(error);
        },
    };
    Ok((callbacks, session))
}

/// What resolving a command for the session with identity `id` gives: the call that carries
/// it out on the session as it is registered now, or why there is none.
pub open spec fn resolved<P: Plugin>(
    app: Option<App<P>>,
    id: u64,
    command: DispatchCommand,
    result: Result<NativeCall, Error>,
) -> bool {
    match session_fault(app, id) {
        Some(ErrorKind::NotInitialized) => failed_with(
            result,
            ErrorKind::NotInitialized,
            "Plugin not initialized"@,
        ),
        Some(_) => failed_with(result, ErrorKind::HandleNotFound, not_found_text(id)),
        None => result == Ok::<NativeCall, Error>(
            NativeCall {
                callbacks: app->0.callback_table(),
                session: app->0.handles()[id].raw_handle,
                request: request_for(command),
            },
        ),
    }
}

/// Prepares the call that carries out a command for the session with identity `id`. The
/// host's reference to the session is looked up in the registry at this moment, so that a
/// session that was torn down meanwhile is not acted upon: the result is then
/// `HandleNotFound`.
pub fn resolve<P: Plugin>(app: &Option<App<P>>, id: u64, command: DispatchCommand) -> (result: Result<
    NativeCall,
    Error,
>)
    ensures
        resolved(*app, id, command, result),
{
    match prepare(app, id) {
        Ok((callbacks, session)) => Ok(
            NativeCall { callbacks, session, request: into_request(command) },
        ),
        Err(error) => Err(error),
    }
}

/// What the host's answer to a pushed event means: zero is success, every other status a
/// failure that carries it.
pub fn push_event_result(return_code: i32) -> (result: Result<(), Error>)
    ensures
        if return_code == 0 {
            result is Ok
        } else {
            failed_with(result, ErrorKind::NativeCallFailed(return_code), "Failed to push event"@)
        },
{
    match return_code {
        0 => Ok(()),
        _ => Err(Error::with_kind(ErrorKind::NativeCallFailed(return_code), "Failed to push event")),
    }
}

/// A call is made on the session with identity `id` as the container holds it.
pub open spec fn targets<P: Plugin>(call: NativeCall, app: Option<App<P>>, id: u64) -> bool {
    app is Some && call.callbacks == app->0.callback_table() && app->0.handles().contains_key(id)
        && call.session == app->0.handles()[id].raw_handle
}

/// A request relays a media buffer with the given content by the given protocol.
pub open spec fn relays(
    request: HostRequest,
    protocol: MediaProtocol,
    kind: MediaKind,
    buffer: Seq<i8>,
) -> bool {
    match protocol {
        MediaProtocol::Rtp => request is RelayRtp && request->RelayRtp_is_video == kind.video_flag()
            && request->RelayRtp_buffer@ == buffer,
        MediaProtocol::Rtcp => request is RelayRtcp && request->RelayRtcp_is_video
            == kind.video_flag() && request->RelayRtcp_buffer@ == buffer,
    }
}

/// Why a call for a session cannot be prepared, as a failure.
pub open spec fn fault_reported<T>(result: Result<T, Error>, kind: ErrorKind, id: u64) -> bool {
    match kind {
        ErrorKind::NotInitialized => failed_with(
            result,
            ErrorKind::NotInitialized,
            "Plugin not initialized"@,
        ),
        _ => failed_with(result, ErrorKind::HandleNotFound, not_found_text(id)),
    }
}

/// Prepares the call that sends a media buffer to the peer of a handle's session.
pub fn relay_media_packet<P: Plugin>(
    app: &Option<App<P>>,
    handle: &P::Handle,
    protocol: MediaProtocol,
    kind: MediaKind,
    buffer: &[i8],
) -> (result: Result<NativeCall, Error>)
    ensures
        match session_fault(*app, handle.identity()) {
            Some(kind_of_fault) => fault_reported(result, kind_of_fault, handle.identity()),
            None => result is Ok && targets(result->Ok_0, *app, handle.identity()) && relays(
                result->Ok_0.request,
                protocol,
                kind,
                buffer@,
            ),
        },
{
    match prepare(app, handle.id()) {
        Ok((callbacks, session)) => {
            let command = DispatchCommand::RelayMediaPacket {
                protocol,
                kind,
                buffer: slice_to_vec(buffer),
            };
            Ok(NativeCall { callbacks, session, request: into_request(command) })
        },
        Err(error) => Err(error),
    }
}

/// Prepares the call that sends a buffer to the peer of a handle's session over the data
/// channel.
pub fn relay_data_packet<P: Plugin>(app: &Option<App<P>>, handle: &P::Handle, buffer: &[i8]) -> (result:
    Result<NativeCall, Error>)
    ensures
        match session_fault(*app, handle.identity()) {
            Some(kind_of_fault) => fault_reported(result, kind_of_fault, handle.identity()),
            None => result is Ok && targets(result->Ok_0, *app, handle.identity())
                && result->Ok_0.request is RelayData && result->Ok_0.request->RelayData_buffer@
                == buffer@,
        },
{
    match prepare(app, handle.id()) {
        Ok((callbacks, session)) => Ok(
            NativeCall {
                callbacks,
                session,
                request: HostRequest::RelayData { buffer: slice_to_vec(buffer) },
            },
        ),
        Err(error) => Err(error),
    }
}

/// Prepares the call that closes the peer connection of a handle's session.
pub fn close_peer_connection<P: Plugin>(app: &Option<App<P>>, handle: &P::Handle) -> (result: Result<
    NativeCall,
    Error,
>)
    ensures
        resolved(*app, handle.identity(), DispatchCommand::ClosePeerConnection, result),
{
    resolve(app, handle.id(), DispatchCommand::ClosePeerConnection)
}

/// Prepares the call that ends a handle's session.
pub fn end_handle<P: Plugin>(app: &Option<App<P>>, handle: &P::Handle) -> (result: Result<
    NativeCall,
    Error,
>)
    ensures
        resolved(*app, handle.identity(), DispatchCommand::EndSession, result),
{
    resolve(app, handle.id(), DispatchCommand::EndSession)
}

/// A request notifies of an event: it carries the JSON text of the event's document.
pub open spec fn carries_event(request: HostRequest, document: Document) -> bool {
    request is NotifyEvent && request->NotifyEvent_event@ == rendered(document)
        && !request->NotifyEvent_event@.contains('\0')
}

/// Makes the command that notifies of an event: it carries the event written as JSON text.
pub fn encode_event<E: ToWire>(event: &E) -> (result: Result<DispatchCommand, Error>)
    ensures
        result matches Ok(command) && command is NotifyEvent && carries_event(
            request_for(command),
            E::document(event@),
        ),
{
    match serialize(event) {
        Ok(event_json) => Ok(DispatchCommand::NotifyEvent { event: event_json }),
        Err(cause) => Err(
            Error::wrap(ErrorKind::SerializationFailed, "Failed to serialize", cause.as_str()),
        ),
    }
}

/// A request pushes a message: it carries the transaction id as it is, the JSON text of the
/// payload's document, and the JSON text of the session description where one goes along.
/// None of the three holds a NUL.
pub open spec fn carries_message<S: ToWire>(request: HostRequest, message: OutgoingMessage<S>) -> bool {
    &&& request is PushEvent
    &&& request->PushEvent_transaction@ == message.transaction_id()
    &&& !message.transaction_id().contains('\0')
    &&& request->PushEvent_payload@ == rendered(S::document(message.content()@))
    &&& !request->PushEvent_payload@.contains('\0')
    &&& match message.negotiation() {
        Some(jsep) => request->PushEvent_jsep is Some && request->PushEvent_jsep->0@ == rendered(
            Jsep::document(jsep@),
        ) && !request->PushEvent_jsep->0@.contains('\0'),
        None => request->PushEvent_jsep is None,
    }
}

/// Makes the command that pushes a message. A transaction id that holds a NUL cannot be
/// handed to the host: the result is `TransactionEncodingFailed`. Every other message gives
/// its command.
pub fn encode_message<S: ToWire>(message: &OutgoingMessage<S>) -> (result: Result<
    DispatchCommand,
    Error,
>)
    ensures
        if message.transaction_id().contains('\0') {
            failed_with(result, ErrorKind::TransactionEncodingFailed, "Failed to cast transaction"@)
        } else {
            result matches Ok(command) && command is PushMessage && carries_message(
                request_for(command),
                *message,
            )
        },
{
    if contains_nul(message.transaction()) {
        return Err(
            Error::with_kind(ErrorKind::TransactionEncodingFailed, "Failed to cast transaction"),
        );
    }
    let transaction = String::from_str(message.transaction());
    let payload = match serialize(message.payload()) {
        Ok(payload) => payload,
        Err(cause) => {
            return Err(
                Error::wrap(
                    ErrorKind::SerializationFailed,
                    "Failed to serialize payload",
                    cause.as_str(),
                ),
            );
        },
    };
    let jsep = match message.jsep() {
        None => None,
        Some(jsep) => match serialize(jsep) {
            Ok(jsep) => Some(jsep),
            Err(cause) => {
                return Err(
                    Error::wrap(
                        ErrorKind::SerializationFailed,
                        "Failed to serialize JSEP",
                        cause.as_str(),
                    ),
                );
            },
        },
    };
    Ok(DispatchCommand::PushMessage { transaction, payload, jsep })
}

/// Prepares the call that tells the host's event handlers of an event of a handle's session.
pub fn notify_event<P: Plugin, E: ToWire>(app: &Option<App<P>>, handle: &P::Handle, event: &E) -> (result:
    Result<NativeCall, Error>)
    ensures
        match session_fault(*app, handle.identity()) {
            Some(kind_of_fault) => fault_reported(result, kind_of_fault, handle.identity()),
            None => result matches Ok(call) && targets(call, *app, handle.identity())
                && carries_event(call.request, E::document(event@)),
        },
{
    match prepare(app, handle.id()) {
        Ok((callbacks, session)) => match encode_event(event) {
            Ok(command) => Ok(NativeCall { callbacks, session, request: into_request(command) }),
            Err(error) => Err(error),
        },
        Err(error) => Err(error),
    }
}

/// Prepares the call that pushes a message to the client of a handle's session. The session
/// is looked up first; then the transaction id is checked and the message written.
pub fn push_event<P: Plugin>(
    app: &Option<App<P>>,
    handle: &P::Handle,
    message: &OutgoingMessage<<P::Handle as Handle>::OutgoingMessagePayload>,
) -> (result: Result<NativeCall, Error>)
    ensures
        match session_fault(*app, handle.identity()) {
            Some(kind_of_fault) => fault_reported(result, kind_of_fault, handle.identity()),
            None => if message.transaction_id().contains('\0') {
                failed_with(
                    result,
                    ErrorKind::TransactionEncodingFailed,
                    "Failed to cast transaction"@,
                )
            } else {
                result matches Ok(call) && targets(call, *app, handle.identity())
                    && carries_message(call.request, *message)
            },
        },
{
    match prepare(app, handle.id()) {
        Ok((callbacks, session)) => match encode_message(message) {
            Ok(command) => Ok(NativeCall { callbacks, session, request: into_request(command) }),
            Err(error) => Err(error),
        },
        Err(error) => Err(error),
    }
}

/// The queue after the push of a message to the client of the session with identity `id`
/// was put behind what waited: one command more, the last, which carries the message.
pub open spec fn pushed<S: ToWire>(
    before: Seq<(u64, DispatchCommand)>,
    after: Seq<(u64, DispatchCommand)>,
    id: u64,
    message: OutgoingMessage<S>,
) -> bool {
    &&& after.len() == before.len() + 1
    &&& after == before.push(after.last())
    &&& after.last().0 == id
    &&& carries_message(request_for(after.last().1), message)
}

/// The commands that wait to be carried out, each with the identity of its session, in the
/// order in which they were submitted.
pub struct DispatchQueue {
    pending: VecDeque<(u64, DispatchCommand)>,
}

impl View for DispatchQueue {
    type V = Seq<(u64, DispatchCommand)>;

    closed spec fn view(&self) -> Seq<(u64, DispatchCommand)> {
        self.pending@
    }
}

impl DispatchQueue {
    pub fn new() -> (queue: Self)
        ensures
            queue@ == Seq::<(u64, DispatchCommand)>::empty(),
    {
        DispatchQueue { pending: VecDeque::new() }
    }

    pub fn len(&self) -> (len: usize)
        ensures
            len == self@.len(),
    {
        self.pending.len()
    }

    pub fn is_empty(&self) -> (empty: bool)
        ensures
            empty == (self@.len() == 0),
    {
        self.pending.len() == 0
    }

    /// Puts a command for the session with identity `id` behind those that wait.
    pub fn submit(&mut self, id: u64, command: DispatchCommand)
        ensures
            final(self)@ == old(self)@.push((id, command)),
    {
        self.pending.push_back((id, command));
    }

    /// Puts the push of a message to the client of the session with identity `id` behind
    /// the commands that wait. A transaction id that holds a NUL cannot be handed to the
    /// host: the result is `TransactionEncodingFailed`, and the queue stays as it was.
    pub fn push_event<S: ToWire>(&mut self, id: u64, message: &OutgoingMessage<S>) -> (result: Result<
        (),
        Error,
    >)
        ensures
            if message.transaction_id().contains('\0') {
                final(self)@ == old(self)@ && failed_with(
                    result,
                    ErrorKind::TransactionEncodingFailed,
                    "Failed to cast transaction"@,
                )
            } else {
                result is Ok && pushed(old(self)@, final(self)@, id, *message)
            },
    {
        match encode_message(message) {
            Ok(command) => {
                self.submit(id, command);
                Ok(())
            },
            Err(error) => Err(error),
        }
    }

    /// Puts the notification of an event of the session with identity `id` behind the
    /// commands that wait.
    pub fn notify_event<E: ToWire>(&mut self, id: u64, event: &E) -> (result: Result<(), Error>)
        ensures
            result is Ok,
            final(self)@.len() == old(self)@.len() + 1,
            final(self)@ == old(self)@.push(final(self)@.last()),
            final(self)@.last().0 == id,
            carries_event(request_for(final(self)@.last().1), E::document(event@)),
    {
        match encode_event(event) {
            Ok(command) => {
                self.submit(id, command);
                Ok(())
            },
            Err(error) => Err(error),
        }
    }

    /// Takes the command that has waited longest.
    pub fn next(&mut self) -> (item: Option<(u64, DispatchCommand)>)
        ensures
            match item {
                Some(first) => old(self)@.len() > 0 && first == old(self)@[0] && final(self)@ == old(
                    self,
                )@.drop_first(),
                None => old(self)@.len() == 0 && final(self)@ == old(self)@,
            },
    {
        self.pending.pop_front()
    }

    /// Takes the command that has waited longest and prepares its call, with the session
    /// looked up at this moment. Nothing where no command waits.
    pub fn deliver<P: Plugin>(&mut self, app: &Option<App<P>>) -> (outcome: Option<
        Result<NativeCall, Error>,
    >)
        ensures
            match outcome {
                Some(result) => old(self)@.len() > 0 && final(self)@ == old(self)@.drop_first()
                    && resolved(*app, old(self)@[0].0, old(self)@[0].1, result),
                None => old(self)@.len() == 0 && final(self)@ == old(self)@,
            },
    {
        match self.next() {
            Some((id, command)) => Some(resolve(app, id, command)),
            None => None,
        }
    }
}

/// The queue after the items were submitted to it one after the other.
pub open spec fn submit_all(queue: Seq<(u64, DispatchCommand)>, items: Seq<(u64, DispatchCommand)>) -> Seq<
    (u64, DispatchCommand),
>
    decreases items.len(),
{
    if items.len() == 0 {
        queue
    } else {
        submit_all(queue.push(items[0]), items.drop_first())
    }
}

/// The queue after `count` items were taken from it.
pub open spec fn after_taking(queue: Seq<(u64, DispatchCommand)>, count: nat) -> Seq<
    (u64, DispatchCommand),
>
    decreases count,
{
    if count == 0 {
        queue
    } else {
        after_taking(queue.drop_first(), (count - 1) as nat)
    }
}

/// Submitting items one after the other puts them behind what waits, in their order.
pub proof fn lemma_submit_all_appends(
    queue: Seq<(u64, DispatchCommand)>,
    items: Seq<(u64, DispatchCommand)>,
)
    ensures
        submit_all(queue, items) == queue + items,
    decreases items.len(),
{
    if items.len() > 0 {
        lemma_submit_all_appends(queue.push(items[0]), items.drop_first());
    }
}

/// Taking `count` items from a queue that holds as many leaves what came after them.
pub proof fn lemma_after_taking_skips(queue: Seq<(u64, DispatchCommand)>, count: nat)
    requires
        count <= queue.len(),
    ensures
        after_taking(queue, count) == queue.skip(count as int),
    decreases count,
{
    if count > 0 {
        lemma_after_taking_skips(queue.drop_first(), (count - 1) as nat);
    }
}

/// Commands leave the queue in the order in which they were submitted: after the items were
/// submitted one after the other to a queue, and what waited before them and the first
/// `position` of them were taken, the next to be taken is the item at `position`.
pub proof fn lemma_delivery_keeps_order(
    waiting: Seq<(u64, DispatchCommand)>,
    items: Seq<(u64, DispatchCommand)>,
    position: nat,
)
    requires
        position < items.len(),
    ensures
        after_taking(submit_all(waiting, items), waiting.len() + position).len() > 0,
        after_taking(submit_all(waiting, items), waiting.len() + position)[0] == items[
            position as int
        ],
{
    lemma_submit_all_appends(waiting, items);
    lemma_after_taking_skips(waiting + items, waiting.len() + position);
}

/// After the first `count` of a run of pushes, the queue holds what waited before the run
/// and, behind it, the commands of those pushes in their order.
proof fn lemma_queue_after_pushes<S: ToWire>(
    states: Seq<Seq<(u64, DispatchCommand)>>,
    id: u64,
    messages: Seq<OutgoingMessage<S>>,
    count: int,
    position: int,
)
    requires
        states.len() == messages.len() + 1,
        forall|i: int|
            0 <= i < messages.len() ==> pushed(#[trigger] states[i], states[i + 1], id, messages[i]),
        0 <= position < count <= messages.len(),
    ensures
        states[count].len() == states[0].len() + count,
        states[count][states[0].len() + position] == states[position + 1].last(),
    decreases count,
{
    assert(pushed(states[count - 1], states[count], id, messages[count - 1]));
    if count > 1 {
        if position < count - 1 {
            lemma_queue_after_pushes(states, id, messages, count - 1, position);
        } else {
            lemma_queue_after_pushes(states, id, messages, count - 1, 0);
        }
    }
}

/// Messages that are pushed one after the other for one session are delivered in that order:
/// where each state of the queue comes from the one before by the push of the next message,
/// then, once what waited before the run and the first `position` commands of the run were
/// taken, the next command to be taken is for that session and carries the message at
/// `position`.
pub proof fn lemma_pushes_are_delivered_in_order<S: ToWire>(
    states: Seq<Seq<(u64, DispatchCommand)>>,
    id: u64,
    messages: Seq<OutgoingMessage<S>>,
    position: int,
)
    requires
        states.len() == messages.len() + 1,
        forall|i: int|
            0 <= i < messages.len() ==> pushed(#[trigger] states[i], states[i + 1], id, messages[i]),
        0 <= position < messages.len(),
    ensures
        ({
            let left = after_taking(states.last(), (states[0].len() + position) as nat);
            &&& left.len() == messages.len() - position
            &&& left[0].0 == id
            &&& carries_message(request_for(left[0].1), messages[position])
        }),
{
    let count = messages.len() as int;
    lemma_queue_after_pushes(states, id, messages, count, position);
    lemma_after_taking_skips(states.last(), (states[0].len() + position) as nat);
    assert(pushed(states[position], states[position + 1], id, messages[position]));
}

/// A command for a session that is not registered is not carried out: preparing its call
/// fails with `HandleNotFound`, whatever the command.
pub proof fn lemma_unregistered_not_found<P: Plugin>(
    app: Option<App<P>>,
    id: u64,
    command: DispatchCommand,
    result: Result<NativeCall, Error>,
)
    requires
        app is Some,
        !app->0.handles().contains_key(id),
        resolved(app, id, command, result),
    ensures
        failed(result, ErrorKind::HandleNotFound),
{
}

} // verus!
