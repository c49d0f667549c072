use vstd::prelude::*;
use vstd::string::StringExecFns;
use vstd::utf8::{decode_utf8, valid_utf8};

use crate::error::{failed, failed_with, quotes, Error, ErrorKind};
use crate::handle_registry::{lists_each_once, Entry, HandleRegistry, RawHandle};
use crate::json::rendered;
use crate::media::{media_kind, MediaEvent, MediaKind, MediaProtocol};
use crate::message::{IncomingMessage, Jsep, MessageResponse};
use crate::text::contains_nul;
use crate::wire::{
    deserialize, serialize, text_from_bytes, unread_context, wire_reading, FromWire, ToWire,
};

verus! {

/// The plugin's state for one session, and what the plugin does with what the session
/// receives.
pub trait Handle: Clone + Sized + ToWire {
    type IncomingMessagePayload: FromWire;

    type OutgoingMessagePayload: ToWire;

    /// The identity of the session that the handle belongs to.
    spec fn identity(&self) -> u64;

    /// The identity of the session that the handle belongs to. The calls that a handle asks
    /// of the host are made on the session that is registered under this identity.
    fn id(&self) -> (id: u64)
        ensures
            id == self.identity(),
    ;

    /// Takes note of something that happened to the session's media.
    fn handle_media_event(&self, media_event: &MediaEvent);

    /// Handles a message of the session's client. The answer is a payload that goes back at
    /// once, or an acknowledgement, after which the answer is pushed as an event on the
    /// message's transaction.
    fn handle_message(&self, message: IncomingMessage<Self::IncomingMessagePayload>) -> Result<
        MessageResponse<Self::OutgoingMessagePayload>,
        Error,
    >;
}

/// A plugin: what it tells the host about itself, how an instance comes to be, and how it
/// makes the handle of a new session.
pub trait Plugin: Sized {
    type Handle: Handle;

    /// Numeric version, raised with each release.
    const VERSION: i32;

    /// Version as text.
    const VERSION_STRING: &'static str;

    /// The plugin's name.
    const NAME: &'static str;

    /// What the plugin is for.
    const DESCRIPTION: &'static str;

    /// Who wrote the plugin.
    const AUTHOR: &'static str;

    /// The name under which clients attach to the plugin.
    const PACKAGE: &'static str;

    /// Makes the plugin's instance. `config_path` names the directory that holds the
    /// configuration files.
    fn init(config_path: &str) -> Result<Box<Self>, Error>;

    /// Makes the handle for the session with identity `id`.
    fn build_handle(&self, id: u64) -> Self::Handle;
}

/// The host's table of callbacks, by the place where it lives. The bridge only hands it on.
#[derive(Clone, Copy, Debug, PartialEq, Eq, Structural)]
pub struct CallbackTable {
    pub table: usize,
}

/// What exists between the host's call to initialize and its call to destroy: the plugin's
/// instance, the host's callbacks and the registry of sessions.
pub struct App<P: Plugin> {
    plugin: P,
    janus_callbacks: CallbackTable,
    handle_registry: HandleRegistry<P::Handle>,
}

impl<P: Plugin> App<P> {
    /// The registered sessions, each under its identity.
    pub closed spec fn handles(&self) -> Map<u64, Entry<P::Handle>> {
        self.handle_registry@
    }

    /// The host's table of callbacks.
    pub closed spec fn callback_table(&self) -> CallbackTable {
        self.janus_callbacks
    }

    /// The plugin's instance.
    pub closed spec fn instance(&self) -> P {
        self.plugin
    }

    pub(crate) fn new(plugin: P, janus_callbacks: CallbackTable) -> (app: Self)
        ensures
            app.instance() == plugin,
            app.callback_table() == janus_callbacks,
            app.handles() == Map::<u64, Entry<P::Handle>>::empty(),
    {
        App { plugin, janus_callbacks, handle_registry: HandleRegistry::new() }
    }

    /// The plugin's instance.
    pub fn plugin(&self) -> (plugin: &P)
        ensures
            *plugin == self.instance(),
    {
        &self.plugin
    }

    pub(crate) fn handle_registry(&self) -> (registry: &HandleRegistry<P::Handle>)
        ensures
            registry@ == self.handles(),
    {
        &self.handle_registry
    }

    pub(crate) fn handle_registry_mut(&mut self) -> (registry: &mut HandleRegistry<P::Handle>)
        ensures
            registry@ == old(self).handles(),
            final(self).handles() == final(registry)@,
            final(self).instance() == old(self).instance(),
            final(self).callback_table() == old(self).callback_table(),
    {
        &mut self.handle_registry
    }

    pub(crate) fn janus_callbacks(&self) -> (callbacks: CallbackTable)
        ensures
            callbacks == self.callback_table(),
    {
        self.janus_callbacks
    }

    /// A handle for the session with identity `id`, as the plugin's instance makes it: the
    /// result is one that the plugin's `build_handle` gives for this instance and identity.
    pub(crate) fn build_handle(&self, id: u64) -> (handle: P::Handle)
        ensures
            call_ensures(P::build_handle, (&self.instance(), id), handle),
    {
        self.plugin.build_handle(id)
    }

    /// Registers a session with the handle that was made for it. Fails with
    /// `AlreadyRegistered`, and changes nothing, where the session's identity has an entry.
    pub fn register(&mut self, raw_handle: RawHandle, plugin_handle: P::Handle) -> (result: Result<
        (),
        Error,
    >)
        ensures
            final(self).instance() == old(self).instance(),
            final(self).callback_table() == old(self).callback_table(),
            if old(self).handles().contains_key(raw_handle.handle_id) {
                final(self).handles() == old(self).handles() && failed_with(
                    result,
                    ErrorKind::AlreadyRegistered,
                    "Handle already registered"@,
                )
            } else {
                result is Ok && final(self).handles() == old(self).handles().insert(
                    raw_handle.handle_id,
                    Entry { raw_handle, plugin_handle },
                )
            },
    {
        match self.handle_registry_mut().add(raw_handle, plugin_handle) {
            Ok(_) => Ok(()),
            Err(error) => Err(error),
        }
    }

    /// The handle of the session with identity `id`, where that session is registered.
    pub fn handle(&self, id: u64) -> (found: Option<&P::Handle>)
        ensures
            match found {
                Some(handle) => self.handles().contains_key(id) && *handle
                    == self.handles()[id].plugin_handle,
                None => !self.handles().contains_key(id),
            },
    {
        match self.handle_registry.get_by_id(id) {
            Some(entry) => Some(entry.plugin_handle()),
            None => None,
        }
    }

    /// The handle of the session with identity `id`, to be changed in place.
    pub fn handle_mut(&mut self, id: u64) -> (found: Option<&mut P::Handle>)
        ensures
            final(self).instance() == old(self).instance(),
            final(self).callback_table() == old(self).callback_table(),
            match found {
                Some(handle) => old(self).handles().contains_key(id) && *handle == old(
                    self,
                ).handles()[id].plugin_handle && final(self).handles() == old(self).handles().insert(
                    id,
                    Entry {
                        raw_handle: old(self).handles()[id].raw_handle,
                        plugin_handle: *final(handle),
                    },
                ),
                None => !old(self).handles().contains_key(id) && final(self).handles() == old(
                    self,
                ).handles(),
            },
    {
        match self.handle_registry.get_by_id_mut(id) {
            Some(entry) => Some(entry.plugin_handle_mut()),
            None => None,
        }
    }
}

/// Revision of the host's plugin interface that the bridge speaks.
pub fn get_api_compatibility() -> (revision: i32)
    ensures
        revision == 13,
{
    13
}

pub fn get_version<P: Plugin>() -> (version: i32)
    ensures
        version == P::VERSION,
{
    P::VERSION
}

pub fn get_version_string<P: Plugin>() -> (text: &'static str)
    ensures
        text == P::VERSION_STRING,
{
    P::VERSION_STRING
}

pub fn get_description<P: Plugin>() -> (text: &'static str)
    ensures
        text == P::DESCRIPTION,
{
    P::DESCRIPTION
}

pub fn get_name<P: Plugin>() -> (text: &'static str)
    ensures
        text == P::NAME,
{
    P::NAME
}

pub fn get_author<P: Plugin>() -> (text: &'static str)
    ensures
        text == P::AUTHOR,
{
    P::AUTHOR
}

pub fn get_package<P: Plugin>() -> (text: &'static str)
    ensures
        text == P::PACKAGE,
{
    P::PACKAGE
}

/// The status that the host is given for an outcome: zero for success, one for a failure.
pub fn status_code<T>(outcome: &Result<T, Error>) -> (status: i32)
    ensures
        status == (if outcome is Ok { 0i32 } else { 1i32 }),
{
    match outcome {
        Ok(_) => 0,
        Err(_) => 1,
    }
}

/// A container that was just initialized: it holds the callbacks and no session.
pub open spec fn fresh<P: Plugin>(app: Option<App<P>>, callbacks: CallbackTable) -> bool {
    app is Some && app->0.callback_table() == callbacks && app->0.handles() == Map::<
        u64,
        Entry<P::Handle>,
    >::empty()
}

/// What becomes of an empty container and of the call when the plugin's initialization gave
/// `outcome`: an instance is put in place, with the callbacks and without sessions; a failure
/// leaves the container empty and is reported as `InitFailed`, with its text quoted.
pub open spec fn installed<P: Plugin>(
    after: Option<App<P>>,
    callbacks: CallbackTable,
    outcome: Result<Box<P>, Error>,
    result: Result<(), Error>,
) -> bool {
    match outcome {
        Ok(plugin) => result is Ok && fresh(after, callbacks) && after->0.instance() == *plugin,
        Err(cause) => after is None && failed_with(
            result,
            ErrorKind::InitFailed,
            "Failed to init plugin"@ + ": "@ + cause.text(),
        ),
    }
}

/// Puts what the plugin's initialization gave in place. An instance becomes the content of
/// an empty container, together with the callbacks and an empty registry; a failure leaves
/// the container empty. A container that holds an instance is left as it is.
pub fn install<P: Plugin>(
    app: &mut Option<App<P>>,
    callbacks: CallbackTable,
    outcome: Result<Box<P>, Error>,
) -> (result: Result<(), Error>)
    ensures
        (*old(app)) is Some ==> *final(app) == *old(app) && failed_with(
            result,
            ErrorKind::AlreadyInitialized,
            "Plugin already initialized"@,
        ),
        (*old(app)) is None ==> installed(*final(app), callbacks, outcome, result),
{
    if app.is_some() {
        return Err(Error::with_kind(ErrorKind::AlreadyInitialized, "Plugin already initialized"));
    }
    match outcome {
        Ok(plugin) => {
            *app = Some(App::new(*plugin, callbacks));
            Ok(())
        },
        Err(cause) => Err(Error::wrap(ErrorKind::InitFailed, "Failed to init plugin", cause.as_str())),
    }
}

/// An outcome is one that the plugin's own `init` gives when it is called with the
/// configuration directory of the given name.
pub open spec fn init_gives<P: Plugin>(config_path: Seq<char>, outcome: Result<Box<P>, Error>) -> bool {
    exists|text: &str| text@ == config_path && #[trigger] call_ensures(P::init, (text,), outcome)
}

/// What initializing does to the container, and what it returns.
///
/// A container that holds an instance stays as it is, and the result is
/// `AlreadyInitialized`. For an empty container the bytes of `config_path` have to be text:
/// where they are not, the container stays empty and the result is `InitFailed`, quoting
/// the cause. Where they are, the plugin's `init` is called with that text, and what it
/// gives is put in place as `installed` says.
pub open spec fn initialized<P: Plugin>(
    before: Option<App<P>>,
    after: Option<App<P>>,
    callbacks: CallbackTable,
    config_path: Seq<u8>,
    result: Result<(), Error>,
) -> bool {
    if before is Some {
        after == before && failed_with(
            result,
            ErrorKind::AlreadyInitialized,
            "Plugin already initialized"@,
        )
    } else if valid_utf8(config_path) {
        exists|outcome: Result<Box<P>, Error>| #[trigger]
            init_gives::<P>(decode_utf8(config_path), outcome) && installed(
                after,
                callbacks,
                outcome,
                result,
            )
    } else {
        after is None && failed(result, ErrorKind::InitFailed) && quotes(
            result->Err_0.text(),
            "Failed to cast config path"@,
        )
    }
}

/// Initializes the container. Fails with `AlreadyInitialized`, and changes nothing, where the
/// container holds an instance. Else the plugin is asked for its instance, with the
/// configuration directory that the bytes of `config_path` name; where the bytes are no text
/// or the plugin fails, the result is `InitFailed` and the container stays empty.
pub fn init_impl<P: Plugin>(
    app: &mut Option<App<P>>,
    callbacks: CallbackTable,
    config_path: &[u8],
) -> (result: Result<(), Error>)
    ensures
        initialized(*old(app), *final(app), callbacks, config_path@, result),
        (*old(app)) is None ==> match result {
            Ok(_) => valid_utf8(config_path@) && fresh(*final(app), callbacks),
            Err(error) => (*final(app)) is None && error.kind_of() == ErrorKind::InitFailed,
        },
{
    if app.is_some() {
        return Err(Error::with_kind(ErrorKind::AlreadyInitialized, "Plugin already initialized"));
    }
    let config_path = match text_from_bytes(config_path) {
        Ok(text) => text,
        Err(cause) => {
            return Err(
                Error::wrap(
                    ErrorKind::InitFailed,
                    "Failed to cast config path",
                    cause.to_string().as_str(),
                ),
            );
        },
    };
    let outcome = P::init(config_path);
    let ghost made = outcome;
    let result = install(app, callbacks, outcome);
    proof {
        assert(init_gives::<P>(config_path@, made));
    }
    result
}

/// Initializes the container and gives the host's status for it: zero where the container
/// now holds a new instance, one where it was left as it was. The status is that of what
/// `init_impl` returns: zero for success, one for a failure.
pub fn init<P: Plugin>(app: &mut Option<App<P>>, callbacks: CallbackTable, config_path: &[u8]) -> (status:
    i32)
    ensures
        exists|result: Result<(), Error>| #[trigger]
            initialized(*old(app), *final(app), callbacks, config_path@, result) && status == (
            if result is Ok {
                0i32
            } else {
                1i32
            }),
        (*old(app)) is Some ==> *final(app) == *old(app) && status == 1,
        (*old(app)) is None ==> if status == 0 {
            valid_utf8(config_path@) && fresh(*final(app), callbacks)
        } else {
            status == 1 && (*final(app)) is None
        },
{
    let outcome = init_impl(app, callbacks, config_path);
    status_code(&outcome)
}

/// Empties the container. The host's reference of every session that was still registered
/// is handed back, each once, to be released. Fails with `NotInitialized` on an empty
/// container.
pub fn destroy<P: Plugin>(app: &mut Option<App<P>>) -> (result: Result<Vec<RawHandle>, Error>)
    ensures
        (*final(app)) is None,
        match result {
            Ok(released) => (*old(app)) is Some && lists_each_once((*old(app))->0.handles(), released@)
                && released@.len() == (*old(app))->0.handles().len(),
            Err(error) => (*old(app)) is None && error.kind_of() == ErrorKind::NotInitialized
                && error.text() == "Plugin not initialized"@,
        },
{
    match app.take() {
        Some(destroyed) => {
            let mut destroyed = destroyed;
            Ok(destroyed.handle_registry_mut().clear())
        },
        None => Err(Error::with_kind(ErrorKind::NotInitialized, "Plugin not initialized")),
    }
}

/// Why nothing can be done for a session: the container is empty, or the session's identity
/// has no entry. Nothing where the session is registered.
pub open spec fn session_fault<P: Plugin>(app: Option<App<P>>, id: u64) -> Option<ErrorKind> {
    match app {
        None => Some(ErrorKind::NotInitialized),
        Some(initialized) => if initialized.handles().contains_key(id) {
            None
        } else {
            Some(ErrorKind::HandleNotFound)
        },
    }
}

/// The container is the same but for its registry.
pub open spec fn same_plugin<P: Plugin>(before: Option<App<P>>, after: Option<App<P>>) -> bool {
    match before {
        None => after is None,
        Some(app) => after is Some && after->0.instance() == app.instance()
            && after->0.callback_table() == app.callback_table(),
    }
}

/// A handle is one that a plugin's own `build_handle` gives for an identity.
pub open spec fn built_by<P: Plugin>(plugin: P, id: u64, handle: P::Handle) -> bool {
    call_ensures(P::build_handle, (&plugin, id), handle)
}

/// The container after the session behind `raw_handle` was registered: the plugin and the
/// callbacks are the same, and so is every other entry; the session's entry holds the
/// reference and a handle that the plugin built for the session's identity.
pub open spec fn session_registered<P: Plugin>(
    before: Option<App<P>>,
    after: Option<App<P>>,
    raw_handle: RawHandle,
) -> bool {
    &&& before is Some
    &&& same_plugin(before, after)
    &&& after->0.handles().contains_key(raw_handle.handle_id)
    &&& after->0.handles()[raw_handle.handle_id].raw_handle == raw_handle
    &&& built_by(
        before->0.instance(),
        raw_handle.handle_id,
        after->0.handles()[raw_handle.handle_id].plugin_handle,
    )
    &&& after->0.handles() == before->0.handles().insert(
        raw_handle.handle_id,
        after->0.handles()[raw_handle.handle_id],
    )
}

/// Registers the session behind `raw_handle`, with a handle that the plugin makes for its
/// identity. Fails with `NotInitialized` on an empty container and with `AlreadyRegistered`
/// where the identity has an entry; both leave the container as it was, and the plugin is
/// then not asked for a handle.
pub fn create_session_impl<P: Plugin>(app: &mut Option<App<P>>, raw_handle: RawHandle) -> (result:
    Result<(), Error>)
    ensures
        match session_fault(*old(app), raw_handle.handle_id) {
            Some(ErrorKind::NotInitialized) => (*final(app)) is None && failed_with(
                result,
                ErrorKind::NotInitialized,
                "Plugin not initialized"@,
            ),
            Some(_) => result is Ok && session_registered(*old(app), *final(app), raw_handle),
            None => same_plugin(*old(app), *final(app)) && (*final(app))->0.handles() == (*old(
                app,
            ))->0.handles() && failed_with(
                result,
                ErrorKind::AlreadyRegistered,
                "Handle already registered"@,
            ),
        },
{
    match app {
        None => Err(Error::with_kind(ErrorKind::NotInitialized, "Plugin not initialized")),
        Some(initialized) => {
            if initialized.handle_registry().get_by_raw_handle(&raw_handle).is_some() {
                return Err(
                    Error::with_kind(ErrorKind::AlreadyRegistered, "Handle already registered"),
                );
            }
            let handle_id = HandleRegistry::<P::Handle>::fetch_id(&raw_handle);
            let plugin_handle = initialized.build_handle(handle_id);
            initialized.register(raw_handle, plugin_handle)
        },
    }
}

/// Registers a session and gives the host's status for it: zero where the session is now
/// registered, one where the container was left as it was.
pub fn create_session<P: Plugin>(app: &mut Option<App<P>>, raw_handle: RawHandle) -> (status: i32)
    ensures
        match session_fault(*old(app), raw_handle.handle_id) {
            Some(ErrorKind::NotInitialized) => (*final(app)) is None && status == 1,
            Some(_) => status == 0 && session_registered(*old(app), *final(app), raw_handle),
            None => same_plugin(*old(app), *final(app)) && (*final(app))->0.handles() == (*old(
                app,
            ))->0.handles() && status == 1,
        },
{
    let outcome = create_session_impl(app, raw_handle);
    status_code(&outcome)
}

/// Removes the entry of the session behind `raw_handle` and hands back the host's reference
/// that the entry held, to be released. A session without an entry is no failure: nothing is
/// removed and nothing handed back. Fails with `NotInitialized` on an empty container.
pub fn destroy_session_impl<P: Plugin>(app: &mut Option<App<P>>, raw_handle: &RawHandle) -> (result:
    Result<Option<RawHandle>, Error>)
    ensures
        same_plugin(*old(app), *final(app)),
        match *old(app) {
            None => failed_with(result, ErrorKind::NotInitialized, "Plugin not initialized"@),
            Some(before) => {
                &&& (*final(app))->0.handles() == before.handles().remove(raw_handle.handle_id)
                &&& result == Ok::<Option<RawHandle>, Error>(
                    if before.handles().contains_key(raw_handle.handle_id) {
                        Some(before.handles()[raw_handle.handle_id].raw_handle)
                    } else {
                        None
                    },
                )
            },
        },
{
    match app {
        None => Err(Error::with_kind(ErrorKind::NotInitialized, "Plugin not initialized")),
        Some(initialized) => Ok(initialized.handle_registry_mut().remove(raw_handle)),
    }
}

/// Removes a session's entry and gives the host's status for it, with the reference to
/// release: zero wherever the container is initialized, one where it is not.
pub fn destroy_session<P: Plugin>(app: &mut Option<App<P>>, raw_handle: &RawHandle) -> (outcome: (
    i32,
    Option<RawHandle>,
))
    ensures
        same_plugin(*old(app), *final(app)),
        match *old(app) {
            None => outcome == (1i32, None::<RawHandle>),
            Some(before) => {
                &&& (*final(app))->0.handles() == before.handles().remove(raw_handle.handle_id)
                &&& outcome.0 == 0
                &&& outcome.1 == if before.handles().contains_key(raw_handle.handle_id) {
                    Some(before.handles()[raw_handle.handle_id].raw_handle)
                } else {
                    None
                }
            },
        },
{
    match destroy_session_impl(app, raw_handle) {
        Ok(released) => (0, released),
        Err(_) => (1, None),
    }
}

/// The handle of the session behind `raw_handle`. Fails with `NotInitialized` on an empty
/// container and with `HandleNotFound` where the session has no entry.
pub fn session_handle<'a, P: Plugin>(app: &'a Option<App<P>>, raw_handle: &RawHandle) -> (result:
    Result<&'a P::Handle, Error>)
    ensures
        match session_fault(*app, raw_handle.handle_id) {
            Some(ErrorKind::NotInitialized) => failed_with(
                result,
                ErrorKind::NotInitialized,
                "Plugin not initialized"@,
            ),
            Some(_) => failed_with(result, ErrorKind::HandleNotFound, "Handle not found"@),
            None => result is Ok && *result->Ok_0 == (
            *app)->0.handles()[raw_handle.handle_id].plugin_handle,
        },
{
    match app {
        None => Err(Error::with_kind(ErrorKind::NotInitialized, "Plugin not initialized")),
        Some(initialized) => match initialized.handle_registry().get_by_raw_handle(raw_handle) {
            None => Err(Error::with_kind(ErrorKind::HandleNotFound, "Handle not found")),
            Some(entry) => Ok(entry.plugin_handle()),
        },
    }
}

/// A handle's own `handle_media_event` was called with a media event and came back.
pub open spec fn handler_notes<'a, H: Handle>(handle: H, media_event: MediaEvent<'a>) -> bool {
    call_ensures(H::handle_media_event, (&handle, &media_event), ())
}

/// What handing a media event to a session gives: the failure that says why the session has
/// no handle to take it, or success after the session's handle was called with the event.
pub open spec fn media_handled<'a, P: Plugin>(
    app: Option<App<P>>,
    id: u64,
    media_event: MediaEvent<'a>,
    result: Result<(), Error>,
) -> bool {
    match session_fault(app, id) {
        Some(ErrorKind::NotInitialized) => failed_with(
            result,
            ErrorKind::NotInitialized,
            "Plugin not initialized"@,
        ),
        Some(_) => failed_with(result, ErrorKind::HandleNotFound, "Handle not found"@),
        None => result is Ok && handler_notes(app->0.handles()[id].plugin_handle, media_event),
    }
}

/// Hands a media event to the handle of the session behind `raw_handle`. Fails with
/// `NotInitialized` on an empty container and with `HandleNotFound` where the session has no
/// entry; the handle is then not called.
pub fn dispatch_media_event<P: Plugin>(
    app: &Option<App<P>>,
    raw_handle: &RawHandle,
    media_event: &MediaEvent,
) -> (result: Result<(), Error>)
    ensures
        media_handled(*app, raw_handle.handle_id, *media_event, result),
{
    match session_handle(app, raw_handle) {
        Err(error) => Err(error),
        Ok(plugin_handle) => {
            plugin_handle.handle_media_event(media_event);
            Ok(())
        },
    }
}

/// Tells a session's handle that its peer connection is set up.
pub fn setup_media<P: Plugin>(app: &Option<App<P>>, raw_handle: &RawHandle) -> (result: Result<
    (),
    Error,
>)
    ensures
        media_handled(*app, raw_handle.handle_id, MediaEvent::Setup, result),
{
    dispatch_media_event(app, raw_handle, &MediaEvent::Setup)
}

/// Hands an RTP buffer that came in to a session's handle. The host's flag tells video from
/// audio.
pub fn incoming_rtp<P: Plugin>(
    app: &Option<App<P>>,
    raw_handle: &RawHandle,
    is_video: i32,
    buffer: &[i8],
) -> (result: Result<(), Error>)
    ensures
        media_handled(
            *app,
            raw_handle.handle_id,
            MediaEvent::Media {
                protocol: MediaProtocol::Rtp,
                kind: MediaKind::of_flag(is_video),
                buffer,
            },
            result,
        ),
{
    let media_event = MediaEvent::Media {
        protocol: MediaProtocol::Rtp,
        kind: media_kind(is_video),
        buffer,
    };
    dispatch_media_event(app, raw_handle, &media_event)
}

/// Hands an RTCP buffer that came in to a session's handle.
pub fn incoming_rtcp<P: Plugin>(
    app: &Option<App<P>>,
    raw_handle: &RawHandle,
    is_video: i32,
    buffer: &[i8],
) -> (result: Result<(), Error>)
    ensures
        media_handled(
            *app,
            raw_handle.handle_id,
            MediaEvent::Media {
                protocol: MediaProtocol::Rtcp,
                kind: MediaKind::of_flag(is_video),
                buffer,
            },
            result,
        ),
{
    let media_event = MediaEvent::Media {
        protocol: MediaProtocol::Rtcp,
        kind: media_kind(is_video),
        buffer,
    };
    dispatch_media_event(app, raw_handle, &media_event)
}

/// Hands a buffer that came in over the data channel to a session's handle.
pub fn incoming_data<P: Plugin>(app: &Option<App<P>>, raw_handle: &RawHandle, buffer: &[i8]) -> (result:
    Result<(), Error>)
    ensures
        media_handled(*app, raw_handle.handle_id, MediaEvent::Data { buffer }, result),
{
    let media_event = MediaEvent::Data { buffer };
    dispatch_media_event(app, raw_handle, &media_event)
}

/// Tells a session's handle that the host found the link slow, with the host's count for
/// the uplink and its flag for video or audio.
pub fn slow_link<P: Plugin>(
    app: &Option<App<P>>,
    raw_handle: &RawHandle,
    uplink: i32,
    is_video: i32,
) -> (result: Result<(), Error>)
    ensures
        media_handled(
            *app,
            raw_handle.handle_id,
            MediaEvent::SlowLink { kind: MediaKind::of_flag(is_video), uplink: uplink as isize },
            result,
        ),
{
    let media_event = MediaEvent::SlowLink { kind: media_kind(is_video), uplink: uplink as isize };
    dispatch_media_event(app, raw_handle, &media_event)
}

/// Tells a session's handle that its peer connection hung up.
pub fn hangup_media<P: Plugin>(app: &Option<App<P>>, raw_handle: &RawHandle) -> (result: Result<
    (),
    Error,
>)
    ensures
        media_handled(*app, raw_handle.handle_id, MediaEvent::Hangup, result),
{
    dispatch_media_event(app, raw_handle, &MediaEvent::Hangup)
}

/// The tag of what the host is answered to a message.
#[derive(Clone, Copy, Debug, PartialEq, Eq, Structural)]
pub enum PluginResultType {
    /// The message could not be handled.
    Failed,
    /// The answer is in the result.
    Success,
    /// The message was taken; the answer comes later as an event.
    Ack,
}

/// What the host is answered to a message: the tag, a text, and the answer's payload as JSON
/// text where there is one.
#[derive(Debug, PartialEq, Eq)]
pub struct PluginResult {
    pub kind: PluginResultType,
    pub text: String,
    pub content: Option<String>,
}

impl PluginResult {
    /// The immediate answer whose payload is the JSON text `content`.
    pub open spec fn is_success(self, content: Seq<char>) -> bool {
        self.kind == PluginResultType::Success && self.text@ == Seq::<char>::empty()
            && self.content is Some && self.content->0@ == content
    }

    /// The acknowledgement of a message that is answered later.
    pub open spec fn is_ack(self) -> bool {
        self.kind == PluginResultType::Ack && self.text@ == Seq::<char>::empty()
            && self.content is None
    }

    /// The report of a failure, with its text.
    pub open spec fn is_failure(self, text: Seq<char>) -> bool {
        self.kind == PluginResultType::Failed && self.text@ == text && self.content is None
    }
}

/// The text that the host is given for a failure: the failure's own text, and the empty text
/// where that holds a NUL, which the host could not take.
pub open spec fn failure_text(text: Seq<char>) -> Seq<char> {
    if text.contains('\0') {
        Seq::<char>::empty()
    } else {
        text
    }
}

/// The result with which the host is told of a failure.
pub fn error_result(error: &Error) -> (result: PluginResult)
    ensures
        result.is_failure(failure_text(error.text())),
{
    let text = if contains_nul(error.as_str()) {
        String::new()
    } else {
        error.message()
    };
    PluginResult { kind: PluginResultType::Failed, text, content: None }
}

/// What reading the dumps of a message gives when nothing else stands in the way: the first
/// failure on the way from the bytes to the typed message, or nothing where the handle can
/// be given the message.
pub open spec fn message_fault<P: Plugin>(
    app: Option<App<P>>,
    id: u64,
    transaction: Seq<u8>,
    payload: Seq<u8>,
    jsep: Option<Seq<u8>>,
) -> Option<ErrorKind> {
    match session_fault(app, id) {
        Some(kind) => Some(kind),
        None => if !valid_utf8(transaction) {
            Some(ErrorKind::TransactionEncodingFailed)
        } else if wire_reading::<<P::Handle as Handle>::IncomingMessagePayload>(payload) is None {
            Some(ErrorKind::DeserializationFailed)
        } else if jsep is Some && wire_reading::<Jsep>(jsep->0) is None {
            Some(ErrorKind::DeserializationFailed)
        } else {
            None
        },
    }
}

/// The bytes behind an optional dump.
pub open spec fn dump_bytes(dump: Option<&[u8]>) -> Option<Seq<u8>> {
    match dump {
        Some(bytes) => Some(bytes@),
        None => None,
    }
}

/// What the host is answered for what a handle made of a message. A payload is written as
/// JSON text and answered at once; an acknowledgement carries nothing; the handle's failure
/// is a failure of kind `Plugin` that quotes it.
pub open spec fn answered<S: ToWire>(
    response: Result<MessageResponse<S>, Error>,
    result: Result<PluginResult, Error>,
) -> bool {
    match response {
        Err(cause) => failed_with(
            result,
            ErrorKind::Plugin,
            "Error handlung message"@ + ": "@ + cause.text(),
        ),
        Ok(MessageResponse::Ack) => result is Ok && result->Ok_0.is_ack(),
        Ok(MessageResponse::Syncronous(payload)) => result is Ok && result->Ok_0.is_success(
            rendered(S::document(payload@)),
        ) && !result->Ok_0.content->0@.contains('\0'),
    }
}

/// Turns what a handle made of a message into what the host is answered, as `answered` says.
pub fn message_result<S: ToWire>(response: Result<MessageResponse<S>, Error>) -> (result: Result<
    PluginResult,
    Error,
>)
    ensures
        answered(response, result),
{
    match response {
        Err(cause) => Err(Error::wrap(ErrorKind::Plugin, "Error handlung message", cause.as_str())),
        Ok(MessageResponse::Ack) => Ok(
            PluginResult { kind: PluginResultType::Ack, text: String::new(), content: None },
        ),
        Ok(MessageResponse::Syncronous(response_payload)) => match serialize(&response_payload) {
            Ok(content) => Ok(
                PluginResult {
                    kind: PluginResultType::Success,
                    text: String::new(),
                    content: Some(content),
                },
            ),
            Err(cause) => Err(
                Error::wrap(
                    ErrorKind::SerializationFailed,
                    "Failed to serialize response payload",
                    cause.as_str(),
                ),
            ),
        },
    }
}

/// A message is the one that the host handed over: its transaction id is the text of the
/// transaction's bytes, its payload the reading of the payload's dump, and it carries the
/// reading of the session description's dump where the host gave one, and none else.
pub open spec fn delivered<D: FromWire>(
    message: IncomingMessage<D>,
    transaction: Seq<u8>,
    payload: Seq<u8>,
    jsep: Option<Seq<u8>>,
) -> bool {
    &&& message.transaction_id() == decode_utf8(transaction)
    &&& wire_reading::<D>(payload) == Some(message.content()@)
    &&& match jsep {
        Some(dump) => message.negotiation() is Some && wire_reading::<Jsep>(dump) == Some(
            message.negotiation()->0@,
        ),
        None => message.negotiation() is None,
    }
}

/// A response is one that a handle's own `handle_message` gives for a message.
pub open spec fn handler_gives<H: Handle>(
    handle: H,
    message: IncomingMessage<H::IncomingMessagePayload>,
    response: Result<MessageResponse<H::OutgoingMessagePayload>, Error>,
) -> bool {
    call_ensures(H::handle_message, (&handle, message), response)
}

/// The words with which the failure to read a message's dumps begins: those for the payload
/// where the payload cannot be read, and those for the session description else.
pub open spec fn unread_message_context<D: FromWire>(payload: Seq<u8>, jsep: Option<Seq<u8>>) -> Seq<
    char,
> {
    if wire_reading::<D>(payload) is None {
        unread_context(payload)
    } else {
        unread_context(jsep->0)
    }
}

/// What handling a message gives.
///
/// The first of these fails the call, before the handle is asked: an empty container, a
/// session without entry, a transaction id that is no text, a payload that cannot be read,
/// a session description that cannot be read. Else the session's handle is given the
/// message that was delivered, and what it makes of it is answered as `answered` says.
pub open spec fn message_handled<P: Plugin>(
    app: Option<App<P>>,
    id: u64,
    transaction: Seq<u8>,
    payload: Seq<u8>,
    jsep: Option<Seq<u8>>,
    outcome: Result<PluginResult, Error>,
) -> bool {
    match message_fault(app, id, transaction, payload, jsep) {
        Some(ErrorKind::NotInitialized) => failed_with(
            outcome,
            ErrorKind::NotInitialized,
            "Plugin not initialized"@,
        ),
        Some(ErrorKind::HandleNotFound) => failed_with(
            outcome,
            ErrorKind::HandleNotFound,
            "Handle not found"@,
        ),
        Some(ErrorKind::TransactionEncodingFailed) => failed(
            outcome,
            ErrorKind::TransactionEncodingFailed,
        ) && quotes(outcome->Err_0.text(), "Failed to cast transaction"@),
        Some(kind) => failed(outcome, kind) && quotes(
            outcome->Err_0.text(),
            unread_message_context::<<P::Handle as Handle>::IncomingMessagePayload>(payload, jsep),
        ),
        None => exists|
            message: IncomingMessage<<P::Handle as Handle>::IncomingMessagePayload>,
            response: Result<MessageResponse<<P::Handle as Handle>::OutgoingMessagePayload>, Error>,
        |
            delivered(message, transaction, payload, jsep) && #[trigger] handler_gives(
                app->0.handles()[id].plugin_handle,
                message,
                response,
            ) && answered(response, outcome),
    }
}

/// Reads a message for the session behind `raw_handle` from what the host handed over, gives
/// it to the session's handle and turns what the handle made of it into the host's answer.
/// Before the handle is called, the first of these fails the call: an empty container, a
/// session without entry, a transaction id that is no text, a payload that cannot be read,
/// a session description that cannot be read.
pub fn handle_message_impl<P: Plugin>(
    app: &Option<App<P>>,
    raw_handle: &RawHandle,
    transaction: &[u8],
    payload: &[u8],
    jsep: Option<&[u8]>,
) -> (result: Result<PluginResult, Error>)
    ensures
        message_handled(
            *app,
            raw_handle.handle_id,
            transaction@,
            payload@,
            dump_bytes(jsep),
            result,
        ),
        match message_fault(*app, raw_handle.handle_id, transaction@, payload@, dump_bytes(jsep)) {
            Some(kind) => failed(result, kind),
            None => match result {
                Ok(answer) => answer.is_ack() || (answer.content is Some && answer.is_success(
                    answer.content->0@,
                ) && !answer.content->0@.contains('\0')),
                Err(error) => error.kind_of() == ErrorKind::Plugin,
            },
        },
{
    let plugin_handle = match session_handle(app, raw_handle) {
        Ok(plugin_handle) => plugin_handle,
        Err(error) => {
            return Err(error);
        },
    };
    let transaction_str = match text_from_bytes(transaction) {
        Ok(text) => String::from_str(text),
        Err(cause) => {
            return Err(
                Error::wrap(
                    ErrorKind::TransactionEncodingFailed,
                    "Failed to cast transaction",
                    cause.to_string().as_str(),
                ),
            );
        },
    };
    let payload = match deserialize::<<P::Handle as Handle>::IncomingMessagePayload>(payload) {
        Ok(payload) => payload,
        Err(error) => {
            return Err(error);
        },
    };
    let message = IncomingMessage::new(transaction_str, payload);
    let message = match jsep {
        Some(dump) => match deserialize::<Jsep>(dump) {
            Ok(jsep) => message.set_jsep(jsep),
            Err(error) => {
                return Err(error);
            },
        },
        None => message,
    };
    let ghost sent = message;
    let response = plugin_handle.handle_message(message);
    let ghost given = response;
    let result = message_result(response);
    proof {
        assert(handler_gives(*plugin_handle, sent, given));
    }
    result
}

/// The host's form of what handling a message gave: an answer as it is, a failure as the
/// report of it.
pub open spec fn reported(outcome: Result<PluginResult, Error>, result: PluginResult) -> bool {
    match outcome {
        Ok(answer) => result == answer,
        Err(error) => result.is_failure(failure_text(error.text())),
    }
}

/// Handles a message and gives the host its answer: what `handle_message_impl` gives, with
/// a failure turned into the report of it.
pub fn handle_message<P: Plugin>(
    app: &Option<App<P>>,
    raw_handle: &RawHandle,
    transaction: &[u8],
    payload: &[u8],
    jsep: Option<&[u8]>,
) -> (result: PluginResult)
    ensures
        exists|outcome: Result<PluginResult, Error>| #[trigger]
            message_handled(
                *app,
                raw_handle.handle_id,
                transaction@,
                payload@,
                dump_bytes(jsep),
                outcome,
            ) && reported(outcome, result),
        session_fault(*app, raw_handle.handle_id) == Some(ErrorKind::NotInitialized)
            ==> result.is_failure("Plugin not initialized"@),
        session_fault(*app, raw_handle.handle_id) == Some(ErrorKind::HandleNotFound)
            ==> result.is_failure("Handle not found"@),
        message_fault(*app, raw_handle.handle_id, transaction@, payload@, dump_bytes(jsep)) is Some
            ==> result.kind == PluginResultType::Failed,
        match result.kind {
            PluginResultType::Failed => result.content is None && !result.text@.contains('\0'),
            PluginResultType::Ack => result.is_ack(),
            PluginResultType::Success => result.content is Some && result.is_success(
                result.content->0@,
            ) && !result.content->0@.contains('\0'),
        },
{
    let outcome = handle_message_impl(app, raw_handle, transaction, payload, jsep);
    let ghost handled = outcome;
    proof {
        lemma_fixed_texts_hold_no_nul();
    }
    let result = match outcome {
        Ok(answer) => answer,
        Err(error) => error_result(&error),
    };
    proof {
        assert(reported(handled, result));
    }
    result
}

/// The texts that report an empty container and a session without entry hold no NUL, so
/// the host is given them as they are.
pub proof fn lemma_fixed_texts_hold_no_nul()
    ensures
        failure_text("Plugin not initialized"@) == "Plugin not initialized"@,
        failure_text("Handle not found"@) == "Handle not found"@,
{
    reveal_strlit("Plugin not initialized");
    reveal_strlit("Handle not found");
}

/// The JSON text that shows the state of a handle.
pub open spec fn handle_state<H: Handle>(handle: H) -> Seq<char> {
    rendered(<H as ToWire>::document(handle@))
}

/// The state of a session's handle as JSON text, for the host's inspection. Fails with
/// `NotInitialized` on an empty container and with `HandleNotFound` where the session has no
/// entry; every registered session gives its text, which holds no NUL.
pub fn query_session_impl<P: Plugin>(app: &Option<App<P>>, raw_handle: &RawHandle) -> (result: Result<
    String,
    Error,
>)
    ensures
        match session_fault(*app, raw_handle.handle_id) {
            Some(ErrorKind::NotInitialized) => failed_with(
                result,
                ErrorKind::NotInitialized,
                "Plugin not initialized"@,
            ),
            Some(_) => failed_with(result, ErrorKind::HandleNotFound, "Handle not found"@),
            None => result is Ok && result->Ok_0@ == handle_state(
                (*app)->0.handles()[raw_handle.handle_id].plugin_handle,
            ) && !result->Ok_0@.contains('\0'),
        },
{
    match session_handle(app, raw_handle) {
        Err(error) => Err(error),
        Ok(plugin_handle) => serialize(plugin_handle),
    }
}

/// The state of a session's handle as JSON text, and nothing where the session has no handle.
pub fn query_session<P: Plugin>(app: &Option<App<P>>, raw_handle: &RawHandle) -> (result: Option<
    String,
>)
    ensures
        match session_fault(*app, raw_handle.handle_id) {
            Some(_) => result is None,
            None => result is Some && result->0@ == handle_state(
                (*app)->0.handles()[raw_handle.handle_id].plugin_handle,
            ) && !result->0@.contains('\0'),
        },
{
    match query_session_impl(app, raw_handle) {
        Ok(json) => Some(json),
        Err(_) => None,
    }
}

} // verus!
