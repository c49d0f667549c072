use janus_app::dispatch::{encode_message, DispatchQueue, HostRequest};
use janus_app::example::{Config, ExamplePlugin};
use janus_app::handle_registry::RawHandle;
use janus_app::plugin::{
    create_session, create_session_impl, destroy, destroy_session, destroy_session_impl,
    dispatch_media_event, error_result, get_api_compatibility, get_author, get_description, get_name,
    get_package, get_version, get_version_string, handle_message, handle_message_impl, hangup_media,
    incoming_data, incoming_rtcp, incoming_rtp, init, init_impl, install, message_result,
    query_session, query_session_impl, setup_media, slow_link, status_code, App, CallbackTable,
    Handle as _, PluginResult, PluginResultType,
};
use janus_app::example::OutgoingMessagePayload;
use janus_app::{Error, ErrorKind, MediaEvent, MessageResponse, Plugin as _};

fn raw(id: u64) -> RawHandle {
    RawHandle { session: 0x3000 + id as usize, handle_id: id }
}

fn table() -> CallbackTable {
    CallbackTable { table: 0xf00d }
}

fn installed(synchronous: bool) -> Option<App<ExamplePlugin>> {
    let mut app = None;
    let config = Config { ping_response: format!("pong"), synchronous };
    assert!(install(&mut app, table(), Ok(Box::new(ExamplePlugin::new(config)))).is_ok());
    app
}

#[test]
fn plugin_tells_the_host_about_itself() {
    assert_eq!(get_api_compatibility(), 13);
    assert_eq!(get_version::<ExamplePlugin>(), 1);
    assert_eq!(get_version_string::<ExamplePlugin>(), "0.0.1");
    assert_eq!(get_name::<ExamplePlugin>(), "Example");
    assert_eq!(get_description::<ExamplePlugin>(), "Example plugin");
    assert_eq!(get_author::<ExamplePlugin>(), "Fey Martynov");
    assert_eq!(get_package::<ExamplePlugin>(), "janus.plugin.app_example");
}

#[test]
fn status_code_is_zero_for_success_and_one_for_failure() {
    let fine: Result<u8, Error> = Ok(3);
    let bad: Result<u8, Error> = Err(Error::new("no"));
    assert_eq!(status_code(&fine), 0);
    assert_eq!(status_code(&bad), 1);
}

#[test]
fn init_fills_an_empty_container() {
    let mut app: Option<App<ExamplePlugin>> = None;
    assert_eq!(init(&mut app, table(), b"/opt/janus/etc"), 0);
    assert!(app.is_some());
    assert!(app.as_ref().unwrap().handle(1).is_none());
    assert_eq!(janus_app::dispatch::janus_callbacks(&app).unwrap(), table());
}

#[test]
fn second_init_fails_with_already_initialized() {
    let mut app: Option<App<ExamplePlugin>> = None;
    assert!(init_impl(&mut app, table(), b"/opt/janus/etc").is_ok());
    assert_eq!(create_session(&mut app, raw(1)), 0);
    let error = init_impl(&mut app, CallbackTable { table: 1 }, b"/opt/janus/etc").err().unwrap();
    assert_eq!(error.kind(), ErrorKind::AlreadyInitialized);
    assert_eq!(error.as_str(), "Plugin already initialized");
    assert_eq!(init(&mut app, CallbackTable { table: 1 }, b"/opt/janus/etc"), 1);
    assert!(app.as_ref().unwrap().handle(1).is_some());
    assert_eq!(janus_app::dispatch::janus_callbacks(&app).unwrap(), table());
}

#[test]
fn init_with_a_path_that_is_no_text_fails() {
    let mut app: Option<App<ExamplePlugin>> = None;
    let error = init_impl(&mut app, table(), &[0x2f, 0xc3, 0x28]).err().unwrap();
    assert_eq!(error.kind(), ErrorKind::InitFailed);
    assert!(error.as_str().starts_with("Failed to cast config path: "));
    assert!(app.is_none());
    assert_eq!(init(&mut app, table(), &[0xff]), 1);
    assert!(app.is_none());
}

#[test]
fn install_passes_a_failed_initialization_on() {
    let mut app: Option<App<ExamplePlugin>> = None;
    let error = install(&mut app, table(), Err(Error::new("no config"))).err().unwrap();
    assert_eq!(error.kind(), ErrorKind::InitFailed);
    assert_eq!(error.as_str(), "Failed to init plugin: no config");
    assert!(app.is_none());
}

#[test]
fn install_leaves_a_full_container_alone() {
    let mut app = installed(true);
    assert_eq!(create_session(&mut app, raw(1)), 0);
    let config = Config { ping_response: format!("other"), synchronous: false };
    let error = install(&mut app, CallbackTable { table: 2 }, Ok(Box::new(ExamplePlugin::new(config)))).err().unwrap();
    assert_eq!(error.kind(), ErrorKind::AlreadyInitialized);
    assert!(app.as_ref().unwrap().handle(1).is_some());
}

#[test]
fn nothing_works_before_init() {
    let mut app: Option<App<ExamplePlugin>> = None;
    let error = create_session_impl(&mut app, raw(1)).err().unwrap();
    assert_eq!(error.kind(), ErrorKind::NotInitialized);
    assert_eq!(error.as_str(), "Plugin not initialized");
    assert_eq!(create_session(&mut app, raw(1)), 1);
    assert_eq!(destroy_session_impl(&mut app, &raw(1)).err().unwrap().kind(), ErrorKind::NotInitialized);
    assert_eq!(destroy_session(&mut app, &raw(1)), (1, None));
    assert_eq!(setup_media(&app, &raw(1)).err().unwrap().kind(), ErrorKind::NotInitialized);
    assert_eq!(incoming_rtp(&app, &raw(1), 1, &[1]).err().unwrap().kind(), ErrorKind::NotInitialized);
    assert_eq!(incoming_rtcp(&app, &raw(1), 0, &[1]).err().unwrap().kind(), ErrorKind::NotInitialized);
    assert_eq!(incoming_data(&app, &raw(1), &[1]).err().unwrap().kind(), ErrorKind::NotInitialized);
    assert_eq!(slow_link(&app, &raw(1), 1, 1).err().unwrap().kind(), ErrorKind::NotInitialized);
    assert_eq!(hangup_media(&app, &raw(1)).err().unwrap().kind(), ErrorKind::NotInitialized);
    assert_eq!(query_session_impl(&app, &raw(1)).err().unwrap().kind(), ErrorKind::NotInitialized);
    assert!(query_session(&app, &raw(1)).is_none());
    let error = handle_message_impl(&app, &raw(1), b"t", b"{}", None).err().unwrap();
    assert_eq!(error.kind(), ErrorKind::NotInitialized);
    assert_eq!(destroy(&mut app).err().unwrap().kind(), ErrorKind::NotInitialized);
    assert!(app.is_none());
}

#[test]
fn nothing_works_after_destroy() {
    let mut app = installed(false);
    assert_eq!(create_session(&mut app, raw(1)), 0);
    assert_eq!(destroy(&mut app).unwrap(), vec![raw(1)]);
    assert!(app.is_none());
    assert_eq!(create_session(&mut app, raw(2)), 1);
    assert_eq!(setup_media(&app, &raw(1)).err().unwrap().kind(), ErrorKind::NotInitialized);
    assert_eq!(handle_message(&app, &raw(1), b"t", b"{}", None).kind, PluginResultType::Failed);
    assert_eq!(destroy(&mut app).err().unwrap().as_str(), "Plugin not initialized");
}

#[test]
fn container_can_be_initialized_again_after_destroy() {
    let mut app: Option<App<ExamplePlugin>> = None;
    assert_eq!(init(&mut app, table(), b"conf"), 0);
    assert_eq!(create_session(&mut app, raw(1)), 0);
    assert!(destroy(&mut app).is_ok());
    assert_eq!(init(&mut app, table(), b"conf"), 0);
    assert!(app.as_ref().unwrap().handle(1).is_none());
}

#[test]
fn destroy_releases_every_registered_session_once() {
    let mut app = installed(false);
    let mut id: u64 = 0;
    while id < 10 {
        assert_eq!(create_session(&mut app, raw(id)), 0);
        id += 1;
    }
    assert_eq!(destroy_session(&mut app, &raw(4)), (0, Some(raw(4))));
    let mut released = destroy(&mut app).unwrap();
    released.sort_by_key(|handle| handle.handle_id);
    assert_eq!(released.len(), 9);
    let expected: Vec<RawHandle> = vec![raw(0), raw(1), raw(2), raw(3), raw(5), raw(6), raw(7), raw(8), raw(9)];
    assert_eq!(released, expected);
}

#[test]
fn create_session_registers_a_handle_with_the_identity() {
    let mut app = installed(false);
    assert!(create_session_impl(&mut app, raw(11)).is_ok());
    let handle = app.as_ref().unwrap().handle(11).unwrap();
    assert_eq!(handle.id(), 11);
    assert!(app.as_ref().unwrap().handle(12).is_none());
    assert!(app.as_ref().unwrap().plugin().build_handle(3).id() == 3);
}

#[test]
fn create_session_twice_fails_with_already_registered() {
    let mut app = installed(false);
    assert_eq!(create_session(&mut app, raw(11)), 0);
    let error = create_session_impl(&mut app, RawHandle { session: 1, handle_id: 11 }).err().unwrap();
    assert_eq!(error.kind(), ErrorKind::AlreadyRegistered);
    assert_eq!(error.as_str(), "Handle already registered");
    assert_eq!(create_session(&mut app, raw(11)), 1);
    assert_eq!(janus_app::dispatch::raw_handle(&app, 11).unwrap(), raw(11));
}

#[test]
fn destroy_session_is_best_effort() {
    let mut app = installed(false);
    assert_eq!(create_session(&mut app, raw(1)), 0);
    assert_eq!(destroy_session_impl(&mut app, &raw(1)).unwrap(), Some(raw(1)));
    assert_eq!(destroy_session_impl(&mut app, &raw(1)).unwrap(), None);
    assert_eq!(destroy_session(&mut app, &raw(77)), (0, None));
    assert!(app.is_some());
}

#[test]
fn handle_can_be_changed_through_the_container() {
    let mut app = installed(false);
    assert_eq!(create_session(&mut app, raw(1)), 0);
    let other = app.as_ref().unwrap().plugin().build_handle(100);
    *app.as_mut().unwrap().handle_mut(1).unwrap() = other;
    assert_eq!(app.as_ref().unwrap().handle(1).unwrap().id(), 100);
    assert!(app.as_mut().unwrap().handle_mut(2).is_none());
}

#[test]
fn media_events_reach_registered_sessions_only() {
    let mut app = installed(false);
    assert_eq!(create_session(&mut app, raw(1)), 0);
    assert!(setup_media(&app, &raw(1)).is_ok());
    assert!(incoming_rtp(&app, &raw(1), 1, &[1, 2]).is_ok());
    assert!(incoming_rtcp(&app, &raw(1), 0, &[]).is_ok());
    assert!(incoming_data(&app, &raw(1), &[3]).is_ok());
    assert!(slow_link(&app, &raw(1), -5, 1).is_ok());
    assert!(hangup_media(&app, &raw(1)).is_ok());
    assert!(dispatch_media_event(&app, &raw(1), &MediaEvent::Setup).is_ok());
    let error = setup_media(&app, &raw(2)).err().unwrap();
    assert_eq!(error.kind(), ErrorKind::HandleNotFound);
    assert_eq!(error.as_str(), "Handle not found");
    assert_eq!(incoming_rtp(&app, &raw(2), 1, &[1]).err().unwrap().kind(), ErrorKind::HandleNotFound);
    assert_eq!(incoming_rtcp(&app, &raw(2), 1, &[1]).err().unwrap().kind(), ErrorKind::HandleNotFound);
    assert_eq!(incoming_data(&app, &raw(2), &[1]).err().unwrap().kind(), ErrorKind::HandleNotFound);
    assert_eq!(slow_link(&app, &raw(2), 1, 0).err().unwrap().kind(), ErrorKind::HandleNotFound);
    assert_eq!(hangup_media(&app, &raw(2)).err().unwrap().kind(), ErrorKind::HandleNotFound);
}

#[test]
fn query_session_gives_the_handle_state() {
    let mut app = installed(false);
    assert_eq!(create_session(&mut app, raw(21)), 0);
    assert_eq!(query_session_impl(&app, &raw(21)).unwrap(), "{\"id\":21}");
    assert_eq!(query_session(&app, &raw(21)), Some(format!("{{\"id\":21}}")));
    let error = query_session_impl(&app, &raw(22)).err().unwrap();
    assert_eq!(error.kind(), ErrorKind::HandleNotFound);
    assert_eq!(error.as_str(), "Handle not found");
    assert_eq!(query_session(&app, &raw(22)), None);
}

#[test]
fn ping_is_answered_at_once_on_the_synchronous_path() {
    let mut app = installed(true);
    assert_eq!(create_session(&mut app, raw(1)), 0);
    let answer = handle_message(&app, &raw(1), b"txn-1", b"{\"method\":\"ping\",\"data\":\"x\"}", None);
    assert_eq!(
        answer,
        PluginResult {
            kind: PluginResultType::Success,
            text: String::new(),
            content: Some(format!("{{\"Pong\":{{\"data\":\"x pong\"}}}}")),
        }
    );
}

#[test]
fn ping_is_acknowledged_and_answered_later_on_the_ack_path() {
    let mut app = installed(false);
    assert_eq!(create_session(&mut app, raw(1)), 0);
    let answer = handle_message(&app, &raw(1), b"txn-1", b"{\"method\":\"ping\",\"data\":\"x\"}", None);
    assert_eq!(answer, PluginResult { kind: PluginResultType::Ack, text: String::new(), content: None });
    let mut queue = DispatchQueue::new();
    let message = app.as_ref().unwrap().handle(1).unwrap().ping("txn-1", "x");
    queue.submit(1, encode_message(&message).unwrap());
    assert_eq!(queue.len(), 1);
    let call = queue.deliver(&app).unwrap().unwrap();
    assert_eq!(call.callbacks, table());
    assert_eq!(call.session, raw(1));
    assert_eq!(
        call.request,
        HostRequest::PushEvent {
            transaction: format!("txn-1"),
            payload: format!("{{\"Pong\":{{\"data\":\"x pong\"}}}}"),
            jsep: None,
        }
    );
    assert!(queue.deliver(&app).is_none());
}

#[test]
fn message_with_a_session_description_is_handled() {
    let mut app = installed(true);
    assert_eq!(create_session(&mut app, raw(1)), 0);
    let jsep: &[u8] = b"{\"type\":\"offer\",\"sdp\":\"v=0\"}";
    let answer = handle_message_impl(&app, &raw(1), b"txn-1", b"{\"method\":\"ping\",\"data\":\"\"}", Some(jsep))
        .unwrap();
    assert_eq!(answer.kind, PluginResultType::Success);
    assert_eq!(answer.content, Some(format!("{{\"Pong\":{{\"data\":\" pong\"}}}}")));
}

#[test]
fn message_for_an_unregistered_session_fails_with_handle_not_found() {
    let mut app = installed(true);
    assert_eq!(create_session(&mut app, raw(1)), 0);
    let error = handle_message_impl(&app, &raw(2), b"txn-1", b"{\"method\":\"ping\",\"data\":\"x\"}", None)
        .err()
        .unwrap();
    assert_eq!(error.kind(), ErrorKind::HandleNotFound);
    assert_eq!(error.as_str(), "Handle not found");
    let answer = handle_message(&app, &raw(2), b"txn-1", b"{\"method\":\"ping\",\"data\":\"x\"}", None);
    assert_eq!(
        answer,
        PluginResult { kind: PluginResultType::Failed, text: format!("Handle not found"), content: None }
    );
}

#[test]
fn message_with_a_transaction_that_is_no_text_fails() {
    let mut app = installed(true);
    assert_eq!(create_session(&mut app, raw(1)), 0);
    let error = handle_message_impl(&app, &raw(1), &[0xc0, 0x80], b"{\"method\":\"ping\",\"data\":\"x\"}", None)
        .err()
        .unwrap();
    assert_eq!(error.kind(), ErrorKind::TransactionEncodingFailed);
    assert!(error.as_str().starts_with("Failed to cast transaction: "));
}

#[test]
fn message_with_a_payload_that_cannot_be_read_fails() {
    let mut app = installed(true);
    assert_eq!(create_session(&mut app, raw(1)), 0);
    let error = handle_message_impl(&app, &raw(1), b"t", b"{\"method\":\"sing\",\"data\":\"x\"}", None).err().unwrap();
    assert_eq!(error.kind(), ErrorKind::DeserializationFailed);
    let error = handle_message_impl(&app, &raw(1), b"t", b"not json", None).err().unwrap();
    assert_eq!(error.kind(), ErrorKind::DeserializationFailed);
    let error = handle_message_impl(&app, &raw(1), b"t", &[0xff], None).err().unwrap();
    assert_eq!(error.kind(), ErrorKind::DeserializationFailed);
    let answer = handle_message(&app, &raw(1), b"t", b"[]", None);
    assert_eq!(answer.kind, PluginResultType::Failed);
    assert_eq!(answer.content, None);
}

#[test]
fn message_with_a_session_description_that_cannot_be_read_fails() {
    let mut app = installed(true);
    assert_eq!(create_session(&mut app, raw(1)), 0);
    let jsep: &[u8] = b"{\"type\":\"offer\"}";
    let error = handle_message_impl(&app, &raw(1), b"t", b"{\"method\":\"ping\",\"data\":\"x\"}", Some(jsep))
        .err()
        .unwrap();
    assert_eq!(error.kind(), ErrorKind::DeserializationFailed);
}

#[test]
fn message_result_for_each_response() {
    let ack: Result<MessageResponse<OutgoingMessagePayload>, Error> = Ok(MessageResponse::Ack);
    assert_eq!(
        message_result(ack).unwrap(),
        PluginResult { kind: PluginResultType::Ack, text: String::new(), content: None }
    );
    let now: Result<MessageResponse<OutgoingMessagePayload>, Error> =
        Ok(MessageResponse::Syncronous(OutgoingMessagePayload::Pong { data: format!("d") }));
    assert_eq!(
        message_result(now).unwrap(),
        PluginResult {
            kind: PluginResultType::Success,
            text: String::new(),
            content: Some(format!("{{\"Pong\":{{\"data\":\"d\"}}}}")),
        }
    );
    let failed: Result<MessageResponse<OutgoingMessagePayload>, Error> = Err(Error::new("room is full"));
    let error = message_result(failed).err().unwrap();
    assert_eq!(error.kind(), ErrorKind::Plugin);
    assert_eq!(error.as_str(), "Error handlung message: room is full");
}

#[test]
fn error_result_reports_the_failure_text() {
    let result = error_result(&Error::new("room is full"));
    assert_eq!(
        result,
        PluginResult { kind: PluginResultType::Failed, text: format!("room is full"), content: None }
    );
    let result = error_result(&Error::new("room\0is full"));
    assert_eq!(result, PluginResult { kind: PluginResultType::Failed, text: String::new(), content: None });
}

#[test]
fn example_plugin_starts_with_its_built_in_configuration() {
    let mut app: Option<App<ExamplePlugin>> = None;
    assert_eq!(init(&mut app, table(), b""), 0);
    assert_eq!(create_session(&mut app, raw(1)), 0);
    let answer = handle_message(&app, &raw(1), b"t", b"{\"method\":\"ping\",\"data\":\"x\"}", None);
    assert_eq!(answer.kind, PluginResultType::Ack);
    let message = app.as_ref().unwrap().handle(1).unwrap().ping("t", "x");
    assert_eq!(*message.payload(), OutgoingMessagePayload::Pong { data: format!("x pong") });
}

#[test]
fn session_handle_finds_the_handle_of_a_registered_session() {
    let mut app = installed(false);
    assert_eq!(create_session(&mut app, raw(8)), 0);
    assert_eq!(janus_app::plugin::session_handle(&app, &raw(8)).unwrap().id(), 8);
    let error = janus_app::plugin::session_handle(&app, &raw(9)).err().unwrap();
    assert_eq!(error.kind(), ErrorKind::HandleNotFound);
    assert_eq!(error.as_str(), "Handle not found");
    let empty: Option<App<ExamplePlugin>> = None;
    let error = janus_app::plugin::session_handle(&empty, &raw(8)).err().unwrap();
    assert_eq!(error.kind(), ErrorKind::NotInitialized);
    assert_eq!(error.as_str(), "Plugin not initialized");
}

#[test]
fn writing_never_fails() {
    let mut app = installed(true);
    let mut id: u64 = 0;
    while id < 20 {
        assert_eq!(create_session(&mut app, raw(id)), 0);
        assert!(query_session(&app, &raw(id)).is_some());
        let answer = handle_message(&app, &raw(id), b"t", b"{\"method\":\"ping\",\"data\":\"\\u0000\\n\\\"\"}", None);
        assert_eq!(answer.kind, PluginResultType::Success);
        assert_eq!(answer.content, Some(format!("{{\"Pong\":{{\"data\":\"\\u0000\\n\\\" pong\"}}}}")));
        id += 1;
    }
}
