use janus_app::example::{Config, Handle, IncomingMessagePayload, OutgoingMessagePayload};
use janus_app::text::{contains_nul, push_decimal, push_signed_decimal, same_text};
use janus_app::wire::{checked_dump, deserialize, serialize};
use janus_app::{ErrorKind, Jsep};

#[test]
fn jsep_offer_is_written_with_type_and_sdp() {
    let offer = Jsep::Offer { sdp: format!("v=0") };
    assert_eq!(serialize(&offer).unwrap(), "{\"sdp\":\"v=0\",\"type\":\"offer\"}");
}

#[test]
fn jsep_answer_is_written_with_type_and_sdp() {
    let answer = Jsep::Answer { sdp: format!("v=0\r\ns=-") };
    assert_eq!(serialize(&answer).unwrap(), "{\"sdp\":\"v=0\\r\\ns=-\",\"type\":\"answer\"}");
}

#[test]
fn jsep_offer_round_trip() {
    let offer = Jsep::Offer { sdp: format!("v=0 o=- 42 \"quoted\" \u{e9}") };
    let dump = serialize(&offer).unwrap();
    let read: Jsep = deserialize(dump.as_bytes()).unwrap();
    assert_eq!(read, offer);
}

#[test]
fn jsep_answer_round_trip() {
    let answer = Jsep::Answer { sdp: String::new() };
    let dump = serialize(&answer).unwrap();
    let read: Jsep = deserialize(dump.as_bytes()).unwrap();
    assert_eq!(read, answer);
}

#[test]
fn ping_round_trip() {
    let ping = IncomingMessagePayload::Ping { data: format!("x") };
    let dump = serialize(&ping).unwrap();
    assert_eq!(dump, "{\"data\":\"x\",\"method\":\"ping\"}");
    let read: IncomingMessagePayload = deserialize(dump.as_bytes()).unwrap();
    assert_eq!(read, ping);
}

#[test]
fn jsep_is_read_from_an_object_in_any_order() {
    let read: Jsep = deserialize(b"{ \"type\": \"offer\", \"sdp\": \"abc\" }").unwrap();
    assert_eq!(read, Jsep::Offer { sdp: format!("abc") });
    let read: Jsep = deserialize(b"{\"sdp\":\"def\",\"type\":\"answer\"}").unwrap();
    assert_eq!(read, Jsep::Answer { sdp: format!("def") });
}

#[test]
fn members_that_are_not_asked_for_are_passed_over() {
    let read: Jsep = deserialize(b"{\"type\":\"offer\",\"sdp\":\"abc\",\"trickle\":false}").unwrap();
    assert_eq!(read, Jsep::Offer { sdp: format!("abc") });
    let ping: IncomingMessagePayload =
        deserialize(b"{\"method\":\"ping\",\"data\":\"x\",\"extra\":[1,2,{\"a\":null}]}").unwrap();
    assert_eq!(ping, IncomingMessagePayload::Ping { data: format!("x") });
}

#[test]
fn jsep_with_unknown_type_is_refused() {
    let error = deserialize::<Jsep>(b"{\"type\":\"pranswer\",\"sdp\":\"abc\"}").err().unwrap();
    assert_eq!(error.kind(), ErrorKind::DeserializationFailed);
    let error = deserialize::<Jsep>(b"{\"type\":\"Offer\",\"sdp\":\"abc\"}").err().unwrap();
    assert_eq!(error.kind(), ErrorKind::DeserializationFailed);
}

#[test]
fn jsep_without_a_member_is_refused() {
    assert_eq!(
        deserialize::<Jsep>(b"{\"type\":\"offer\"}").err().unwrap().kind(),
        ErrorKind::DeserializationFailed
    );
    assert_eq!(
        deserialize::<Jsep>(b"{\"sdp\":\"abc\"}").err().unwrap().kind(),
        ErrorKind::DeserializationFailed
    );
    assert_eq!(deserialize::<Jsep>(b"{}").err().unwrap().kind(), ErrorKind::DeserializationFailed);
}

#[test]
fn jsep_with_a_member_that_is_no_text_is_refused() {
    assert_eq!(
        deserialize::<Jsep>(b"{\"type\":\"offer\",\"sdp\":5}").err().unwrap().kind(),
        ErrorKind::DeserializationFailed
    );
    assert_eq!(
        deserialize::<Jsep>(b"{\"type\":null,\"sdp\":\"abc\"}").err().unwrap().kind(),
        ErrorKind::DeserializationFailed
    );
}

#[test]
fn a_document_that_is_no_object_is_refused() {
    assert_eq!(
        deserialize::<Jsep>(b"[\"offer\",\"abc\"]").err().unwrap().kind(),
        ErrorKind::DeserializationFailed
    );
    assert_eq!(deserialize::<Jsep>(b"\"offer\"").err().unwrap().kind(), ErrorKind::DeserializationFailed);
    assert_eq!(deserialize::<Jsep>(b"null").err().unwrap().kind(), ErrorKind::DeserializationFailed);
}

#[test]
fn text_that_is_no_json_is_refused() {
    let error = deserialize::<Jsep>(b"{\"type\":\"offer\",").err().unwrap();
    assert_eq!(error.kind(), ErrorKind::DeserializationFailed);
    assert!(error.as_str().starts_with("Failed to deserialize JSON: "));
    assert_eq!(deserialize::<Jsep>(b"").err().unwrap().kind(), ErrorKind::DeserializationFailed);
}

#[test]
fn bytes_that_are_no_text_are_refused() {
    let error = deserialize::<Jsep>(&[0x7b, 0xff, 0xfe, 0x7d]).err().unwrap();
    assert_eq!(error.kind(), ErrorKind::DeserializationFailed);
    assert!(error.as_str().starts_with("Failed to cast dumped JSON: "));
}

#[test]
fn ping_with_another_method_is_refused() {
    let error = deserialize::<IncomingMessagePayload>(b"{\"method\":\"pong\",\"data\":\"x\"}").err().unwrap();
    assert_eq!(error.kind(), ErrorKind::DeserializationFailed);
    let error = deserialize::<IncomingMessagePayload>(b"{\"data\":\"x\"}").err().unwrap();
    assert_eq!(error.kind(), ErrorKind::DeserializationFailed);
    let error = deserialize::<IncomingMessagePayload>(b"{\"method\":\"ping\"}").err().unwrap();
    assert_eq!(error.kind(), ErrorKind::DeserializationFailed);
}

#[test]
fn pong_is_written_under_its_name() {
    let pong = OutgoingMessagePayload::Pong { data: format!("x pong") };
    assert_eq!(serialize(&pong).unwrap(), "{\"Pong\":{\"data\":\"x pong\"}}");
}

#[test]
fn handle_state_is_written_with_its_identity() {
    let handle = Handle::new(7, Config { ping_response: format!("pong"), synchronous: false });
    assert_eq!(serialize(&handle).unwrap(), "{\"id\":7}");
    let handle = Handle::new(u64::MAX, Config { ping_response: format!("pong"), synchronous: true });
    assert_eq!(serialize(&handle).unwrap(), "{\"id\":18446744073709551615}");
}

#[test]
fn a_nul_in_a_text_is_written_escaped() {
    let offer = Jsep::Offer { sdp: format!("a\0b") };
    let dump = serialize(&offer).unwrap();
    assert!(!dump.contains('\0'));
    let read: Jsep = deserialize(dump.as_bytes()).unwrap();
    assert_eq!(read, offer);
}

#[test]
fn checked_dump_passes_a_clean_text_on() {
    assert_eq!(checked_dump(Ok(format!("{{}}"))).unwrap(), "{}");
}

#[test]
fn checked_dump_refuses_a_text_with_nul() {
    let error = checked_dump(Ok(format!("{{\0}}"))).err().unwrap();
    assert_eq!(error.kind(), ErrorKind::SerializationFailed);
    assert_eq!(error.as_str(), "Failed to cast dumped JSON");
}

#[test]
fn checked_dump_passes_a_failure_on() {
    let error = checked_dump(Err(format!("key must be a string"))).err().unwrap();
    assert_eq!(error.kind(), ErrorKind::SerializationFailed);
    assert_eq!(error.as_str(), "Failed to dump JSON: key must be a string");
}

#[test]
fn same_text_compares_whole_texts() {
    assert!(same_text("", ""));
    assert!(same_text("offer", "offer"));
    assert!(!same_text("offer", "offes"));
    assert!(!same_text("offer", "offe"));
    assert!(!same_text("offe", "offer"));
    assert!(same_text("\u{e9}t\u{e9}", "\u{e9}t\u{e9}"));
    assert!(!same_text("\u{e9}", "e"));
}

#[test]
fn contains_nul_finds_the_character() {
    assert!(!contains_nul(""));
    assert!(!contains_nul("transaction-1"));
    assert!(contains_nul("\0"));
    assert!(contains_nul("abc\0"));
    assert!(contains_nul("\0abc"));
    assert!(contains_nul("a\0b"));
}

#[test]
fn decimal_is_written_without_leading_zeros() {
    let mut text = String::new();
    push_decimal(&mut text, 0);
    assert_eq!(text, "0");
    let mut text = format!("id ");
    push_decimal(&mut text, 9);
    push_decimal(&mut text, 10);
    assert_eq!(text, "id 910");
    let mut text = String::new();
    push_decimal(&mut text, 1234567890);
    assert_eq!(text, "1234567890");
    let mut text = String::new();
    push_decimal(&mut text, u64::MAX);
    assert_eq!(text, "18446744073709551615");
}

#[test]
fn signed_decimal_has_a_minus_sign() {
    let mut text = String::new();
    push_signed_decimal(&mut text, -1);
    assert_eq!(text, "-1");
    let mut text = String::new();
    push_signed_decimal(&mut text, 0);
    assert_eq!(text, "0");
    let mut text = String::new();
    push_signed_decimal(&mut text, 2048);
    assert_eq!(text, "2048");
    let mut text = String::new();
    push_signed_decimal(&mut text, isize::MIN);
    assert_eq!(text, format!("{}", isize::MIN));
    let mut text = String::new();
    push_signed_decimal(&mut text, isize::MAX);
    assert_eq!(text, format!("{}", isize::MAX));
}
