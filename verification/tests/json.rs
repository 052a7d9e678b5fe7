use discord_rich_presence::error::IpcError;
use discord_rich_presence::frame::Opcode;
use discord_rich_presence::json::{parse_payload, push_member, Json};
use discord_rich_presence::message::{
    close_payload, encode_message, handshake_payload, set_activity_payload,
};
use discord_rich_presence::activity::Activity;

fn text(json: &Json) -> String {
    String::from_utf8(json.to_bytes().unwrap()).unwrap()
}

#[test]
fn scalars_are_written_as_json() {
    assert_eq!(text(&Json::Null), "null");
    assert_eq!(text(&Json::Bool(true)), "true");
    assert_eq!(text(&Json::Bool(false)), "false");
    assert_eq!(text(&Json::number(0)), "0");
    assert_eq!(text(&Json::number(-17)), "-17");
    assert_eq!(text(&Json::number(i64::MAX)), "9223372036854775807");
    assert_eq!(text(&Json::text("plain")), "\"plain\"");
    assert_eq!(text(&Json::text("tab\there")), "\"tab\\there\"");
    assert_eq!(text(&Json::text("ünï")), "\"ünï\"");
}

#[test]
fn arrays_keep_their_order() {
    let array = Json::array(vec![Json::number(3), Json::number(1), Json::text("2"), Json::Null]);
    assert_eq!(text(&array), "[3,1,\"2\",null]");
    assert_eq!(text(&Json::array(vec![])), "[]");
}

#[test]
fn objects_are_written_with_their_members() {
    let object = Json::object(vec![
        ("a".to_string(), Json::number(1)),
        ("b".to_string(), Json::array(vec![Json::Bool(true)])),
    ]);
    assert_eq!(text(&object), "{\"a\":1,\"b\":[true]}");
    assert_eq!(text(&Json::object(vec![])), "{}");
}

#[test]
fn push_member_adds_only_what_has_a_value() {
    let mut members = Vec::new();
    push_member(&mut members, "first", Some(Json::number(1)));
    push_member(&mut members, "none", None);
    push_member(&mut members, "second", Some(Json::text("two")));
    assert_eq!(members.len(), 2);
    assert_eq!(members[0].0, "first");
    assert_eq!(members[1].0, "second");
    assert_eq!(text(&Json::object(members)), "{\"first\":1,\"second\":\"two\"}");
}

#[test]
fn handshake_payload_declares_version_and_client() {
    assert_eq!(
        text(&handshake_payload("771124766517755954")),
        "{\"client_id\":\"771124766517755954\",\"v\":1}"
    );
}

#[test]
fn set_activity_payload_wraps_the_activity() {
    let payload = set_activity_payload(u32::MAX, "abc", &Activity::new());
    assert_eq!(
        text(&payload),
        "{\"args\":{\"activity\":{},\"pid\":4294967295},\"cmd\":\"SET_ACTIVITY\",\"nonce\":\"abc\"}"
    );
    let value: serde_json::Value = serde_json::from_str(&text(&payload)).unwrap();
    assert_eq!(value["cmd"], "SET_ACTIVITY");
    assert_eq!(value["nonce"], "abc");
    assert_eq!(value["args"]["pid"], 4294967295u32);
    assert!(value["args"]["activity"].as_object().unwrap().is_empty());
}

#[test]
fn close_payload_is_the_empty_object() {
    assert_eq!(text(&close_payload()), "{}");
}

#[test]
fn a_message_is_a_frame_around_the_json_text() {
    let frame = encode_message(Opcode::Close, &close_payload()).unwrap();
    assert_eq!(frame, vec![2, 0, 0, 0, 2, 0, 0, 0, b'{', b'}']);
    let frame = encode_message(Opcode::Frame, &Json::text("é")).unwrap();
    assert_eq!(frame, vec![1, 0, 0, 0, 4, 0, 0, 0, b'"', 0xc3, 0xa9, b'"']);
    let frame = encode_message(Opcode::Pong, &Json::number(12)).unwrap();
    assert_eq!(frame, vec![4, 0, 0, 0, 2, 0, 0, 0, b'1', b'2']);
}

#[test]
fn payloads_are_parsed_as_json() {
    let value = parse_payload(b"{\"cmd\":\"DISPATCH\",\"evt\":\"READY\",\"nonce\":null}").unwrap();
    assert_eq!(value["cmd"], "DISPATCH");
    assert_eq!(value["evt"], "READY");
    assert!(value["nonce"].is_null());
    assert_eq!(parse_payload(b" [1, 2.5, \"x\"] ").unwrap()[1], 2.5);
    assert_eq!(parse_payload(b"{}").unwrap(), serde_json::Value::Object(serde_json::Map::new()));
}

#[test]
fn what_is_not_json_is_a_serialization_error() {
    assert_eq!(parse_payload(b"").err(), Some(IpcError::Serialization));
    assert_eq!(parse_payload(b"{").err(), Some(IpcError::Serialization));
    assert_eq!(parse_payload(b"{} trailing").err(), Some(IpcError::Serialization));
    assert_eq!(parse_payload(b"{\"a\":}").err(), Some(IpcError::Serialization));
    assert_eq!(parse_payload(&[b'"', 0xff, b'"']).err(), Some(IpcError::Serialization));
}

#[test]
fn what_was_written_parses_back() {
    let payload = set_activity_payload(7, "n", &Activity::new().state("s"));
    let bytes = payload.to_bytes().unwrap();
    let value = parse_payload(&bytes).unwrap();
    assert_eq!(value["args"]["activity"]["state"], "s");
    assert_eq!(serde_json::to_vec(&value).unwrap(), bytes);
}

#[test]
fn errors_have_messages() {
    assert_eq!(
        IpcError::EndpointUnreachable.message(),
        "couldn't connect to the Discord IPC socket"
    );
    assert_eq!(IpcError::NotConnected.message(), "not connected to the Discord IPC socket");
    assert_eq!(IpcError::Io.message(), "I/O error on the Discord IPC socket");
    assert_eq!(IpcError::Serialization.message(), "malformed JSON payload");
}

#[test]
fn every_value_has_a_text() {
    let nested = Json::array(vec![
        Json::object(vec![
            ("k".to_string(), Json::Null),
            ("k".to_string(), Json::number(i64::MIN)),
        ]),
        Json::array(vec![Json::text(""), Json::Bool(false)]),
    ]);
    assert_eq!(
        nested.to_bytes(),
        Ok(b"[{\"k\":-9223372036854775808},[\"\",false]]".to_vec())
    );
}

#[test]
fn members_are_written_sorted_by_name() {
    let object = Json::object(vec![
        ("b".to_string(), Json::number(2)),
        ("a".to_string(), Json::number(1)),
    ]);
    assert_eq!(text(&object), "{\"a\":1,\"b\":2}");
}
