use chat_view::error::MalformedFrame;
use chat_view::json::{parse, Json};
use chat_view::protocol::{
    decode, decode_envelope, decode_payload, encode, encode_envelope, encode_payload,
    envelope_from_document, message_frame, payload_from_document, read_list_slot, read_text_slot,
    register_frame, ChatMessage, Envelope, MsgTypes, ProtocolMessage,
};

fn s(text: &str) -> String {
    text.to_string()
}

fn users(names: &[&str]) -> ProtocolMessage {
    ProtocolMessage::Users { names: names.iter().map(|n| n.to_string()).collect() }
}

fn register(name: &str) -> ProtocolMessage {
    ProtocolMessage::Register { name: s(name) }
}

fn message(from: &str, body: &str) -> ProtocolMessage {
    ProtocolMessage::Message { from: s(from), body: s(body) }
}

#[test]
fn tags_are_written_in_lower_case() {
    assert_eq!(MsgTypes::Users.name(), "users");
    assert_eq!(MsgTypes::Register.name(), "register");
    assert_eq!(MsgTypes::Message.name(), "message");
}

#[test]
fn tags_are_recognised_exactly() {
    assert_eq!(MsgTypes::from_name("users"), Some(MsgTypes::Users));
    assert_eq!(MsgTypes::from_name("register"), Some(MsgTypes::Register));
    assert_eq!(MsgTypes::from_name("message"), Some(MsgTypes::Message));
    assert_eq!(MsgTypes::from_name("Users"), None);
    assert_eq!(MsgTypes::from_name("messages"), None);
    assert_eq!(MsgTypes::from_name(""), None);
    assert_eq!(MsgTypes::from_name("typing"), None);
}

#[test]
fn every_tag_is_recognised_from_its_name() {
    for kind in [MsgTypes::Users, MsgTypes::Register, MsgTypes::Message] {
        assert_eq!(MsgTypes::from_name(kind.name()), Some(kind));
    }
}

#[test]
fn encode_writes_an_announcement() {
    assert_eq!(
        encode(&register("alice")),
        "{\"messageType\":\"register\",\"dataArray\":null,\"data\":\"alice\"}"
    );
}

#[test]
fn register_frame_is_the_frame_of_the_announcement() {
    assert_eq!(register_frame("alice"), encode(&register("alice")));
    assert_eq!(
        register_frame("alice"),
        "{\"messageType\":\"register\",\"dataArray\":null,\"data\":\"alice\"}"
    );
}

#[test]
fn encode_writes_a_list_of_users() {
    assert_eq!(
        encode(&users(&["alice", "bob"])),
        "{\"messageType\":\"users\",\"dataArray\":[\"alice\",\"bob\"],\"data\":null}"
    );
    assert_eq!(
        encode(&users(&["alice"])),
        "{\"messageType\":\"users\",\"dataArray\":[\"alice\"],\"data\":null}"
    );
}

#[test]
fn encode_writes_an_empty_list_of_users() {
    assert_eq!(encode(&users(&[])), "{\"messageType\":\"users\",\"dataArray\":[],\"data\":null}");
}

#[test]
fn encode_nests_the_payload_of_a_chat_message() {
    assert_eq!(
        encode(&message("bob", "hi")),
        "{\"messageType\":\"message\",\"dataArray\":null,\"data\":\"{\\\"from\\\":\\\"bob\\\",\\\"message\\\":\\\"hi\\\"}\"}"
    );
}

#[test]
fn encode_payload_writes_both_members() {
    assert_eq!(encode_payload("bob", "hi"), "{\"from\":\"bob\",\"message\":\"hi\"}");
    assert_eq!(encode_payload("", ""), "{\"from\":\"\",\"message\":\"\"}");
}

#[test]
fn encode_escapes_what_json_does_not_take_as_it_is() {
    assert_eq!(
        encode(&register("a\"b\\c\nd")),
        "{\"messageType\":\"register\",\"dataArray\":null,\"data\":\"a\\\"b\\\\c\\nd\"}"
    );
    assert_eq!(
        encode(&users(&["x\ty", "\u{1}"])),
        "{\"messageType\":\"users\",\"dataArray\":[\"x\\ty\",\"\\u0001\"],\"data\":null}"
    );
}

#[test]
fn message_frame_carries_the_text_as_it_is() {
    assert_eq!(
        message_frame("hello world"),
        "{\"messageType\":\"message\",\"dataArray\":null,\"data\":\"hello world\"}"
    );
    assert_eq!(message_frame(""), "{\"messageType\":\"message\",\"dataArray\":null,\"data\":\"\"}");
}

#[test]
fn encode_envelope_writes_any_tag_and_both_slots() {
    let envelope = Envelope {
        message_type: s("typing"),
        data_array: Some(vec![s("a"), s("b"), s("c")]),
        data: Some(s("x")),
    };
    assert_eq!(
        encode_envelope(&envelope),
        "{\"messageType\":\"typing\",\"dataArray\":[\"a\",\"b\",\"c\"],\"data\":\"x\"}"
    );
}

#[test]
fn to_envelope_fills_one_slot() {
    assert_eq!(
        users(&["alice"]).to_envelope(),
        Envelope { message_type: s("users"), data_array: Some(vec![s("alice")]), data: None }
    );
    assert_eq!(
        register("alice").to_envelope(),
        Envelope { message_type: s("register"), data_array: None, data: Some(s("alice")) }
    );
    assert_eq!(
        message("bob", "hi").to_envelope(),
        Envelope {
            message_type: s("message"),
            data_array: None,
            data: Some(s("{\"from\":\"bob\",\"message\":\"hi\"}")),
        }
    );
}

#[test]
fn round_trip_of_an_announcement() {
    let m = register("alice");
    assert_eq!(decode(&encode(&m)), Ok(m));
}

#[test]
fn round_trip_of_a_list_of_users() {
    let m = users(&["alice", "bob", "carol"]);
    assert_eq!(decode(&encode(&m)), Ok(m));
}

#[test]
fn round_trip_of_an_empty_list_of_users() {
    let m = users(&[]);
    assert_eq!(decode(&encode(&m)), Ok(m));
}

#[test]
fn round_trip_of_a_chat_message() {
    let m = message("bob", "hi.gif");
    assert_eq!(decode(&encode(&m)), Ok(m));
}

#[test]
fn round_trip_of_a_chat_message_with_an_empty_body() {
    let m = message("bob", "");
    assert_eq!(decode(&encode(&m)), Ok(m));
}

#[test]
fn round_trip_of_texts_that_need_escapes() {
    for m in [
        register("a\"b\\c\nd\te\r\u{0}\u{1f}"),
        register(""),
        users(&["", "\"", "\\", "{\"from\":1}", "\u{e9}\u{4e2d}\u{1f600}", "null"]),
        message("\"bob\"", "say \"hi\"\\\n{}[],:"),
        message("", ""),
        message("\u{1f600}", "\u{2028}\u{2029}\u{7f}"),
    ] {
        assert_eq!(decode(&encode(&m)), Ok(m));
    }
}

#[test]
fn the_parser_reads_a_frame_as_the_record_of_its_envelope() {
    assert_eq!(
        parse(&encode(&users(&["alice", "bob"]))),
        Ok(Json::Record(vec![
            (s("data"), Json::Null),
            (s("dataArray"), Json::List(vec![Json::Text(s("alice")), Json::Text(s("bob"))])),
            (s("messageType"), Json::Text(s("users"))),
        ]))
    );
    assert_eq!(
        parse(&encode(&register("alice"))),
        Ok(Json::Record(vec![
            (s("data"), Json::Text(s("alice"))),
            (s("dataArray"), Json::Null),
            (s("messageType"), Json::Text(s("register"))),
        ]))
    );
    assert_eq!(
        parse(&encode_payload("bob", "hi")),
        Ok(Json::Record(vec![
            (s("from"), Json::Text(s("bob"))),
            (s("message"), Json::Text(s("hi"))),
        ]))
    );
}

#[test]
fn decode_reads_a_list_of_users() {
    assert_eq!(
        decode("{\"messageType\":\"users\",\"dataArray\":[\"alice\",\"bob\"],\"data\":null}"),
        Ok(users(&["alice", "bob"]))
    );
}

#[test]
fn decode_reads_members_in_any_order_and_with_space() {
    assert_eq!(
        decode(" { \"data\" : null , \"dataArray\" : [ \"alice\" ] , \"messageType\" : \"users\" } "),
        Ok(users(&["alice"]))
    );
}

#[test]
fn decode_takes_a_missing_list_of_users_as_empty() {
    assert_eq!(decode("{\"messageType\":\"users\"}"), Ok(users(&[])));
    assert_eq!(decode("{\"messageType\":\"users\",\"dataArray\":null}"), Ok(users(&[])));
}

#[test]
fn decode_ignores_members_that_it_does_not_know() {
    assert_eq!(
        decode("{\"messageType\":\"register\",\"data\":\"alice\",\"version\":3}"),
        Ok(register("alice"))
    );
}

#[test]
fn decode_reads_a_chat_message_in_two_passes() {
    assert_eq!(
        decode("{\"messageType\":\"message\",\"data\":\"{\\\"from\\\":\\\"bob\\\",\\\"message\\\":\\\"hi.gif\\\"}\"}"),
        Ok(message("bob", "hi.gif"))
    );
}

#[test]
fn decode_rejects_what_is_not_json() {
    assert_eq!(decode("not json"), Err(MalformedFrame));
    assert_eq!(decode(""), Err(MalformedFrame));
    assert_eq!(decode("{\"messageType\":\"users\""), Err(MalformedFrame));
}

#[test]
fn decode_rejects_what_is_no_record() {
    assert_eq!(decode("[\"users\", null, null]"), Err(MalformedFrame));
    assert_eq!(decode("\"users\""), Err(MalformedFrame));
    assert_eq!(decode("null"), Err(MalformedFrame));
}

#[test]
fn decode_rejects_a_frame_without_a_tag() {
    assert_eq!(decode("{}"), Err(MalformedFrame));
    assert_eq!(decode("{\"data\":\"alice\"}"), Err(MalformedFrame));
    assert_eq!(decode("{\"messageType\":null,\"data\":\"alice\"}"), Err(MalformedFrame));
    assert_eq!(decode("{\"messageType\":7,\"data\":\"alice\"}"), Err(MalformedFrame));
    assert_eq!(decode("{\"messagetype\":\"register\",\"data\":\"alice\"}"), Err(MalformedFrame));
}

#[test]
fn decode_rejects_a_tag_that_names_no_kind() {
    assert_eq!(decode("{\"messageType\":\"typing\",\"data\":\"alice\"}"), Err(MalformedFrame));
    assert_eq!(decode("{\"messageType\":\"Users\",\"dataArray\":[]}"), Err(MalformedFrame));
}

#[test]
fn decode_rejects_slots_of_the_wrong_shape() {
    assert_eq!(decode("{\"messageType\":\"users\",\"dataArray\":\"alice\"}"), Err(MalformedFrame));
    assert_eq!(decode("{\"messageType\":\"users\",\"dataArray\":[\"a\",1]}"), Err(MalformedFrame));
    assert_eq!(decode("{\"messageType\":\"users\",\"dataArray\":[null]}"), Err(MalformedFrame));
    assert_eq!(decode("{\"messageType\":\"users\",\"dataArray\":{}}"), Err(MalformedFrame));
    assert_eq!(decode("{\"messageType\":\"register\",\"data\":5}"), Err(MalformedFrame));
    assert_eq!(decode("{\"messageType\":\"register\",\"data\":[\"a\"]}"), Err(MalformedFrame));
    assert_eq!(
        decode("{\"messageType\":\"users\",\"dataArray\":[\"a\"],\"data\":true}"),
        Err(MalformedFrame)
    );
}

#[test]
fn decode_rejects_an_announcement_without_a_name() {
    assert_eq!(decode("{\"messageType\":\"register\"}"), Err(MalformedFrame));
    assert_eq!(decode("{\"messageType\":\"register\",\"data\":null}"), Err(MalformedFrame));
}

#[test]
fn decode_rejects_a_chat_message_without_a_payload() {
    assert_eq!(decode("{\"messageType\":\"message\"}"), Err(MalformedFrame));
    assert_eq!(decode("{\"messageType\":\"message\",\"data\":null}"), Err(MalformedFrame));
    assert_eq!(decode("{\"messageType\":\"message\",\"data\":\"hello\"}"), Err(MalformedFrame));
    assert_eq!(
        decode("{\"messageType\":\"message\",\"data\":\"{\\\"from\\\":\\\"bob\\\"}\"}"),
        Err(MalformedFrame)
    );
}

#[test]
fn decode_envelope_takes_any_tag() {
    assert_eq!(
        decode_envelope("{\"messageType\":\"typing\",\"data\":\"alice\"}"),
        Ok(Envelope { message_type: s("typing"), data_array: None, data: Some(s("alice")) })
    );
    assert_eq!(
        decode_envelope("{\"messageType\":\"\"}"),
        Ok(Envelope { message_type: s(""), data_array: None, data: None })
    );
}

#[test]
fn decode_envelope_gives_back_what_encode_envelope_wrote() {
    for envelope in [
        Envelope { message_type: s("typing"), data_array: None, data: None },
        Envelope { message_type: s("users"), data_array: Some(vec![]), data: Some(s("")) },
        Envelope { message_type: s("a\"b"), data_array: Some(vec![s("x"), s("")]), data: None },
    ] {
        assert_eq!(decode_envelope(&encode_envelope(&envelope)), Ok(envelope));
    }
}

#[test]
fn decode_envelope_rejects_a_frame_of_the_wrong_shape() {
    assert_eq!(decode_envelope("{\"messageType\":\"typing\",\"data\":5}"), Err(MalformedFrame));
    assert_eq!(decode_envelope("{\"data\":\"x\"}"), Err(MalformedFrame));
    assert_eq!(decode_envelope("["), Err(MalformedFrame));
}

#[test]
fn envelope_from_document_reads_the_three_members() {
    let doc = Json::Record(vec![
        (s("messageType"), Json::Text(s("users"))),
        (s("dataArray"), Json::List(vec![Json::Text(s("alice"))])),
        (s("data"), Json::Null),
    ]);
    assert_eq!(
        envelope_from_document(&doc),
        Ok(Envelope { message_type: s("users"), data_array: Some(vec![s("alice")]), data: None })
    );
    assert_eq!(envelope_from_document(&Json::Record(vec![])), Err(MalformedFrame));
    assert_eq!(envelope_from_document(&Json::Text(s("users"))), Err(MalformedFrame));
}

#[test]
fn slots_read_null_and_nothing_alike() {
    assert_eq!(read_text_slot(None), Ok(None));
    assert_eq!(read_text_slot(Some(&Json::Null)), Ok(None));
    assert_eq!(read_text_slot(Some(&Json::Text(s("x")))), Ok(Some(s("x"))));
    assert_eq!(read_text_slot(Some(&Json::Bool(true))), Err(MalformedFrame));
    assert_eq!(read_list_slot(None), Ok(None));
    assert_eq!(read_list_slot(Some(&Json::Null)), Ok(None));
    assert_eq!(read_list_slot(Some(&Json::List(vec![]))), Ok(Some(vec![])));
    assert_eq!(
        read_list_slot(Some(&Json::List(vec![Json::Text(s("a")), Json::Text(s("b"))]))),
        Ok(Some(vec![s("a"), s("b")]))
    );
    assert_eq!(
        read_list_slot(Some(&Json::List(vec![Json::Text(s("a")), Json::Null]))),
        Err(MalformedFrame)
    );
    assert_eq!(read_list_slot(Some(&Json::Text(s("a")))), Err(MalformedFrame));
}

#[test]
fn decode_payload_needs_both_members_as_strings() {
    assert_eq!(
        decode_payload("{\"from\":\"bob\",\"message\":\"hi\"}"),
        Ok(ChatMessage { from: s("bob"), body: s("hi") })
    );
    assert_eq!(
        decode_payload("{\"message\":\"\",\"from\":\"\",\"sent\":12}"),
        Ok(ChatMessage { from: s(""), body: s("") })
    );
    assert_eq!(decode_payload("{\"from\":\"bob\"}"), Err(MalformedFrame));
    assert_eq!(decode_payload("{\"message\":\"hi\"}"), Err(MalformedFrame));
    assert_eq!(decode_payload("{\"from\":\"bob\",\"message\":null}"), Err(MalformedFrame));
    assert_eq!(decode_payload("{\"from\":1,\"message\":\"hi\"}"), Err(MalformedFrame));
    assert_eq!(decode_payload("[\"bob\",\"hi\"]"), Err(MalformedFrame));
    assert_eq!(decode_payload("hello"), Err(MalformedFrame));
}

#[test]
fn payload_from_document_reads_what_encode_payload_wrote() {
    let doc = parse(&encode_payload("bob", "a \"b\"")).unwrap();
    assert_eq!(payload_from_document(&doc), Ok(ChatMessage { from: s("bob"), body: s("a \"b\"") }));
}

#[test]
fn from_envelope_unwraps_each_kind() {
    assert_eq!(
        ProtocolMessage::from_envelope(Envelope {
            message_type: s("users"),
            data_array: Some(vec![s("alice")]),
            data: Some(s("ignored")),
        }),
        Ok(users(&["alice"]))
    );
    assert_eq!(
        ProtocolMessage::from_envelope(Envelope {
            message_type: s("register"),
            data_array: Some(vec![s("ignored")]),
            data: Some(s("alice")),
        }),
        Ok(register("alice"))
    );
    assert_eq!(
        ProtocolMessage::from_envelope(Envelope {
            message_type: s("typing"),
            data_array: None,
            data: None,
        }),
        Err(MalformedFrame)
    );
}
