use yewchat::protocol::{
    decode_fields, encode, encode_fields, encode_payload, ChatPayload, Envelope, MsgTypes,
    ProtocolError, WireFields,
};

fn fields_from_text(text: &str) -> WireFields {
    let v: serde_json::Value = serde_json::from_str(text).unwrap();
    WireFields {
        message_type: v["messageType"].as_str().unwrap().to_string(),
        data_array: v["dataArray"]
            .as_array()
            .map(|a| a.iter().map(|x| x.as_str().unwrap().to_string()).collect()),
        data: v["data"].as_str().map(|s| s.to_string()),
    }
}

fn names(v: &[&str]) -> Vec<String> {
    v.iter().map(|s| s.to_string()).collect()
}

#[test]
fn tags_are_lowercase() {
    assert_eq!(MsgTypes::Users.tag(), "users");
    assert_eq!(MsgTypes::Register.tag(), "register");
    assert_eq!(MsgTypes::Message.tag(), "message");
    assert_eq!(MsgTypes::from_tag("users"), Some(MsgTypes::Users));
    assert_eq!(MsgTypes::from_tag("register"), Some(MsgTypes::Register));
    assert_eq!(MsgTypes::from_tag("message"), Some(MsgTypes::Message));
    assert_eq!(MsgTypes::from_tag("Users"), None);
    assert_eq!(MsgTypes::from_tag(""), None);
}

#[test]
fn encode_users_text() {
    let e = Envelope::Users(names(&["alice", "bob"]));
    assert_eq!(encode(&e), r#"{"messageType":"users","dataArray":["alice","bob"],"data":null}"#);
    let empty = Envelope::Users(vec![]);
    assert_eq!(encode(&empty), r#"{"messageType":"users","dataArray":[],"data":null}"#);
}

#[test]
fn encode_register_and_message_text() {
    let r = Envelope::Register("alice".to_string());
    assert_eq!(encode(&r), r#"{"messageType":"register","dataArray":null,"data":"alice"}"#);
    let m = Envelope::Message("hi".to_string());
    assert_eq!(encode(&m), r#"{"messageType":"message","dataArray":null,"data":"hi"}"#);
}

#[test]
fn encode_escapes_strings() {
    let r = Envelope::Register("a\"b\\c".to_string());
    assert_eq!(encode(&r), r#"{"messageType":"register","dataArray":null,"data":"a\"b\\c"}"#);
    assert_eq!(encode_payload("bob", "say \"hi\""), r#"{"from":"bob","message":"say \"hi\""}"#);
}

fn round_trip(e: Envelope) {
    let text = encode(&e);
    let back = decode_fields(fields_from_text(&text)).unwrap();
    assert_eq!(format!("{:?}", back), format!("{:?}", e));
    let back2 = decode_fields(encode_fields(&e)).unwrap();
    assert_eq!(format!("{:?}", back2), format!("{:?}", e));
}

#[test]
fn round_trip_every_variant() {
    round_trip(Envelope::Users(names(&["alice", "bob", "c\"d"])));
    round_trip(Envelope::Users(vec![]));
    round_trip(Envelope::Register("alice".to_string()));
    round_trip(Envelope::Message(encode_payload("bob", "hi")));
}

#[test]
fn decode_unknown_variant() {
    let w = WireFields { message_type: "ping".to_string(), data_array: None, data: Some("x".to_string()) };
    assert_eq!(decode_fields(w).unwrap_err(), ProtocolError::UnknownVariant);
}

#[test]
fn decode_rejects_users_with_data() {
    let w = WireFields {
        message_type: "users".to_string(),
        data_array: Some(names(&["a"])),
        data: Some("x".to_string()),
    };
    assert_eq!(decode_fields(w).unwrap_err(), ProtocolError::SchemaViolation);
    let w = WireFields { message_type: "users".to_string(), data_array: None, data: None };
    assert_eq!(decode_fields(w).unwrap_err(), ProtocolError::SchemaViolation);
}

#[test]
fn decode_rejects_message_with_data_array() {
    let w = WireFields {
        message_type: "message".to_string(),
        data_array: Some(vec![]),
        data: Some("x".to_string()),
    };
    assert_eq!(decode_fields(w).unwrap_err(), ProtocolError::SchemaViolation);
    let w = WireFields {
        message_type: "register".to_string(),
        data_array: Some(names(&["a"])),
        data: Some("x".to_string()),
    };
    assert_eq!(decode_fields(w).unwrap_err(), ProtocolError::SchemaViolation);
    let w = WireFields { message_type: "register".to_string(), data_array: None, data: None };
    assert_eq!(decode_fields(w).unwrap_err(), ProtocolError::SchemaViolation);
}

#[test]
fn gif_hint() {
    let p = ChatPayload { from: "bob".to_string(), message: "https://x/cat.gif".to_string() };
    assert!(p.is_image());
    let p = ChatPayload { from: "bob".to_string(), message: "gif".to_string() };
    assert!(!p.is_image());
    let p = ChatPayload { from: "bob".to_string(), message: ".gif!".to_string() };
    assert!(!p.is_image());
}
