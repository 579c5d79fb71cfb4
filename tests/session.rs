use yewchat::bus::EventBus;
use yewchat::connection::{ConnState, Connection, SendError};
use yewchat::protocol::{decode_fields, encode, encode_payload, ChatPayload, Envelope, ProtocolError, WireFields};
use yewchat::session::{Chat, LookupError};

fn names(v: &[&str]) -> Vec<String> {
    v.iter().map(|s| s.to_string()).collect()
}

fn payload(from: &str, message: &str) -> ChatPayload {
    ChatPayload { from: from.to_string(), message: message.to_string() }
}

fn roster(c: &Chat) -> Vec<String> {
    c.users().iter().map(|u| u.name.clone()).collect()
}

// Reads a frame as the client does: envelope fields, then the chat payload.
fn read_frame(text: &str) -> (Result<Envelope, ProtocolError>, Option<ChatPayload>) {
    let v: serde_json::Value = match serde_json::from_str(text) {
        Ok(v) => v,
        Err(_) => return (Err(ProtocolError::Malformed), None),
    };
    let w = WireFields {
        message_type: v["messageType"].as_str().unwrap_or("").to_string(),
        data_array: v["dataArray"]
            .as_array()
            .map(|a| a.iter().map(|x| x.as_str().unwrap().to_string()).collect()),
        data: v["data"].as_str().map(|s| s.to_string()),
    };
    let env = decode_fields(w);
    let p = match &env {
        Ok(Envelope::Message(d)) => serde_json::from_str::<serde_json::Value>(d).ok().map(|p| {
            payload(p["from"].as_str().unwrap(), p["message"].as_str().unwrap())
        }),
        _ => None,
    };
    (env, p)
}

#[test]
fn roster_is_replaced() {
    let mut c = Chat::new("alice");
    assert_eq!(c.update(Ok(Envelope::Users(names(&["A", "B"]))), None), Ok(true));
    assert_eq!(roster(&c), names(&["A", "B"]));
    assert_eq!(c.update(Ok(Envelope::Users(names(&["C"]))), None), Ok(true));
    assert_eq!(roster(&c), names(&["C"]));
    assert_eq!(c.users()[0].avatar, "https://api.dicebear.com/9.x/lorelei/svg?seed=C");
}

#[test]
fn frames_applied_in_order() {
    let mut bus = EventBus::new();
    let id = bus.subscribe();
    let mut c = Chat::new("alice");
    for m in ["m1", "m2", "m3"] {
        bus.publish(&encode(&Envelope::Message(encode_payload("bob", m))));
    }
    for f in bus.take(id) {
        let (env, p) = read_frame(&f);
        assert_eq!(c.update(env, p), Ok(true));
    }
    let got: Vec<String> = c.messages().iter().map(|m| m.message.clone()).collect();
    assert_eq!(got, names(&["m1", "m2", "m3"]));
}

#[test]
fn unknown_sender_gets_placeholder() {
    let mut c = Chat::new("alice");
    c.update(Ok(Envelope::Users(names(&["alice"]))), None).unwrap();
    let before = c.messages().len();
    assert_eq!(c.update(Ok(Envelope::Message(String::new())), Some(payload("zed", "hey"))), Ok(true));
    assert_eq!(c.messages().len(), before + 1);
    assert_eq!(c.lookup_avatar("zed"), Err(LookupError::UnknownSender));
    assert_eq!(c.message_avatar(0), "https://api.dicebear.com/9.x/lorelei/svg");
}

#[test]
fn known_sender_avatar() {
    let mut c = Chat::new("alice");
    c.update(Ok(Envelope::Users(names(&["alice", "bob"]))), None).unwrap();
    c.update(Ok(Envelope::Message(String::new())), Some(payload("bob", "hi"))).unwrap();
    assert_eq!(c.lookup_avatar("bob"), Ok("https://api.dicebear.com/9.x/lorelei/svg?seed=bob".to_string()));
    assert_eq!(c.message_avatar(0), "https://api.dicebear.com/9.x/lorelei/svg?seed=bob");
}

#[test]
fn register_and_errors_change_nothing() {
    let mut c = Chat::new("alice");
    assert_eq!(c.update(Ok(Envelope::Register("bob".to_string())), None), Ok(false));
    assert_eq!(c.update(Err(ProtocolError::Malformed), None), Err(ProtocolError::Malformed));
    assert_eq!(c.update(Ok(Envelope::Message("{".to_string())), None), Err(ProtocolError::Malformed));
    let (env, p) = read_frame("not json");
    assert_eq!(c.update(env, p), Err(ProtocolError::Malformed));
    let (env, p) = read_frame(r#"{"messageType":"ping","dataArray":null,"data":null}"#);
    assert_eq!(c.update(env, p), Err(ProtocolError::UnknownVariant));
    assert!(c.users().is_empty());
    assert!(c.messages().is_empty());
}

#[test]
fn empty_submit_sends_nothing() {
    let c = Chat::new("alice");
    assert_eq!(c.submit(""), None);
}

#[test]
fn end_to_end() {
    let mut bus = EventBus::new();
    let id = bus.subscribe();
    let mut chat = Chat::new("alice");
    let mut conn = Connection::connect("ws://localhost:8080", 8);
    assert_eq!(conn.on_open(chat.username()), Ok(()));
    assert_eq!(conn.state(), ConnState::Open);
    assert_eq!(
        conn.next_frame(),
        Some(r#"{"messageType":"register","dataArray":null,"data":"alice"}"#.to_string())
    );

    conn.deliver(r#"{"messageType":"users","dataArray":["alice","bob"],"data":null}"#, &mut bus);
    for f in bus.take(id) {
        let (env, p) = read_frame(&f);
        chat.update(env, p).unwrap();
    }
    assert_eq!(roster(&chat), names(&["alice", "bob"]));
    assert_eq!(chat.users()[1].avatar, "https://api.dicebear.com/9.x/lorelei/svg?seed=bob");

    conn.deliver(
        r#"{"messageType":"message","dataArray":null,"data":"{\"from\":\"bob\",\"message\":\"hi\"}"}"#,
        &mut bus,
    );
    for f in bus.take(id) {
        let (env, p) = read_frame(&f);
        chat.update(env, p).unwrap();
    }
    assert_eq!(chat.messages().len(), 1);
    assert_eq!(chat.messages()[0].from, "bob");
    assert_eq!(chat.messages()[0].message, "hi");

    let frame = chat.submit("yo").unwrap();
    assert_eq!(conn.send(&frame), Ok(()));
    let sent = conn.next_frame().unwrap();
    assert_eq!(conn.next_frame(), None);
    let (env, _) = read_frame(&sent);
    match env {
        Ok(Envelope::Message(d)) => assert_eq!(d, r#"{"from":"alice","message":"yo"}"#),
        _ => panic!("expected a message envelope"),
    }
    assert_eq!(chat.messages().len(), 1);

    conn.close();
    assert_eq!(conn.send("x"), Err(SendError::Closed));
}
