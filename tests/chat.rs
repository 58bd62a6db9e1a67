use yew_chat::chat::{find_avatar, initials_avatar, project_thread, roster_avatar, Chat, Msg, UserProfile};
use yew_chat::codec::{decode, decode_message, encode, DecodeError, Envelope, MessageData, MsgTypes};
use yew_chat::text::{is_blank, is_gif};

fn profile(name: &str, avatar: &str) -> UserProfile {
    UserProfile { name: name.to_string(), avatar: avatar.to_string() }
}

fn message(from: &str, text: &str) -> MessageData {
    MessageData { from: from.to_string(), message: text.to_string() }
}

fn users_frame(names: &[&str]) -> String {
    encode(&Envelope {
        message_type: MsgTypes::Users,
        data_array: Some(names.iter().map(|n| n.to_string()).collect()),
        data: None,
    })
}

fn message_frame(from: &str, text: &str) -> String {
    let payload = format!(
        "{{\"from\":{},\"message\":{}}}",
        serde_json::to_string(from).unwrap(),
        serde_json::to_string(text).unwrap()
    );
    encode(&Envelope { message_type: MsgTypes::Message, data_array: None, data: Some(payload) })
}

fn new_chat() -> Chat {
    Chat::create("me".to_string()).0
}

#[test]
fn create_announces_user() {
    let (chat, frame) = Chat::create("alice".to_string());
    assert!(chat.users().is_empty());
    assert!(chat.messages().is_empty());
    assert_eq!(chat.username(), "alice");
    let e = decode(&frame).unwrap();
    assert_eq!(
        e,
        Envelope { message_type: MsgTypes::Register, data_array: None, data: Some("alice".to_string()) }
    );
}

#[test]
fn encode_writes_all_members() {
    let text = encode(&Envelope {
        message_type: MsgTypes::Message,
        data_array: None,
        data: Some("hello".to_string()),
    });
    assert_eq!(text, "{\"data\":\"hello\",\"dataArray\":null,\"messageType\":\"message\"}");
    let text = encode(&Envelope {
        message_type: MsgTypes::Users,
        data_array: Some(vec!["a\"b".to_string()]),
        data: None,
    });
    assert_eq!(text, "{\"data\":null,\"dataArray\":[\"a\\\"b\"],\"messageType\":\"users\"}");
}

#[test]
fn round_trip_each_kind() {
    let cases = vec![
        Envelope { message_type: MsgTypes::Users, data_array: Some(vec!["alice".to_string(), "bob".to_string()]), data: None },
        Envelope { message_type: MsgTypes::Users, data_array: Some(vec![]), data: None },
        Envelope { message_type: MsgTypes::Users, data_array: None, data: None },
        Envelope { message_type: MsgTypes::Register, data_array: None, data: Some("carol".to_string()) },
        Envelope { message_type: MsgTypes::Message, data_array: None, data: Some("line \"quoted\" \u{e9}".to_string()) },
        Envelope { message_type: MsgTypes::Message, data_array: Some(vec!["x".to_string()]), data: Some(String::new()) },
    ];
    for e in cases {
        assert_eq!(decode(&encode(&e)), Ok(e.clone()));
    }
}

#[test]
fn decode_accepts_other_layouts() {
    let e = decode(" { \"dataArray\" : [\"a\", \"b\"], \"messageType\": \"users\", \"extra\": 1 } ").unwrap();
    assert_eq!(e.message_type, MsgTypes::Users);
    assert_eq!(e.data_array, Some(vec!["a".to_string(), "b".to_string()]));
    assert_eq!(e.data, None);
}

#[test]
fn decode_errors() {
    assert_eq!(decode("not json"), Err(DecodeError::Syntax));
    assert_eq!(decode("{\"messageType\":\"ping\"}"), Err(DecodeError::UnknownType));
    assert_eq!(decode("{\"messageType\":\"Users\"}"), Err(DecodeError::UnknownType));
    assert_eq!(decode("{\"data\":\"x\"}"), Err(DecodeError::Shape));
    assert_eq!(decode("[1,2]"), Err(DecodeError::Shape));
    assert_eq!(decode("{\"messageType\":3}"), Err(DecodeError::Shape));
    assert_eq!(decode("{\"messageType\":\"users\",\"dataArray\":[1]}"), Err(DecodeError::Shape));
    assert_eq!(decode("{\"messageType\":\"message\",\"data\":[]}"), Err(DecodeError::Shape));
}

#[test]
fn decode_message_reads_payload() {
    assert_eq!(decode_message("{\"from\":\"alice\",\"message\":\"hi\"}"), Ok(message("alice", "hi")));
    assert_eq!(decode_message("{\"from\":\"alice\"}"), Err(DecodeError::Shape));
    assert_eq!(decode_message("{\"from\":1,\"message\":\"hi\"}"), Err(DecodeError::Shape));
    assert_eq!(decode_message("{oops"), Err(DecodeError::Syntax));
}

#[test]
fn users_frame_replaces_roster() {
    let mut chat = new_chat();
    let r = chat.update(Msg::HandleMsg(users_frame(&["alice", "bob", "carol"])));
    assert!(r.rerender);
    assert_eq!(r.send, None);
    let r = chat.update(Msg::HandleMsg(users_frame(&["dave", "alice"])));
    assert!(r.rerender);
    assert_eq!(
        chat.users(),
        &vec![
            profile("dave", "https://avatars.dicebear.com/api/adventurer-neutral/dave.svg"),
            profile("alice", "https://avatars.dicebear.com/api/adventurer-neutral/alice.svg"),
        ]
    );
    let r = chat.update(Msg::HandleMsg("{\"messageType\":\"users\"}".to_string()));
    assert!(r.rerender);
    assert!(chat.users().is_empty());
}

#[test]
fn message_frame_appends() {
    let mut chat = new_chat();
    let r = chat.update(Msg::HandleMsg(message_frame("alice", "one")));
    assert!(r.rerender);
    let r = chat.update(Msg::HandleMsg(message_frame("bob", "two")));
    assert!(r.rerender);
    assert_eq!(chat.messages(), &vec![message("alice", "one"), message("bob", "two")]);
}

#[test]
fn unreadable_frames_are_dropped() {
    let mut chat = new_chat();
    chat.update(Msg::HandleMsg(message_frame("alice", "one")));
    let bad_payload = encode(&Envelope {
        message_type: MsgTypes::Message,
        data_array: None,
        data: Some("not a record".to_string()),
    });
    let no_payload = encode(&Envelope { message_type: MsgTypes::Message, data_array: None, data: None });
    let register = encode(&Envelope { message_type: MsgTypes::Register, data_array: None, data: Some("x".to_string()) });
    for frame in [bad_payload, no_payload, register, "garbage".to_string(), "{\"messageType\":\"ping\"}".to_string()] {
        let r = chat.update(Msg::HandleMsg(frame));
        assert!(!r.rerender);
        assert_eq!(r.send, None);
        assert!(!r.clear_input);
    }
    assert_eq!(chat.messages(), &vec![message("alice", "one")]);
    assert!(chat.users().is_empty());
}

#[test]
fn blank_submit_is_ignored() {
    let mut chat = new_chat();
    let r = chat.update(Msg::SubmitMessage("  ".to_string()));
    assert_eq!(r.send, None);
    assert!(!r.clear_input);
    assert!(!r.rerender);
    let r = chat.update(Msg::SubmitMessage(String::new()));
    assert_eq!(r.send, None);
    let r = chat.update(Msg::SubmitMessage("\t\u{3000}\n".to_string()));
    assert_eq!(r.send, None);
}

#[test]
fn submit_sends_one_frame() {
    let mut chat = new_chat();
    let r = chat.update(Msg::SubmitMessage("hello".to_string()));
    assert!(r.clear_input);
    assert!(!r.rerender);
    let frame = r.send.expect("a frame");
    assert_eq!(
        decode(&frame),
        Ok(Envelope { message_type: MsgTypes::Message, data_array: None, data: Some("hello".to_string()) })
    );
    assert!(chat.messages().is_empty());
    let r = chat.update(Msg::SubmitMessage("  hi  ".to_string()));
    assert_eq!(decode(&r.send.unwrap()).unwrap().data, Some("  hi  ".to_string()));
}

#[test]
fn unknown_sender_gets_initials_avatar() {
    let users = vec![profile("alice", "A")];
    let thread = project_thread(&users, &vec![message("bob", "hi"), message("alice", "yo")]);
    assert_eq!(thread.len(), 2);
    assert_eq!(thread[0].avatar, "https://avatars.dicebear.com/api/initials/bob.svg");
    assert_eq!(thread[0].from, "bob");
    assert_eq!(thread[0].message, "hi");
    assert_eq!(thread[1].avatar, "A");
}

#[test]
fn first_roster_match_wins() {
    let users = vec![profile("alice", "A1"), profile("alice", "A2")];
    assert_eq!(find_avatar(&users, &"alice".to_string()), "A1");
    assert_eq!(find_avatar(&users, &"Alice".to_string()), "https://avatars.dicebear.com/api/initials/Alice.svg");
}

#[test]
fn gif_lines_are_images() {
    assert!(is_gif("cat.gif"));
    assert!(!is_gif("cat.gif.txt"));
    assert!(!is_gif("cat.GIF"));
    assert!(is_gif(".gif"));
    assert!(!is_gif("gif"));
    let thread = project_thread(&vec![], &vec![message("alice", "cat.gif"), message("alice", "cat.gif.txt")]);
    assert!(thread[0].is_image);
    assert!(!thread[1].is_image);
}

#[test]
fn thread_follows_state() {
    let mut chat = new_chat();
    chat.update(Msg::HandleMsg(users_frame(&["alice"])));
    chat.update(Msg::HandleMsg(message_frame("alice", "hey")));
    let thread = chat.thread();
    assert_eq!(thread.len(), 1);
    assert_eq!(thread[0].avatar, "https://avatars.dicebear.com/api/adventurer-neutral/alice.svg");
    assert!(!thread[0].is_image);
}

#[test]
fn avatar_addresses() {
    assert_eq!(roster_avatar("bob"), "https://avatars.dicebear.com/api/adventurer-neutral/bob.svg");
    assert_eq!(initials_avatar("bob"), "https://avatars.dicebear.com/api/initials/bob.svg");
}

#[test]
fn blank_text() {
    assert!(is_blank(""));
    assert!(is_blank(" \t\r\n\u{a0}\u{2003}"));
    assert!(!is_blank(" a "));
    assert!(!is_blank("\u{200b}"));
}
