use yew_chat::session::{
    avatar_url, decode_chat_message, Chat, ChatMessage, Msg, SessionState, Theme, UserProfile,
};
use yew_chat::wire::DecodeError;

fn s(x: &str) -> String {
    x.to_string()
}

fn users_frame(names: &[&str]) -> String {
    let quoted: Vec<String> = names.iter().map(|n| format!("\"{}\"", n)).collect();
    format!("{{\"messageType\":\"users\",\"dataArray\":[{}]}}", quoted.join(","))
}

fn message_frame(from: &str, text: &str) -> String {
    let inner = format!("{{\"from\":\"{}\",\"message\":\"{}\"}}", from, text);
    format!("{{\"messageType\":\"message\",\"data\":{:?}}}", inner)
}

fn names(chat: &Chat) -> Vec<String> {
    chat.users().iter().map(|u| u.name.clone()).collect()
}

#[test]
fn avatar_template() {
    assert_eq!(avatar_url("bob"), "https://avatars.dicebear.com/api/adventurer-neutral/bob.svg");
}

#[test]
fn scenario_alice() {
    let (mut chat, frame) = Chat::create(s("alice"));
    assert_eq!(frame, "{\"messageType\":\"register\",\"data\":\"alice\"}");
    let (changed, out, _) = chat.update(Msg::HandleMsg(s("{\"messageType\":\"users\",\"dataArray\":[\"alice\",\"bob\"]}")));
    assert!(changed);
    assert_eq!(out, None);
    assert_eq!(
        chat.users(),
        &vec![
            UserProfile { name: s("alice"), avatar: avatar_url("alice") },
            UserProfile { name: s("bob"), avatar: avatar_url("bob") },
        ]
    );
    let text = "{\"messageType\":\"message\",\"data\":\"{\\\"from\\\":\\\"bob\\\",\\\"message\\\":\\\"hi\\\"}\"}";
    let (changed, out, _) = chat.update(Msg::HandleMsg(s(text)));
    assert!(changed);
    assert_eq!(out, None);
    assert_eq!(chat.messages(), &vec![ChatMessage { from: s("bob"), message: s("hi") }]);
}

#[test]
fn roster_replaced_wholesale() {
    let (mut chat, _) = Chat::create(s("alice"));
    chat.update(Msg::HandleMsg(users_frame(&["alice", "bob", "carol"])));
    assert_eq!(names(&chat), vec![s("alice"), s("bob"), s("carol")]);
    chat.update(Msg::HandleMsg(users_frame(&["dave", "alice"])));
    assert_eq!(names(&chat), vec![s("dave"), s("alice")]);
    let (changed, _, _) = chat.update(Msg::HandleMsg(users_frame(&["dave", "alice"])));
    assert!(changed);
    chat.update(Msg::HandleMsg(users_frame(&[])));
    assert!(chat.users().is_empty());
}

#[test]
fn log_keeps_order() {
    let (mut chat, _) = Chat::create(s("alice"));
    chat.update(Msg::HandleMsg(message_frame("bob", "one")));
    chat.update(Msg::HandleMsg(users_frame(&["carol"])));
    chat.update(Msg::HandleMsg(message_frame("carol", "two")));
    chat.update(Msg::HandleMsg(message_frame("bob", "three.gif")));
    let log: Vec<(String, String)> =
        chat.messages().iter().map(|m| (m.from.clone(), m.message.clone())).collect();
    assert_eq!(
        log,
        vec![(s("bob"), s("one")), (s("carol"), s("two")), (s("bob"), s("three.gif"))]
    );
}

#[test]
fn bad_chat_message_changes_nothing() {
    let (mut chat, _) = Chat::create(s("alice"));
    chat.update(Msg::HandleMsg(users_frame(&["alice"])));
    chat.update(Msg::HandleMsg(message_frame("bob", "hi")));
    for data in ["not json", "{\"from\":\"bob\"}", "{\"from\":1,\"message\":\"x\"}"] {
        let text = format!("{{\"messageType\":\"message\",\"data\":{:?}}}", data);
        let (changed, out, _) = chat.update(Msg::HandleMsg(text));
        assert!(!changed);
        assert_eq!(out, None);
    }
    assert_eq!(chat.messages().len(), 1);
    assert_eq!(names(&chat), vec![s("alice")]);
}

#[test]
fn undecodable_frames_are_dropped() {
    let (mut chat, _) = Chat::create(s("alice"));
    for text in ["garbage", "{\"messageType\":\"ping\"}", "{\"messageType\":\"users\"}"] {
        let (changed, out, _) = chat.update(Msg::HandleMsg(s(text)));
        assert!(!changed);
        assert_eq!(out, None);
    }
    assert!(chat.users().is_empty());
    assert!(chat.messages().is_empty());
    assert_eq!(chat.state(), SessionState::Active);
}

#[test]
fn inbound_register_is_ignored() {
    let (mut chat, _) = Chat::create(s("alice"));
    let (changed, out, _) = chat.update(Msg::HandleMsg(s("{\"messageType\":\"register\",\"data\":\"bob\"}")));
    assert!(!changed);
    assert_eq!(out, None);
    assert!(chat.users().is_empty());
}

#[test]
fn one_registration_per_connection() {
    let (mut chat, frame) = Chat::create(s("alice"));
    assert_eq!(frame, "{\"messageType\":\"register\",\"data\":\"alice\"}");
    assert_eq!(chat.update(Msg::Connected), (false, None, None));
    let (_, out, _) = chat.update(Msg::SubmitMessage(s("hi")));
    assert_eq!(out, Some(s("{\"messageType\":\"message\",\"data\":\"hi\"}")));
    assert_eq!(chat.update(Msg::Disconnected), (false, None, None));
    assert_eq!(chat.state(), SessionState::Closed);
    let (_, out, _) = chat.update(Msg::Connected);
    assert_eq!(out, Some(s("{\"messageType\":\"register\",\"data\":\"alice\"}")));
    assert_eq!(chat.update(Msg::Connected), (false, None, None));
    assert_eq!(chat.username(), "alice");
}

#[test]
fn submit_empty_sends_nothing() {
    let (mut chat, _) = Chat::create(s("alice"));
    assert_eq!(chat.update(Msg::SubmitMessage(s(""))), (false, None, None));
}

#[test]
fn submit_hello_sends_one_frame() {
    let (mut chat, _) = Chat::create(s("alice"));
    let (changed, out, _) = chat.update(Msg::SubmitMessage(s("hello")));
    assert!(!changed);
    assert_eq!(out, Some(s("{\"messageType\":\"message\",\"data\":\"hello\"}")));
    assert!(chat.messages().is_empty());
}

#[test]
fn closed_session_takes_no_changes() {
    let (mut chat, _) = Chat::create(s("alice"));
    chat.update(Msg::HandleMsg(users_frame(&["alice"])));
    chat.update(Msg::Disconnected);
    assert_eq!(chat.update(Msg::HandleMsg(users_frame(&["bob"]))), (false, None, None));
    assert_eq!(chat.update(Msg::HandleMsg(message_frame("bob", "hi"))), (false, None, None));
    assert_eq!(chat.update(Msg::SubmitMessage(s("hello"))), (false, None, None));
    assert_eq!(names(&chat), vec![s("alice")]);
    assert!(chat.messages().is_empty());
}

#[test]
fn toggle_theme_flips() {
    let (mut chat, _) = Chat::create(s("alice"));
    assert_eq!(chat.theme(), Theme::Light);
    assert_eq!(chat.update(Msg::ToggleTheme), (true, None, None));
    assert_eq!(chat.theme(), Theme::Dark);
    chat.update(Msg::ToggleTheme);
    assert_eq!(chat.theme(), Theme::Light);
}

#[test]
fn dropped_frames_report_why() {
    let (mut chat, _) = Chat::create(s("alice"));
    assert_eq!(
        chat.update(Msg::HandleMsg(s("garbage"))),
        (false, None, Some(DecodeError::Malformed))
    );
    assert_eq!(
        chat.update(Msg::HandleMsg(s("{\"messageType\":\"ping\"}"))),
        (false, None, Some(DecodeError::UnknownType))
    );
    assert_eq!(
        chat.update(Msg::HandleMsg(s("{\"messageType\":\"message\",\"data\":\"nope\"}"))),
        (false, None, Some(DecodeError::BadChatMessage))
    );
    assert_eq!(
        chat.update(Msg::HandleMsg(s("{\"messageType\":\"register\",\"data\":\"bob\"}"))),
        (false, None, None)
    );
}

#[test]
fn chat_message_decoding() {
    assert_eq!(
        decode_chat_message("{\"from\":\"bob\",\"message\":\"hi\",\"extra\":1}"),
        Ok(ChatMessage { from: s("bob"), message: s("hi") })
    );
    assert_eq!(decode_chat_message("{\"from\":\"bob\"}"), Err(DecodeError::BadChatMessage));
    assert_eq!(decode_chat_message("{\"from\":null,\"message\":\"hi\"}"), Err(DecodeError::BadChatMessage));
    assert_eq!(decode_chat_message("[\"bob\",\"hi\"]"), Err(DecodeError::BadChatMessage));
    assert_eq!(decode_chat_message("hi"), Err(DecodeError::BadChatMessage));
}
