use yewchat::bytes::{bytes_of_text, text_of_bytes};
use yewchat::message::ChatMessage;
use yewchat::session::{Action, ChangeKind, Chat, ProtocolError, SessionState};
use yewchat::wire::{decode_bytes, encode, encode_bytes, DecodeError, Frame};

fn live(username: &str) -> Chat {
    let mut chat = Chat::create(username.to_string());
    chat.start();
    chat.transport_ready();
    chat
}

#[test]
fn text_of_bytes_that_are_utf8() {
    assert_eq!(text_of_bytes(b""), Some(""));
    assert_eq!(text_of_bytes(b"hello"), Some("hello"));
    assert_eq!(text_of_bytes("héllo ✓ 🦀".as_bytes()), Some("héllo ✓ 🦀"));
    assert_eq!(text_of_bytes(&[0xe2, 0x82, 0xac]), Some("€"));
}

#[test]
fn text_of_bytes_that_are_not_utf8() {
    assert_eq!(text_of_bytes(&[0xff]), None);
    assert_eq!(text_of_bytes(&[0xc3]), None);
    assert_eq!(text_of_bytes(&[0xe2, 0x82]), None);
    assert_eq!(text_of_bytes(&[b'a', 0x80, b'b']), None);
    assert_eq!(text_of_bytes(&[0xc0, 0xaf]), None);
    assert_eq!(text_of_bytes(&[0xed, 0xa0, 0x80]), None);
    assert_eq!(text_of_bytes(&[0xf4, 0x90, 0x80, 0x80]), None);
}

#[test]
fn bytes_of_a_text() {
    assert_eq!(bytes_of_text(""), Vec::<u8>::new());
    assert_eq!(bytes_of_text("abc"), vec![0x61, 0x62, 0x63]);
    assert_eq!(bytes_of_text("€"), vec![0xe2, 0x82, 0xac]);
    assert_eq!(bytes_of_text("🦀"), vec![0xf0, 0x9f, 0xa6, 0x80]);
    for text in ["", "plain", "héllo ✓ 🦀", "\u{0}\u{7f}\u{80}\u{7ff}\u{800}\u{ffff}\u{10000}"] {
        assert_eq!(text_of_bytes(&bytes_of_text(text)), Some(text));
    }
}

#[test]
fn frame_as_bytes() {
    let frame = Frame::Register("zoë".to_string());
    assert_eq!(encode_bytes(&frame), encode(&frame).into_bytes());
    assert_eq!(
        encode_bytes(&Frame::Register("a".to_string())),
        br#"{"data":"a","dataArray":null,"messageType":"register"}"#.to_vec()
    );
}

#[test]
fn round_trip_through_bytes() {
    let frames = vec![
        Frame::Users(vec!["alice".to_string(), "böb".to_string()]),
        Frame::Register("🦀".to_string()),
        Frame::Message("line\nbreak".to_string()),
    ];
    for frame in frames {
        assert_eq!(decode_bytes(&encode_bytes(&frame)), Ok(frame));
    }
}

#[test]
fn decode_bytes_refuses_what_is_not_utf8() {
    assert_eq!(decode_bytes(&[0xff, 0xfe, 0xfd]), Err(DecodeError::Encoding));
    let mut bytes = encode_bytes(&Frame::Register("alice".to_string()));
    bytes[10] = 0xff;
    assert_eq!(decode_bytes(&bytes), Err(DecodeError::Encoding));
}

#[test]
fn decode_bytes_refuses_what_decode_refuses() {
    assert_eq!(decode_bytes(b""), Err(DecodeError::Syntax));
    assert_eq!(decode_bytes(b"[]"), Err(DecodeError::Shape));
    assert_eq!(decode_bytes(br#"{"messageType":"x"}"#), Err(DecodeError::UnknownTag));
    assert_eq!(decode_bytes(br#"{"messageType":"users"}"#), Err(DecodeError::PayloadMismatch));
}

#[test]
fn inbound_bytes_are_read_as_their_text() {
    let mut chat = live("alice");
    let users = encode_bytes(&Frame::Users(vec!["alice".to_string(), "bob".to_string()]));
    assert_eq!(
        chat.on_inbound_bytes(&users),
        vec![
            Action::Notify(ChangeKind::RosterChanged),
            Action::Notify(ChangeKind::ConnectionStateChanged),
        ]
    );
    assert_eq!(chat.state(), SessionState::Active);
    let said = ChatMessage { sender: "bob".to_string(), body: "hï".to_string() };
    let message = encode_bytes(&Frame::Message(said.encode()));
    assert_eq!(chat.on_inbound_bytes(&message), vec![Action::Notify(ChangeKind::HistoryChanged)]);
    assert_eq!(chat.current_history(), vec![said]);
}

#[test]
fn inbound_bytes_that_are_malformed_are_reported_once_and_change_nothing() {
    let cases: [(&[u8], DecodeError); 5] = [
        (&[0xff, 0x00, 0x12], DecodeError::Encoding),
        (&[0xc3, 0x28], DecodeError::Encoding),
        (&[], DecodeError::Syntax),
        (b"\x00\x01\x02", DecodeError::Syntax),
        (b"{}", DecodeError::Shape),
    ];
    for (bytes, expected) in cases {
        let mut chat = live("alice");
        let actions = chat.on_inbound_bytes(bytes);
        assert_eq!(
            actions,
            vec![Action::Notify(ChangeKind::ProtocolError(ProtocolError::Decode(expected)))]
        );
        assert_eq!(chat.state(), SessionState::Registering);
        assert!(chat.current_roster().is_empty());
        assert!(chat.current_history().is_empty());
        let users = encode_bytes(&Frame::Users(vec!["alice".to_string()]));
        chat.on_inbound_bytes(&users);
        assert_eq!(chat.state(), SessionState::Active);
    }
}

#[test]
fn inbound_bytes_are_passed_over_unless_live() {
    let mut fresh = Chat::create("alice".to_string());
    assert_eq!(fresh.on_inbound_bytes(&[0xff]), Vec::new());
    assert_eq!(fresh.on_inbound_bytes(b"{}"), Vec::new());
    let mut closed = live("alice");
    closed.stop();
    assert_eq!(closed.on_inbound_bytes(&[0xff]), Vec::new());
    assert_eq!(closed.state(), SessionState::Closed);
}
