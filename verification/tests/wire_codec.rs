use yewchat::wire::{decode, encode, DecodeError, Envelope, Frame, MsgTypes};

fn names(list: &[&str]) -> Vec<String> {
    list.iter().map(|name| name.to_string()).collect()
}

fn parse(text: &str) -> serde_json::Value {
    serde_json::from_str::<serde_json::Value>(text).unwrap()
}

#[test]
fn encode_register_writes_the_envelope() {
    let text = encode(&Frame::Register("alice".to_string()));
    assert_eq!(text, r#"{"data":"alice","dataArray":null,"messageType":"register"}"#);
}

#[test]
fn encode_users_writes_the_envelope() {
    let text = encode(&Frame::Users(names(&["alice", "bob"])));
    assert_eq!(text, r#"{"data":null,"dataArray":["alice","bob"],"messageType":"users"}"#);
}

#[test]
fn encode_message_writes_the_envelope() {
    let text = encode(&Frame::Message("hi".to_string()));
    assert_eq!(text, r#"{"data":"hi","dataArray":null,"messageType":"message"}"#);
}

#[test]
fn encode_escapes_what_json_escapes() {
    let text = encode(&Frame::Register("a\"b\\c\nd".to_string()));
    assert_eq!(text, r#"{"data":"a\"b\\c\nd","dataArray":null,"messageType":"register"}"#);
}

#[test]
fn encode_is_deterministic() {
    let frame = Frame::Users(names(&["carol", "alice"]));
    assert_eq!(encode(&frame), encode(&frame.clone()));
}

#[test]
fn decode_reads_members_in_any_order() {
    let text = r#"{"messageType":"register","dataArray":null,"data":"alice"}"#;
    assert_eq!(decode(text), Ok(Frame::Register("alice".to_string())));
}

#[test]
fn decode_users() {
    let text = r#"{"messageType":"users","dataArray":["alice","bob"],"data":null}"#;
    assert_eq!(decode(text), Ok(Frame::Users(names(&["alice", "bob"]))));
}

#[test]
fn decode_users_with_nobody_online() {
    let text = r#"{"messageType":"users","dataArray":[]}"#;
    assert_eq!(decode(text), Ok(Frame::Users(Vec::new())));
}

#[test]
fn decode_message_keeps_the_payload_as_text() {
    let text = r#"{"messageType":"message","data":"not even json"}"#;
    assert_eq!(decode(text), Ok(Frame::Message("not even json".to_string())));
}

#[test]
fn decode_takes_a_missing_member_for_null() {
    let text = r#"{"messageType":"message","data":"x"}"#;
    assert_eq!(decode(text), Ok(Frame::Message("x".to_string())));
}

#[test]
fn decode_passes_over_other_members() {
    let text = r#"{"messageType":"register","data":"alice","seq":17,"extra":{"a":[1,2]}}"#;
    assert_eq!(decode(text), Ok(Frame::Register("alice".to_string())));
}

#[test]
fn decode_refuses_what_is_not_json() {
    assert_eq!(decode(""), Err(DecodeError::Syntax));
    assert_eq!(decode("hello"), Err(DecodeError::Syntax));
    assert_eq!(decode(r#"{"messageType":"users""#), Err(DecodeError::Syntax));
    assert_eq!(decode(r#"{"messageType":"users"} trailing"#), Err(DecodeError::Syntax));
}

#[test]
fn decode_refuses_what_is_no_object() {
    assert_eq!(decode("null"), Err(DecodeError::Shape));
    assert_eq!(decode("42"), Err(DecodeError::Shape));
    assert_eq!(decode(r#""users""#), Err(DecodeError::Shape));
    assert_eq!(decode(r#"["users",null,null]"#), Err(DecodeError::Shape));
}

#[test]
fn decode_refuses_a_missing_tag() {
    assert_eq!(decode("{}"), Err(DecodeError::Shape));
    assert_eq!(decode(r#"{"data":"alice"}"#), Err(DecodeError::Shape));
    assert_eq!(decode(r#"{"messageType":null,"data":"alice"}"#), Err(DecodeError::Shape));
    assert_eq!(decode(r#"{"messageType":1,"data":"alice"}"#), Err(DecodeError::Shape));
}

#[test]
fn decode_refuses_an_unknown_tag() {
    assert_eq!(decode(r#"{"messageType":"ping","data":"x"}"#), Err(DecodeError::UnknownTag));
    assert_eq!(decode(r#"{"messageType":"Users","dataArray":[]}"#), Err(DecodeError::UnknownTag));
    assert_eq!(decode(r#"{"messageType":"","data":"x"}"#), Err(DecodeError::UnknownTag));
}

#[test]
fn decode_refuses_a_payload_of_the_wrong_json_type() {
    assert_eq!(decode(r#"{"messageType":"register","data":5}"#), Err(DecodeError::Shape));
    assert_eq!(decode(r#"{"messageType":"register","data":["a"]}"#), Err(DecodeError::Shape));
    assert_eq!(decode(r#"{"messageType":"users","dataArray":"alice"}"#), Err(DecodeError::Shape));
    assert_eq!(decode(r#"{"messageType":"users","dataArray":["a",1]}"#), Err(DecodeError::Shape));
    assert_eq!(decode(r#"{"messageType":"users","dataArray":["a",null]}"#), Err(DecodeError::Shape));
    assert_eq!(decode(r#"{"messageType":"users","dataArray":{"a":"b"}}"#), Err(DecodeError::Shape));
}

#[test]
fn decode_refuses_a_payload_that_does_not_fit_the_tag() {
    assert_eq!(
        decode(r#"{"messageType":"users","dataArray":null,"data":"alice"}"#),
        Err(DecodeError::PayloadMismatch)
    );
    assert_eq!(
        decode(r#"{"messageType":"users","dataArray":["a"],"data":"alice"}"#),
        Err(DecodeError::PayloadMismatch)
    );
    assert_eq!(decode(r#"{"messageType":"users"}"#), Err(DecodeError::PayloadMismatch));
    assert_eq!(
        decode(r#"{"messageType":"register","dataArray":["alice"]}"#),
        Err(DecodeError::PayloadMismatch)
    );
    assert_eq!(
        decode(r#"{"messageType":"register","dataArray":[],"data":"alice"}"#),
        Err(DecodeError::PayloadMismatch)
    );
    assert_eq!(decode(r#"{"messageType":"message"}"#), Err(DecodeError::PayloadMismatch));
    assert_eq!(
        decode(r#"{"messageType":"message","dataArray":["x"],"data":"x"}"#),
        Err(DecodeError::PayloadMismatch)
    );
}

#[test]
fn decode_never_falls_back_to_a_default_frame() {
    for text in ["{}", "[]", r#"{"messageType":"nope"}"#, r#"{"messageType":"users"}"#, "{"] {
        assert!(decode(text).is_err());
    }
}

#[test]
fn round_trip_of_every_kind_of_frame() {
    let frames = vec![
        Frame::Users(Vec::new()),
        Frame::Users(names(&["alice"])),
        Frame::Users(names(&["alice", "bob", "alice", ""])),
        Frame::Register(String::new()),
        Frame::Register("alice".to_string()),
        Frame::Message(String::new()),
        Frame::Message(r#"{"from":"alice","message":"hello.gif"}"#.to_string()),
    ];
    for frame in frames {
        assert_eq!(decode(&encode(&frame)), Ok(frame));
    }
}

#[test]
fn round_trip_of_text_that_needs_escapes() {
    let hard = [
        "quote \" backslash \\ slash /",
        "line\nfeed\ttab\rreturn",
        "\u{0}\u{1}\u{1f}\u{7f}",
        "\u{2028}\u{2029}",
        "héllo wörld ✓ 日本語",
        "🦀 and \u{10ffff}",
        "{\"messageType\":\"users\"}",
        "null",
    ];
    for text in hard {
        let register = Frame::Register(text.to_string());
        assert_eq!(decode(&encode(&register)), Ok(register));
        let message = Frame::Message(text.to_string());
        assert_eq!(decode(&encode(&message)), Ok(message));
        let users = Frame::Users(names(&[text, "plain", text]));
        assert_eq!(decode(&encode(&users)), Ok(users));
    }
}

#[test]
fn frames_that_differ_are_written_differently() {
    let register = encode(&Frame::Register("x".to_string()));
    let message = encode(&Frame::Message("x".to_string()));
    let users = encode(&Frame::Users(names(&["x"])));
    assert_ne!(register, message);
    assert_ne!(register, users);
    assert_ne!(message, users);
}

#[test]
fn tag_tokens() {
    assert_eq!(MsgTypes::Users.as_str(), "users");
    assert_eq!(MsgTypes::Register.as_str(), "register");
    assert_eq!(MsgTypes::Message.as_str(), "message");
    assert_eq!(MsgTypes::from_token("users"), Some(MsgTypes::Users));
    assert_eq!(MsgTypes::from_token("register"), Some(MsgTypes::Register));
    assert_eq!(MsgTypes::from_token("message"), Some(MsgTypes::Message));
    assert_eq!(MsgTypes::from_token("messages"), None);
    assert_eq!(MsgTypes::from_token("USERS"), None);
    assert_eq!(MsgTypes::from_token(""), None);
}

#[test]
fn tag_of_a_frame() {
    assert_eq!(Frame::Users(Vec::new()).message_type(), MsgTypes::Users);
    assert_eq!(Frame::Register("a".to_string()).message_type(), MsgTypes::Register);
    assert_eq!(Frame::Message("a".to_string()).message_type(), MsgTypes::Message);
}

#[test]
fn envelope_of_a_frame() {
    assert_eq!(
        Frame::Users(names(&["alice"])).to_envelope(),
        Envelope { message_type: MsgTypes::Users, data_array: Some(names(&["alice"])), data: None }
    );
    assert_eq!(
        Frame::Register("alice".to_string()).to_envelope(),
        Envelope {
            message_type: MsgTypes::Register,
            data_array: None,
            data: Some("alice".to_string())
        }
    );
    assert_eq!(
        Frame::Message("hi".to_string()).to_envelope(),
        Envelope { message_type: MsgTypes::Message, data_array: None, data: Some("hi".to_string()) }
    );
}

#[test]
fn frame_of_an_envelope() {
    let fits = Envelope {
        message_type: MsgTypes::Message,
        data_array: None,
        data: Some("hi".to_string()),
    };
    assert_eq!(Frame::from_envelope(fits), Ok(Frame::Message("hi".to_string())));
    let both = Envelope {
        message_type: MsgTypes::Message,
        data_array: Some(Vec::new()),
        data: Some("hi".to_string()),
    };
    assert_eq!(Frame::from_envelope(both), Err(DecodeError::PayloadMismatch));
    let neither = Envelope { message_type: MsgTypes::Users, data_array: None, data: None };
    assert_eq!(Frame::from_envelope(neither), Err(DecodeError::PayloadMismatch));
    let other = Envelope {
        message_type: MsgTypes::Register,
        data_array: Some(names(&["alice"])),
        data: None,
    };
    assert_eq!(Frame::from_envelope(other), Err(DecodeError::PayloadMismatch));
}

#[test]
fn envelope_of_a_json_value() {
    let value = parse(r#"{"messageType":"users","dataArray":["alice","bob"],"data":null}"#);
    assert_eq!(
        Envelope::from_value(&value),
        Ok(Envelope {
            message_type: MsgTypes::Users,
            data_array: Some(names(&["alice", "bob"])),
            data: None
        })
    );
    let both = parse(r#"{"messageType":"users","dataArray":["alice"],"data":"x"}"#);
    assert_eq!(
        Envelope::from_value(&both),
        Ok(Envelope {
            message_type: MsgTypes::Users,
            data_array: Some(names(&["alice"])),
            data: Some("x".to_string())
        })
    );
    assert_eq!(Envelope::from_value(&parse("[]")), Err(DecodeError::Shape));
    assert_eq!(Envelope::from_value(&parse(r#"{"messageType":"x"}"#)), Err(DecodeError::UnknownTag));
}

#[test]
fn json_value_of_an_envelope() {
    let envelope = Envelope {
        message_type: MsgTypes::Users,
        data_array: Some(names(&["alice", "bob"])),
        data: None,
    };
    let value = envelope.clone().to_value();
    assert_eq!(value, parse(r#"{"messageType":"users","dataArray":["alice","bob"],"data":null}"#));
    assert_eq!(Envelope::from_value(&value), Ok(envelope));
}

#[test]
fn frame_of_a_json_value() {
    let value = parse(r#"{"data":"alice","messageType":"register"}"#);
    assert_eq!(Frame::from_value(&value), Ok(Frame::Register("alice".to_string())));
    let mismatch = parse(r#"{"data":"alice","messageType":"users"}"#);
    assert_eq!(Frame::from_value(&mismatch), Err(DecodeError::PayloadMismatch));
}

#[test]
fn round_trip_of_every_character() {
    let mut block = String::new();
    for code in 0..=0x10ffffu32 {
        if let Some(c) = char::from_u32(code) {
            block.push(c);
            if block.len() >= 4096 {
                let frame = Frame::Register(std::mem::take(&mut block));
                assert_eq!(decode(&encode(&frame)), Ok(frame));
            }
        }
    }
    let frame = Frame::Users(vec![block.clone(), block]);
    assert_eq!(decode(&encode(&frame)), Ok(frame));
}

#[test]
fn round_trip_of_every_control_and_ascii_character_alone() {
    for code in 0..=0x7fu32 {
        let text = char::from_u32(code).unwrap().to_string();
        let message = Frame::Message(text.clone());
        assert_eq!(decode(&encode(&message)), Ok(message));
        let users = Frame::Users(vec![text.clone(), text]);
        assert_eq!(decode(&encode(&users)), Ok(users));
    }
}
