//! The wire codec: frames to and from the JSON text that travels on the
//! transport.
//!
//! A frame travels as an envelope, a JSON object with the members
//! `messageType`, `dataArray` and `data`. Reading goes in three steps: the text
//! is parsed to a JSON value, the value is read as an envelope, and the
//! envelope is taken for a frame if its tag and its payload agree. Writing goes
//! back the same way.

use crate::bytes::{bytes_of_text, text_of_bytes};
use crate::json::{
    is_flat_record, json_parsed, json_tree, json_written, member, null_value, parse_json,
    set_member, text_list_value, text_value, tree_member, write_json, JsonTree,
};
use vstd::prelude::*;
use vstd::string::StringExecFns;
use vstd::utf8::{decode_utf8, encode_utf8, valid_utf8};

verus! {

/// The tag of a frame.
#[derive(Clone, Copy, Debug, PartialEq, Eq, Structural)]
pub enum MsgTypes {
    Users,
    Register,
    Message,
}

/// Why bytes or a text were not taken for a frame or for a chat message.
#[derive(Clone, Copy, Debug, PartialEq, Eq, Structural)]
pub enum DecodeError {
    /// The bytes are not UTF-8.
    Encoding,
    /// The text is not JSON.
    Syntax,
    /// The JSON value is no object, or a member that is needed is missing or
    /// of the wrong JSON type.
    Shape,
    /// The tag is a string other than the three tokens.
    UnknownTag,
    /// The payload that the tag calls for is missing, or the other one is
    /// there.
    PayloadMismatch,
}

/// The three members of the JSON object, as they were read.
#[derive(Clone, Debug, PartialEq, Eq)]
pub struct Envelope {
    pub message_type: MsgTypes,
    pub data_array: Option<Vec<String>>,
    pub data: Option<String>,
}

pub struct EnvelopeView {
    pub message_type: MsgTypes,
    pub data_array: Option<Seq<Seq<char>>>,
    pub data: Option<Seq<char>>,
}

/// One protocol message.
#[derive(Clone, Debug, PartialEq, Eq)]
pub enum Frame {
    /// The names of the users that are online, as the server lists them.
    Users(Vec<String>),
    /// The name that a client announces itself with.
    Register(String),
    /// A chat line, still encoded.
    Message(String),
}

pub enum FrameView {
    Users(Seq<Seq<char>>),
    Register(Seq<char>),
    Message(Seq<char>),
}

/// The texts that a sequence of strings holds.
pub open spec fn texts(strings: Seq<String>) -> Seq<Seq<char>> {
    strings.map_values(|s: String| s@)
}

/// The string values that stand for a sequence of texts.
pub open spec fn text_trees(names: Seq<Seq<char>>) -> Seq<JsonTree> {
    names.map_values(|name: Seq<char>| JsonTree::Text(name))
}

impl View for Envelope {
    type V = EnvelopeView;

    open spec fn view(&self) -> EnvelopeView {
        EnvelopeView {
            message_type: self.message_type,
            data_array: match self.data_array {
                Some(names) => Some(texts(names@)),
                None => None,
            },
            data: match self.data {
                Some(text) => Some(text@),
                None => None,
            },
        }
    }
}

impl View for Frame {
    type V = FrameView;

    open spec fn view(&self) -> FrameView {
        match self {
            Frame::Users(names) => FrameView::Users(texts(names@)),
            Frame::Register(name) => FrameView::Register(name@),
            Frame::Message(payload) => FrameView::Message(payload@),
        }
    }
}

impl MsgTypes {
    /// The token that stands for the tag on the wire.
    pub open spec fn token(self) -> Seq<char> {
        match self {
            MsgTypes::Users => "users"@,
            MsgTypes::Register => "register"@,
            MsgTypes::Message => "message"@,
        }
    }

    /// The tag that a token stands for.
    pub open spec fn of_token(token: Seq<char>) -> Option<MsgTypes> {
        if token == "users"@ {
            Some(MsgTypes::Users)
        } else if token == "register"@ {
            Some(MsgTypes::Register)
        } else if token == "message"@ {
            Some(MsgTypes::Message)
        } else {
            None
        }
    }

    /// Each tag is the tag of its own token.
    pub proof fn lemma_token_round_trip(self)
        ensures
            Self::of_token(self.token()) == Some(self),
    {
        reveal_strlit("users");
        reveal_strlit("register");
        reveal_strlit("message");
        assert("users"@.len() == 5 && "register"@.len() == 8 && "message"@.len() == 7);
    }

    pub fn as_str(&self) -> (token: &'static str)
        ensures
            token@ == self.token(),
    {
        match self {
            MsgTypes::Users => "users",
            MsgTypes::Register => "register",
            MsgTypes::Message => "message",
        }
    }

    pub fn from_token(token: &str) -> (tag: Option<MsgTypes>)
        ensures
            tag == Self::of_token(token@),
    {
        let token = token.to_owned();
        if token == String::from_str("users") {
            Some(MsgTypes::Users)
        } else if token == String::from_str("register") {
            Some(MsgTypes::Register)
        } else if token == String::from_str("message") {
            Some(MsgTypes::Message)
        } else {
            None
        }
    }
}

/// What the member `data` gives: nothing where it is missing or null, its
/// text where it is a string. Any other value is refused.
pub open spec fn text_payload(field: Option<JsonTree>) -> Result<Option<Seq<char>>, DecodeError> {
    match field {
        None => Ok(None),
        Some(JsonTree::Null) => Ok(None),
        Some(JsonTree::Text(text)) => Ok(Some(text)),
        Some(_) => Err(DecodeError::Shape),
    }
}

/// The text of a string value.
pub open spec fn tree_text(tree: JsonTree) -> Seq<char> {
    match tree {
        JsonTree::Text(text) => text,
        _ => Seq::empty(),
    }
}

/// What the member `dataArray` gives: nothing where it is missing or null,
/// its texts where it is a list of strings. Any other value is refused.
pub open spec fn list_payload(field: Option<JsonTree>) -> Result<
    Option<Seq<Seq<char>>>,
    DecodeError,
> {
    match field {
        None => Ok(None),
        Some(JsonTree::Null) => Ok(None),
        Some(JsonTree::List(items)) => if forall|i: int|
            0 <= i < items.len() ==> #[trigger] items[i] is Text {
            Ok(Some(items.map_values(|item: JsonTree| tree_text(item))))
        } else {
            Err(DecodeError::Shape)
        },
        Some(_) => Err(DecodeError::Shape),
    }
}

/// The envelope that a JSON value is read as.
pub open spec fn envelope_of_tree(tree: JsonTree) -> Result<EnvelopeView, DecodeError> {
    match tree_member(tree, "messageType"@) {
        Some(JsonTree::Text(token)) => match MsgTypes::of_token(token) {
            Some(tag) => match (
                list_payload(tree_member(tree, "dataArray"@)),
                text_payload(tree_member(tree, "data"@)),
            ) {
                (Ok(data_array), Ok(data)) => Ok(
                    EnvelopeView { message_type: tag, data_array, data },
                ),
                _ => Err(DecodeError::Shape),
            },
            None => Err(DecodeError::UnknownTag),
        },
        _ => Err(DecodeError::Shape),
    }
}

/// The frame that an envelope stands for: the tag decides which payload has
/// to be there, and the other one has to be absent.
pub open spec fn frame_of_envelope(envelope: EnvelopeView) -> Result<FrameView, DecodeError> {
    match (envelope.message_type, envelope.data_array, envelope.data) {
        (MsgTypes::Users, Some(names), None) => Ok(FrameView::Users(names)),
        (MsgTypes::Register, None, Some(name)) => Ok(FrameView::Register(name)),
        (MsgTypes::Message, None, Some(payload)) => Ok(FrameView::Message(payload)),
        _ => Err(DecodeError::PayloadMismatch),
    }
}

/// The frame that a JSON value stands for.
pub open spec fn frame_of_tree(tree: JsonTree) -> Result<FrameView, DecodeError> {
    match envelope_of_tree(tree) {
        Ok(envelope) => frame_of_envelope(envelope),
        Err(error) => Err(error),
    }
}

/// What `decode` returns for a text.
pub open spec fn decode_spec(text: Seq<char>) -> Result<FrameView, DecodeError> {
    match json_parsed(text) {
        Some(tree) => frame_of_tree(tree),
        None => Err(DecodeError::Syntax),
    }
}

/// What `decode_bytes` returns for a sequence of bytes.
pub open spec fn decode_bytes_spec(bytes: Seq<u8>) -> Result<FrameView, DecodeError> {
    if valid_utf8(bytes) {
        decode_spec(decode_utf8(bytes))
    } else {
        Err(DecodeError::Encoding)
    }
}

/// The envelope that carries a frame.
pub open spec fn envelope_of_frame(frame: FrameView) -> EnvelopeView {
    match frame {
        FrameView::Users(names) => EnvelopeView {
            message_type: MsgTypes::Users,
            data_array: Some(names),
            data: None,
        },
        FrameView::Register(name) => EnvelopeView {
            message_type: MsgTypes::Register,
            data_array: None,
            data: Some(name),
        },
        FrameView::Message(payload) => EnvelopeView {
            message_type: MsgTypes::Message,
            data_array: None,
            data: Some(payload),
        },
    }
}

/// The JSON object that an envelope is written as. An absent payload is
/// written as null.
pub open spec fn tree_of_envelope(envelope: EnvelopeView) -> JsonTree {
    JsonTree::Object(
        Map::empty().insert("messageType"@, JsonTree::Text(envelope.message_type.token())).insert(
            "dataArray"@,
            match envelope.data_array {
                Some(names) => JsonTree::List(text_trees(names)),
                None => JsonTree::Null,
            },
        ).insert(
            "data"@,
            match envelope.data {
                Some(text) => JsonTree::Text(text),
                None => JsonTree::Null,
            },
        ),
    )
}

/// The JSON object that a frame is written as.
pub open spec fn tree_of_frame(frame: FrameView) -> JsonTree {
    tree_of_envelope(envelope_of_frame(frame))
}

/// What `encode` returns for a frame.
pub open spec fn encode_spec(frame: FrameView) -> Seq<char> {
    json_written(tree_of_frame(frame))
}

/// What `encode_bytes` returns for a frame.
pub open spec fn encode_bytes_spec(frame: FrameView) -> Seq<u8> {
    encode_utf8(encode_spec(frame))
}

/// The three member names differ from each other.
pub proof fn lemma_member_names_differ()
    ensures
        "messageType"@ != "dataArray"@,
        "messageType"@ != "data"@,
        "dataArray"@ != "data"@,
{
    reveal_strlit("messageType");
    reveal_strlit("dataArray");
    reveal_strlit("data");
    assert("messageType"@.len() == 11 && "dataArray"@.len() == 9 && "data"@.len() == 4);
}

/// A list of string values gives back the texts it was made of.
pub proof fn lemma_text_trees_round_trip(names: Seq<Seq<char>>)
    ensures
        list_payload(Some(JsonTree::List(text_trees(names)))) == Ok::<
            Option<Seq<Seq<char>>>,
            DecodeError,
        >(Some(names)),
{
    let items = text_trees(names);
    assert forall|i: int| 0 <= i < items.len() implies #[trigger] items[i] is Text by {}
    assert(items.map_values(|item: JsonTree| tree_text(item)) =~= names);
}

/// Every envelope is read back from the JSON object it is written as.
pub proof fn lemma_envelope_tree_round_trip(envelope: EnvelopeView)
    ensures
        envelope_of_tree(tree_of_envelope(envelope)) == Ok::<EnvelopeView, DecodeError>(envelope),
        is_flat_record(tree_of_envelope(envelope)),
{
    lemma_member_names_differ();
    envelope.message_type.lemma_token_round_trip();
    if let Some(names) = envelope.data_array {
        lemma_text_trees_round_trip(names);
    }
}

/// Every frame is read back from the envelope that carries it.
pub proof fn lemma_frame_envelope_round_trip(frame: FrameView)
    ensures
        frame_of_envelope(envelope_of_frame(frame)) == Ok::<FrameView, DecodeError>(frame),
{
}

/// Every frame is read back from the JSON object it is written as.
pub proof fn lemma_frame_tree_round_trip(frame: FrameView)
    ensures
        frame_of_tree(tree_of_frame(frame)) == Ok::<FrameView, DecodeError>(frame),
        is_flat_record(tree_of_frame(frame)),
{
    lemma_envelope_tree_round_trip(envelope_of_frame(frame));
    lemma_frame_envelope_round_trip(frame);
}

/// A text that parses to the JSON object of a frame decodes to that frame.
/// `encode` returns such a text for every frame.
pub proof fn lemma_decode_inverts_encode(frame: FrameView, text: Seq<char>)
    requires
        json_parsed(text) == Some(tree_of_frame(frame)),
    ensures
        decode_spec(text) == Ok::<FrameView, DecodeError>(frame),
{
    lemma_frame_tree_round_trip(frame);
}

/// A copy of a list of strings.
pub fn copy_texts(strings: &Vec<String>) -> (copy: Vec<String>)
    ensures
        texts(copy@) == texts(strings@),
{
    let mut copy: Vec<String> = Vec::new();
    let mut i: usize = 0;
    while i < strings.len()
        invariant
            i <= strings.len(),
            copy.len() == i,
            forall|j: int| 0 <= j < i ==> copy[j]@ == strings[j]@,
        decreases strings.len() - i,
    {
        copy.push(strings[i].clone());
        i += 1;
    }
    assert(texts(copy@) =~= texts(strings@));
    copy
}

/// Reads a member that holds a text, or nothing.
fn text_field(value: &serde_json::Value, key: &str) -> (field: Result<Option<String>, DecodeError>)
    ensures
        match field {
            Ok(Some(text)) => text_payload(tree_member(json_tree(*value), key@)) == Ok::<
                Option<Seq<char>>,
                DecodeError,
            >(Some(text@)),
            Ok(None) => text_payload(tree_member(json_tree(*value), key@)) == Ok::<
                Option<Seq<char>>,
                DecodeError,
            >(None),
            Err(error) => text_payload(tree_member(json_tree(*value), key@)) == Err::<
                Option<Seq<char>>,
                DecodeError,
            >(error),
        },
{
    match member(value, key) {
        None => Ok(None),
        Some(item) => {
            if item.is_null() {
                Ok(None)
            } else {
                match item.as_str() {
                    Some(text) => Ok(Some(text.to_owned())),
                    None => Err(DecodeError::Shape),
                }
            }
        },
    }
}

/// Reads a member that holds a list of texts, or nothing.
fn list_field(value: &serde_json::Value, key: &str) -> (field: Result<
    Option<Vec<String>>,
    DecodeError,
>)
    ensures
        match field {
            Ok(Some(names)) => list_payload(tree_member(json_tree(*value), key@)) == Ok::<
                Option<Seq<Seq<char>>>,
                DecodeError,
            >(Some(texts(names@))),
            Ok(None) => list_payload(tree_member(json_tree(*value), key@)) == Ok::<
                Option<Seq<Seq<char>>>,
                DecodeError,
            >(None),
            Err(error) => list_payload(tree_member(json_tree(*value), key@)) == Err::<
                Option<Seq<Seq<char>>>,
                DecodeError,
            >(error),
        },
{
    let item = match member(value, key) {
        None => { return Ok(None); },
        Some(item) => item,
    };
    if item.is_null() {
        return Ok(None);
    }
    let list = match item.as_array() {
        None => { return Err(DecodeError::Shape); },
        Some(list) => list,
    };
    let ghost items = list@.map_values(|item: serde_json::Value| json_tree(item));
    let mut names: Vec<String> = Vec::new();
    let mut i: usize = 0;
    while i < list.len()
        invariant
            i <= list.len(),
            names.len() == i,
            items == list@.map_values(|item: serde_json::Value| json_tree(item)),
            tree_member(json_tree(*value), key@) == Some(JsonTree::List(items)),
            forall|j: int| 0 <= j < i ==> #[trigger] items[j] == JsonTree::Text(names[j]@),
        decreases list.len() - i,
    {
        match list[i].as_str() {
            None => {
                assert(!(items[i as int] is Text));
                return Err(DecodeError::Shape);
            },
            Some(text) => {
                names.push(text.to_owned());
            },
        }
        i += 1;
    }
    assert(items.map_values(|item: JsonTree| tree_text(item)) =~= texts(names@));
    Ok(Some(names))
}

impl Envelope {
    /// Reads a JSON value as an envelope.
    pub fn from_value(value: &serde_json::Value) -> (read: Result<Envelope, DecodeError>)
        ensures
            match read {
                Ok(envelope) => envelope_of_tree(json_tree(*value)) == Ok::<
                    EnvelopeView,
                    DecodeError,
                >(envelope@),
                Err(error) => envelope_of_tree(json_tree(*value)) == Err::<
                    EnvelopeView,
                    DecodeError,
                >(error),
            },
    {
        let token = match member(value, "messageType") {
            None => { return Err(DecodeError::Shape); },
            Some(item) => match item.as_str() {
                None => { return Err(DecodeError::Shape); },
                Some(token) => token,
            },
        };
        let message_type = match MsgTypes::from_token(token) {
            None => { return Err(DecodeError::UnknownTag); },
            Some(tag) => tag,
        };
        let data_array = match list_field(value, "dataArray") {
            Err(error) => { return Err(error); },
            Ok(data_array) => data_array,
        };
        let data = match text_field(value, "data") {
            Err(error) => { return Err(error); },
            Ok(data) => data,
        };
        Ok(Envelope { message_type, data_array, data })
    }

    /// The JSON value that the envelope is written as.
    pub fn to_value(self) -> (value: serde_json::Value)
        ensures
            json_tree(value) == tree_of_envelope(self@),
    {
        let ghost view = self@;
        let mut value = null_value();
        set_member(&mut value, "messageType", text_value(self.message_type.as_str().to_owned()));
        let list = match self.data_array {
            Some(names) => {
                assert(names@.map_values(|s: String| JsonTree::Text(s@)) =~= text_trees(
                    texts(names@),
                ));
                text_list_value(names)
            },
            None => null_value(),
        };
        set_member(&mut value, "dataArray", list);
        let text = match self.data {
            Some(text) => text_value(text),
            None => null_value(),
        };
        set_member(&mut value, "data", text);
        assert(json_tree(value) == tree_of_envelope(view));
        value
    }
}

impl Frame {
    /// Takes an envelope for a frame, if its tag and its payload agree.
    pub fn from_envelope(envelope: Envelope) -> (taken: Result<Frame, DecodeError>)
        ensures
            match taken {
                Ok(frame) => frame_of_envelope(envelope@) == Ok::<FrameView, DecodeError>(frame@),
                Err(error) => frame_of_envelope(envelope@) == Err::<FrameView, DecodeError>(
                    error,
                ),
            },
    {
        match (envelope.message_type, envelope.data_array, envelope.data) {
            (MsgTypes::Users, Some(names), None) => Ok(Frame::Users(names)),
            (MsgTypes::Register, None, Some(name)) => Ok(Frame::Register(name)),
            (MsgTypes::Message, None, Some(payload)) => Ok(Frame::Message(payload)),
            _ => Err(DecodeError::PayloadMismatch),
        }
    }

    /// The envelope that carries the frame.
    pub fn to_envelope(&self) -> (envelope: Envelope)
        ensures
            envelope@ == envelope_of_frame(self@),
    {
        match self {
            Frame::Users(names) => Envelope {
                message_type: MsgTypes::Users,
                data_array: Some(copy_texts(names)),
                data: None,
            },
            Frame::Register(name) => Envelope {
                message_type: MsgTypes::Register,
                data_array: None,
                data: Some(name.clone()),
            },
            Frame::Message(payload) => Envelope {
                message_type: MsgTypes::Message,
                data_array: None,
                data: Some(payload.clone()),
            },
        }
    }

    /// Reads a JSON value as a frame.
    pub fn from_value(value: &serde_json::Value) -> (read: Result<Frame, DecodeError>)
        ensures
            match read {
                Ok(frame) => frame_of_tree(json_tree(*value)) == Ok::<FrameView, DecodeError>(
                    frame@,
                ),
                Err(error) => frame_of_tree(json_tree(*value)) == Err::<FrameView, DecodeError>(
                    error,
                ),
            },
    {
        match Envelope::from_value(value) {
            Ok(envelope) => Frame::from_envelope(envelope),
            Err(error) => Err(error),
        }
    }

    /// The tag of the frame.
    pub fn message_type(&self) -> (tag: MsgTypes)
        ensures
            tag == envelope_of_frame(self@).message_type,
    {
        match self {
            Frame::Users(_) => MsgTypes::Users,
            Frame::Register(_) => MsgTypes::Register,
            Frame::Message(_) => MsgTypes::Message,
        }
    }
}

/// Writes a frame as JSON text. The text is a function of the frame, and
/// `decode` gives the frame back from it.
pub fn encode(frame: &Frame) -> (text: String)
    ensures
        text@ == encode_spec(frame@),
        decode_spec(text@) == Ok::<FrameView, DecodeError>(frame@),
{
    proof {
        lemma_frame_tree_round_trip(frame@);
    }
    let value = frame.to_envelope().to_value();
    let text = write_json(&value);
    proof {
        lemma_decode_inverts_encode(frame@, text@);
    }
    text
}

/// Reads JSON text as a frame. A text that is not JSON, that is no envelope,
/// whose tag is unknown or whose payload does not fit the tag is refused, each
/// with its own error.
pub fn decode(text: &str) -> (decoded: Result<Frame, DecodeError>)
    ensures
        match decoded {
            Ok(frame) => decode_spec(text@) == Ok::<FrameView, DecodeError>(frame@),
            Err(error) => decode_spec(text@) == Err::<FrameView, DecodeError>(error),
        },
{
    match parse_json(text) {
        Ok(value) => Frame::from_value(&value),
        Err(_) => Err(DecodeError::Syntax),
    }
}

/// Writes a frame as the bytes of its JSON text. `decode_bytes` gives the
/// frame back from them.
pub fn encode_bytes(frame: &Frame) -> (bytes: Vec<u8>)
    ensures
        bytes@ == encode_bytes_spec(frame@),
        decode_bytes_spec(bytes@) == Ok::<FrameView, DecodeError>(frame@),
{
    let text = encode(frame);
    bytes_of_text(text.as_str())
}

/// Reads bytes as a frame: they have to be UTF-8, and the text they spell has
/// to decode.
pub fn decode_bytes(bytes: &[u8]) -> (decoded: Result<Frame, DecodeError>)
    ensures
        match decoded {
            Ok(frame) => decode_bytes_spec(bytes@) == Ok::<FrameView, DecodeError>(frame@),
            Err(error) => decode_bytes_spec(bytes@) == Err::<FrameView, DecodeError>(error),
        },
{
    match text_of_bytes(bytes) {
        Some(text) => decode(text),
        None => Err(DecodeError::Encoding),
    }
}

} // verus!
