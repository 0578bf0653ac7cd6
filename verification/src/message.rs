//! Chat messages: what a `message` frame carries, how that payload is read and
//! written, and which messages are links to an image.

use crate::json::{
    is_flat_record, json_parsed, json_tree, json_written, member, null_value, parse_json,
    set_member, text_value, tree_member, write_json, JsonTree,
};
use crate::wire::DecodeError;
use vstd::prelude::*;
use vstd::string::StrSliceExecFns;

verus! {

/// One line of the chat: who said it, and what.
#[derive(Clone, Debug, PartialEq, Eq)]
pub struct ChatMessage {
    pub sender: String,
    pub body: String,
}

pub struct ChatMessageView {
    pub sender: Seq<char>,
    pub body: Seq<char>,
}

impl View for ChatMessage {
    type V = ChatMessageView;

    open spec fn view(&self) -> ChatMessageView {
        ChatMessageView { sender: self.sender@, body: self.body@ }
    }
}

/// The messages that a sequence of chat messages stands for.
pub open spec fn message_views(messages: Seq<ChatMessage>) -> Seq<ChatMessageView> {
    messages.map_values(|message: ChatMessage| message@)
}

/// The chat message that a JSON value is read as: an object whose members
/// `from` and `message` are strings. Other members are passed over.
pub open spec fn message_of_tree(tree: JsonTree) -> Result<ChatMessageView, DecodeError> {
    match (tree_member(tree, "from"@), tree_member(tree, "message"@)) {
        (Some(JsonTree::Text(sender)), Some(JsonTree::Text(body))) => Ok(
            ChatMessageView { sender, body },
        ),
        _ => Err(DecodeError::Shape),
    }
}

/// The JSON object that a chat message is written as.
pub open spec fn tree_of_message(message: ChatMessageView) -> JsonTree {
    JsonTree::Object(
        Map::empty().insert("from"@, JsonTree::Text(message.sender)).insert(
            "message"@,
            JsonTree::Text(message.body),
        ),
    )
}

/// What `ChatMessage::decode` returns for a payload.
pub open spec fn payload_decode_spec(payload: Seq<char>) -> Result<ChatMessageView, DecodeError> {
    match json_parsed(payload) {
        Some(tree) => message_of_tree(tree),
        None => Err(DecodeError::Syntax),
    }
}

/// What `ChatMessage::encode` returns for a message.
pub open spec fn payload_encode_spec(message: ChatMessageView) -> Seq<char> {
    json_written(tree_of_message(message))
}

/// Whether `text` ends with `suffix`.
pub open spec fn ends_with(text: Seq<char>, suffix: Seq<char>) -> bool {
    suffix.len() <= text.len() && text.subrange(text.len() - suffix.len(), text.len() as int)
        == suffix
}

/// A body that ends in `.gif` is a link to an image; every other body is
/// plain text.
pub open spec fn is_image_body(body: Seq<char>) -> bool {
    ends_with(body, ".gif"@)
}

/// Every chat message is read back from the JSON object it is written as.
pub proof fn lemma_message_tree_round_trip(message: ChatMessageView)
    ensures
        message_of_tree(tree_of_message(message)) == Ok::<ChatMessageView, DecodeError>(message),
        is_flat_record(tree_of_message(message)),
{
    reveal_strlit("from");
    reveal_strlit("message");
    assert("from"@.len() == 4 && "message"@.len() == 7);
}

/// A text that parses to the JSON object of a chat message decodes to that
/// message. `ChatMessage::encode` returns such a text for every message.
pub proof fn lemma_payload_decode_inverts_encode(message: ChatMessageView, payload: Seq<char>)
    requires
        json_parsed(payload) == Some(tree_of_message(message)),
    ensures
        payload_decode_spec(payload) == Ok::<ChatMessageView, DecodeError>(message),
{
    lemma_message_tree_round_trip(message);
}

impl ChatMessage {
    /// Reads a JSON value as a chat message.
    pub fn from_value(value: &serde_json::Value) -> (read: Result<ChatMessage, DecodeError>)
        ensures
            match read {
                Ok(message) => message_of_tree(json_tree(*value)) == Ok::<
                    ChatMessageView,
                    DecodeError,
                >(message@),
                Err(error) => message_of_tree(json_tree(*value)) == Err::<
                    ChatMessageView,
                    DecodeError,
                >(error),
            },
    {
        let sender = match member(value, "from") {
            None => { return Err(DecodeError::Shape); },
            Some(item) => match item.as_str() {
                None => { return Err(DecodeError::Shape); },
                Some(text) => text.to_owned(),
            },
        };
        let body = match member(value, "message") {
            None => { return Err(DecodeError::Shape); },
            Some(item) => match item.as_str() {
                None => { return Err(DecodeError::Shape); },
                Some(text) => text.to_owned(),
            },
        };
        Ok(ChatMessage { sender, body })
    }

    /// The JSON value that the message is written as.
    pub fn to_value(&self) -> (value: serde_json::Value)
        ensures
            json_tree(value) == tree_of_message(self@),
    {
        let mut value = null_value();
        set_member(&mut value, "from", text_value(self.sender.clone()));
        set_member(&mut value, "message", text_value(self.body.clone()));
        value
    }

    /// Reads the payload of a `message` frame. A payload that is not JSON, or
    /// that is no object with the two strings, is refused.
    pub fn decode(payload: &str) -> (decoded: Result<ChatMessage, DecodeError>)
        ensures
            match decoded {
                Ok(message) => payload_decode_spec(payload@) == Ok::<
                    ChatMessageView,
                    DecodeError,
                >(message@),
                Err(error) => payload_decode_spec(payload@) == Err::<
                    ChatMessageView,
                    DecodeError,
                >(error),
            },
    {
        match parse_json(payload) {
            Ok(value) => ChatMessage::from_value(&value),
            Err(_) => Err(DecodeError::Syntax),
        }
    }

    /// Writes the message as the payload of a `message` frame. The text is a
    /// function of the message, and `decode` gives the message back from it.
    pub fn encode(&self) -> (payload: String)
        ensures
            payload@ == payload_encode_spec(self@),
            payload_decode_spec(payload@) == Ok::<ChatMessageView, DecodeError>(self@),
    {
        proof {
            lemma_message_tree_round_trip(self@);
        }
        let value = self.to_value();
        let payload = write_json(&value);
        proof {
            lemma_payload_decode_inverts_encode(self@, payload@);
        }
        payload
    }

    /// Whether the message is a link to an image.
    pub fn is_image_link(&self) -> (image: bool)
        ensures
            image == is_image_body(self.body@),
    {
        let body = self.body.as_str();
        let len = body.unicode_len();
        proof {
            reveal_strlit(".gif");
        }
        if len < 4 {
            false
        } else {
            let image = body.get_char(len - 4) == '.' && body.get_char(len - 3) == 'g'
                && body.get_char(len - 2) == 'i' && body.get_char(len - 1) == 'f';
            proof {
                let tail = body@.subrange(len - 4, len as int);
                if image {
                    assert(tail =~= ".gif"@);
                } else {
                    assert(tail[0] == body@[len - 4] && tail[1] == body@[len - 3] && tail[2]
                        == body@[len - 2] && tail[3] == body@[len - 1]);
                }
            }
            image
        }
    }

    /// A copy of the message.
    pub fn copy(&self) -> (copy: ChatMessage)
        ensures
            copy@ == self@,
    {
        ChatMessage { sender: self.sender.clone(), body: self.body.clone() }
    }
}

} // verus!
