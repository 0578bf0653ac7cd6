//! What the user interface shows of a session: a row for each user who is
//! online and a row for each chat message. How the rows are drawn is up to the
//! user interface.

use crate::message::{is_image_body, ChatMessage, ChatMessageView};
use crate::profile::{
    avatar_url_spec, lemma_resolve, resolve, valid_roster, UserProfile, UserProfileView,
};
use crate::store::Store;
use vstd::prelude::*;

verus! {

/// A user who is online.
#[derive(Clone, Debug, PartialEq, Eq)]
pub struct UserRow {
    pub name: String,
    pub avatar: String,
    /// Whether the row is the one of the user of this session.
    pub is_current_user: bool,
}

pub struct UserRowView {
    pub name: Seq<char>,
    pub avatar: Seq<char>,
    pub is_current_user: bool,
}

impl View for UserRow {
    type V = UserRowView;

    open spec fn view(&self) -> UserRowView {
        UserRowView {
            name: self.name@,
            avatar: self.avatar@,
            is_current_user: self.is_current_user,
        }
    }
}

/// A chat message with what is needed to draw it.
#[derive(Clone, Debug, PartialEq, Eq)]
pub struct MessageRow {
    pub sender: String,
    /// The avatar of the profile that the sender resolves to.
    pub avatar: String,
    pub body: String,
    /// Whether the user of this session said it.
    pub is_current_user: bool,
    /// Whether the body is a link to an image.
    pub is_image: bool,
}

pub struct MessageRowView {
    pub sender: Seq<char>,
    pub avatar: Seq<char>,
    pub body: Seq<char>,
    pub is_current_user: bool,
    pub is_image: bool,
}

impl View for MessageRow {
    type V = MessageRowView;

    open spec fn view(&self) -> MessageRowView {
        MessageRowView {
            sender: self.sender@,
            avatar: self.avatar@,
            body: self.body@,
            is_current_user: self.is_current_user,
            is_image: self.is_image,
        }
    }
}

/// The rows of a session, in the order of the roster and of the history.
#[derive(Clone, Debug, PartialEq, Eq)]
pub struct Screen {
    pub users: Vec<UserRow>,
    pub messages: Vec<MessageRow>,
}

pub struct ScreenView {
    pub users: Seq<UserRowView>,
    pub messages: Seq<MessageRowView>,
}

impl View for Screen {
    type V = ScreenView;

    open spec fn view(&self) -> ScreenView {
        ScreenView {
            users: self.users@.map_values(|row: UserRow| row@),
            messages: self.messages@.map_values(|row: MessageRow| row@),
        }
    }
}

/// The row of a profile.
pub open spec fn user_row(username: Seq<char>, profile: UserProfileView) -> UserRowView {
    UserRowView {
        name: profile.name,
        avatar: profile.avatar,
        is_current_user: profile.name == username,
    }
}

/// The row of a chat message. The sender is looked up in the roster by name;
/// a sender whom the roster does not list is shown with the profile that
/// belongs to the name.
pub open spec fn message_row(
    username: Seq<char>,
    roster: Seq<UserProfileView>,
    message: ChatMessageView,
) -> MessageRowView {
    MessageRowView {
        sender: message.sender,
        avatar: resolve(roster, message.sender).avatar,
        body: message.body,
        is_current_user: message.sender == username,
        is_image: is_image_body(message.body),
    }
}

/// What is shown of a session.
pub open spec fn screen_of(
    username: Seq<char>,
    roster: Seq<UserProfileView>,
    history: Seq<ChatMessageView>,
) -> ScreenView {
    ScreenView {
        users: roster.map_values(|profile: UserProfileView| user_row(username, profile)),
        messages: history.map_values(
            |message: ChatMessageView| message_row(username, roster, message),
        ),
    }
}

/// With a valid roster every message is shown with the avatar that belongs
/// to the name of its sender, whether the roster lists the sender or not.
pub proof fn lemma_message_row_avatar(
    username: Seq<char>,
    roster: Seq<UserProfileView>,
    message: ChatMessageView,
)
    requires
        valid_roster(roster),
    ensures
        message_row(username, roster, message).avatar == avatar_url_spec(message.sender),
{
    lemma_resolve(roster, message.sender);
}

/// The row of a profile.
pub fn user_row_of(username: &String, profile: &UserProfile) -> (row: UserRow)
    ensures
        row@ == user_row(username@, profile@),
{
    UserRow {
        name: profile.name.clone(),
        avatar: profile.avatar.clone(),
        is_current_user: profile.name == *username,
    }
}

/// The row of a chat message.
pub fn message_row_of(username: &String, store: &Store, message: &ChatMessage) -> (row: MessageRow)
    ensures
        row@ == message_row(username@, store@.roster, message@),
        row@.avatar == avatar_url_spec(message@.sender),
{
    let profile = store.resolve(&message.sender);
    MessageRow {
        sender: message.sender.clone(),
        avatar: profile.avatar,
        body: message.body.clone(),
        is_current_user: message.sender == *username,
        is_image: message.is_image_link(),
    }
}

/// The rows of a session of `username` with this store.
pub fn compose(username: &String, store: &Store) -> (screen: Screen)
    ensures
        screen@ == screen_of(username@, store@.roster, store@.history),
{
    let roster = store.current_roster();
    let history = store.current_history();
    let mut users: Vec<UserRow> = Vec::new();
    let mut i: usize = 0;
    while i < roster.len()
        invariant
            i <= roster.len(),
            users.len() == i,
            forall|j: int| 0 <= j < i ==> users[j]@ == user_row(username@, roster[j]@),
        decreases roster.len() - i,
    {
        users.push(user_row_of(username, &roster[i]));
        i += 1;
    }
    let mut messages: Vec<MessageRow> = Vec::new();
    let mut k: usize = 0;
    while k < history.len()
        invariant
            k <= history.len(),
            messages.len() == k,
            forall|j: int|
                0 <= j < k ==> messages[j]@ == message_row(username@, store@.roster, history[j]@),
        decreases history.len() - k,
    {
        messages.push(message_row_of(username, store, &history[k]));
        k += 1;
    }
    let screen = Screen { users, messages };
    assert(screen@.users =~= screen_of(username@, store@.roster, store@.history).users);
    assert(screen@.messages =~= screen_of(username@, store@.roster, store@.history).messages);
    screen
}

} // verus!
