//! The roster and the history of a session. The roster is replaced as a whole
//! and never patched; the history only grows.

use crate::message::{message_views, ChatMessage, ChatMessageView};
use crate::profile::{
    profile_of, profile_views, resolve, roster_of, valid_roster, Roster, UserProfile,
    UserProfileView,
};
use crate::wire::texts;
use vstd::prelude::*;

verus! {

/// Who is online and what has been said.
pub struct Store {
    roster: Roster,
    history: Vec<ChatMessage>,
}

pub struct StoreView {
    pub roster: Seq<UserProfileView>,
    pub history: Seq<ChatMessageView>,
}

impl View for Store {
    type V = StoreView;

    closed spec fn view(&self) -> StoreView {
        StoreView { roster: self.roster@, history: message_views(self.history@) }
    }
}

impl Store {
    /// A store with nobody online and nothing said.
    pub fn new() -> (store: Store)
        ensures
            store@.roster == Seq::<UserProfileView>::empty(),
            store@.history == Seq::<ChatMessageView>::empty(),
    {
        let store = Store { roster: Roster::new(), history: Vec::new() };
        assert(store@.history =~= Seq::<ChatMessageView>::empty());
        store
    }

    /// Replaces the roster by the one that the names stand for. Nothing of the
    /// old roster stays. Returns whether a name occurred more than once.
    pub fn replace_roster(&mut self, names: &Vec<String>) -> (repeated: bool)
        ensures
            final(self)@.roster == roster_of(texts(names@)),
            final(self)@.history == old(self)@.history,
            repeated == !texts(names@).no_duplicates(),
    {
        let (roster, repeated) = Roster::from_names(names);
        self.roster = roster;
        repeated
    }

    /// Appends a message to the history.
    pub fn append(&mut self, message: ChatMessage)
        ensures
            final(self)@.roster == old(self)@.roster,
            final(self)@.history == old(self)@.history.push(message@),
    {
        self.history.push(message);
        assert(message_views(self.history@) =~= message_views(old(self).history@).push(message@));
    }

    /// How many users are online.
    pub fn online(&self) -> (count: usize)
        ensures
            count == self@.roster.len(),
    {
        self.roster.len()
    }

    /// A copy of the roster as it stands. The roster is valid at all times.
    pub fn current_roster(&self) -> (roster: Vec<UserProfile>)
        ensures
            profile_views(roster@) == self@.roster,
            valid_roster(self@.roster),
    {
        self.roster.profiles()
    }

    /// A copy of the history as it stands.
    pub fn current_history(&self) -> (history: Vec<ChatMessage>)
        ensures
            message_views(history@) == self@.history,
    {
        let mut history: Vec<ChatMessage> = Vec::new();
        let mut i: usize = 0;
        while i < self.history.len()
            invariant
                i <= self.history.len(),
                history.len() == i,
                forall|j: int| 0 <= j < i ==> history[j]@ == self.history[j]@,
            decreases self.history.len() - i,
        {
            history.push(self.history[i].copy());
            i += 1;
        }
        assert(message_views(history@) =~= message_views(self.history@));
        history
    }

    /// The profile under which a sender is shown. It is the one that belongs
    /// to the name, whether the roster lists the sender or not.
    pub fn resolve(&self, sender: &String) -> (profile: UserProfile)
        ensures
            profile@ == resolve(self@.roster, sender@),
            profile@ == profile_of(sender@),
    {
        self.roster.resolve(sender)
    }
}

} // verus!
