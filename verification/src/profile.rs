//! User profiles, and the roster that a list of names stands for.
//!
//! A roster is always made from a list of names as a whole. It holds one
//! profile for each distinct name of the list, in the order of the list.

use crate::wire::texts;
use vstd::prelude::*;
use vstd::string::StringExecFns;

verus! {

/// A user as the roster shows them. The avatar is derived from the name.
#[derive(Clone, Debug, PartialEq, Eq)]
pub struct UserProfile {
    pub name: String,
    pub avatar: String,
}

pub struct UserProfileView {
    pub name: Seq<char>,
    pub avatar: Seq<char>,
}

impl View for UserProfile {
    type V = UserProfileView;

    open spec fn view(&self) -> UserProfileView {
        UserProfileView { name: self.name@, avatar: self.avatar@ }
    }
}

/// The profiles that a sequence of user profiles stands for.
pub open spec fn profile_views(profiles: Seq<UserProfile>) -> Seq<UserProfileView> {
    profiles.map_values(|profile: UserProfile| profile@)
}

/// The address of the avatar that belongs to a name.
pub open spec fn avatar_url_spec(name: Seq<char>) -> Seq<char> {
    "https://avatars.dicebear.com/api/adventurer-neutral/"@ + name + ".svg"@
}

/// The profile that belongs to a name.
pub open spec fn profile_of(name: Seq<char>) -> UserProfileView {
    UserProfileView { name, avatar: avatar_url_spec(name) }
}

/// The names of a sequence of profiles.
pub open spec fn profile_names(profiles: Seq<UserProfileView>) -> Seq<Seq<char>> {
    profiles.map_values(|profile: UserProfileView| profile.name)
}

/// The names without their repetitions: of each name the first occurrence
/// stays, in its place.
pub open spec fn distinct(names: Seq<Seq<char>>) -> Seq<Seq<char>>
    decreases names.len(),
{
    if names.len() == 0 {
        Seq::empty()
    } else {
        let earlier = distinct(names.drop_last());
        if earlier.contains(names.last()) {
            earlier
        } else {
            earlier.push(names.last())
        }
    }
}

/// The roster that a list of names stands for: one derived profile for each
/// distinct name, in the order of the list.
pub open spec fn roster_of(names: Seq<Seq<char>>) -> Seq<UserProfileView> {
    distinct(names).map_values(|name: Seq<char>| profile_of(name))
}

/// A roster is valid where every profile is the one that belongs to its name
/// and no name occurs twice.
pub open spec fn valid_roster(roster: Seq<UserProfileView>) -> bool {
    &&& forall|i: int| 0 <= i < roster.len() ==> #[trigger] roster[i] == profile_of(roster[i].name)
    &&& forall|i: int, j: int|
        0 <= i < j < roster.len() ==> (#[trigger] roster[i]).name != (#[trigger] roster[j]).name
}

/// The profile under which a sender is shown: the first one of the roster
/// with that name, and the profile that belongs to the name where the roster
/// has none.
pub open spec fn resolve(roster: Seq<UserProfileView>, sender: Seq<char>) -> UserProfileView
    decreases roster.len(),
{
    if roster.len() == 0 {
        profile_of(sender)
    } else if roster.first().name == sender {
        roster.first()
    } else {
        resolve(roster.drop_first(), sender)
    }
}

/// `distinct` holds exactly the names of the list, each once.
pub proof fn lemma_distinct(names: Seq<Seq<char>>)
    ensures
        distinct(names).no_duplicates(),
        forall|name: Seq<char>| #[trigger] distinct(names).contains(name) <==> names.contains(name),
        distinct(names).len() <= names.len(),
    decreases names.len(),
{
    if names.len() > 0 {
        let front = names.drop_last();
        let earlier = distinct(front);
        lemma_distinct(front);
        assert forall|name: Seq<char>| #[trigger]
            distinct(names).contains(name) <==> names.contains(name) by {
            if names.contains(name) {
                let i = choose|i: int| 0 <= i < names.len() && names[i] == name;
                if i < names.len() - 1 {
                    assert(front[i] == name);
                    assert(front.contains(name));
                    assert(earlier.contains(name));
                }
                if !earlier.contains(names.last()) {
                    if name == names.last() {
                        assert(earlier.push(names.last())[earlier.len() as int] == name);
                    } else {
                        let k = choose|k: int| 0 <= k < earlier.len() && earlier[k] == name;
                        assert(earlier.push(names.last())[k] == name);
                    }
                }
            }
            if distinct(names).contains(name) {
                let k = choose|k: int| 0 <= k < distinct(names).len() && distinct(names)[k] == name;
                if k < earlier.len() {
                    assert(earlier[k] == name);
                    assert(earlier.contains(name));
                    assert(front.contains(name));
                    let i = choose|i: int| 0 <= i < front.len() && front[i] == name;
                    assert(names[i] == name);
                } else {
                    assert(names[names.len() - 1] == name);
                }
            }
        }
    }
}

/// A list without repetitions is its own `distinct`.
pub proof fn lemma_distinct_of_distinct(names: Seq<Seq<char>>)
    requires
        names.no_duplicates(),
    ensures
        distinct(names) == names,
    decreases names.len(),
{
    if names.len() > 0 {
        let front = names.drop_last();
        lemma_distinct_of_distinct(front);
        lemma_distinct(front);
        if front.contains(names.last()) {
            let i = choose|i: int| 0 <= i < front.len() && front[i] == names.last();
            assert(names[i] == names[names.len() - 1]);
        }
        assert(front.push(names.last()) =~= names);
    }
}

/// The roster of a list of names is valid and holds the distinct names in
/// their order.
pub proof fn lemma_roster_of(names: Seq<Seq<char>>)
    ensures
        valid_roster(roster_of(names)),
        profile_names(roster_of(names)) == distinct(names),
{
    lemma_distinct(names);
    assert(profile_names(roster_of(names)) =~= distinct(names));
}

/// In a valid roster every sender resolves to the profile
/// that belongs to their name, whether the roster lists them or not.
pub proof fn lemma_resolve(roster: Seq<UserProfileView>, sender: Seq<char>)
    requires
        valid_roster(roster),
    ensures
        resolve(roster, sender) == profile_of(sender),
    decreases roster.len(),
{
    if roster.len() > 0 {
        if roster.first().name == sender {
            assert(roster[0] == profile_of(roster[0].name));
        } else {
            let rest = roster.drop_first();
            assert forall|i: int| 0 <= i < rest.len() implies #[trigger] rest[i] == profile_of(
                rest[i].name,
            ) by {
                assert(rest[i] == roster[i + 1]);
            }
            assert forall|i: int, j: int| 0 <= i < j < rest.len() implies (#[trigger] rest[i]).name
                != (#[trigger] rest[j]).name by {
                assert(rest[i] == roster[i + 1]);
                assert(rest[j] == roster[j + 1]);
            }
            lemma_resolve(rest, sender);
        }
    }
}

/// A sender whom the roster does not list resolves to the profile that
/// belongs to their name, in any roster.
pub proof fn lemma_resolve_absent(roster: Seq<UserProfileView>, sender: Seq<char>)
    requires
        !profile_names(roster).contains(sender),
    ensures
        resolve(roster, sender) == profile_of(sender),
    decreases roster.len(),
{
    if roster.len() > 0 {
        assert(profile_names(roster)[0] == roster[0].name);
        let rest = roster.drop_first();
        if profile_names(rest).contains(sender) {
            let i = choose|i: int|
                0 <= i < profile_names(rest).len() && profile_names(rest)[i] == sender;
            assert(profile_names(roster)[i + 1] == sender);
        }
        lemma_resolve_absent(rest, sender);
    }
}

/// The address of the avatar that belongs to a name.
pub fn avatar_url(name: &str) -> (url: String)
    ensures
        url@ == avatar_url_spec(name@),
{
    let mut url = String::from_str("https://avatars.dicebear.com/api/adventurer-neutral/");
    url.append(name);
    url.append(".svg");
    url
}

impl UserProfile {
    /// The profile that belongs to a name.
    pub fn derive(name: &str) -> (profile: UserProfile)
        ensures
            profile@ == profile_of(name@),
    {
        UserProfile { name: name.to_owned(), avatar: avatar_url(name) }
    }

    /// A copy of the profile.
    pub fn copy(&self) -> (copy: UserProfile)
        ensures
            copy@ == self@,
    {
        UserProfile { name: self.name.clone(), avatar: self.avatar.clone() }
    }
}

/// Whether a profile of the list has the name.
pub fn lists_name(profiles: &Vec<UserProfile>, name: &String) -> (listed: bool)
    ensures
        listed == profile_names(profile_views(profiles@)).contains(name@),
{
    let ghost listed_names = profile_names(profile_views(profiles@));
    let mut i: usize = 0;
    while i < profiles.len()
        invariant
            i <= profiles.len(),
            listed_names == profile_names(profile_views(profiles@)),
            forall|j: int| 0 <= j < i ==> listed_names[j] != name@,
        decreases profiles.len() - i,
    {
        if profiles[i].name == *name {
            assert(listed_names[i as int] == name@);
            return true;
        }
        i += 1;
    }
    false
}

/// The roster that a list of names stands for, and whether a name was passed
/// over because it had occurred before.
pub fn derive_roster(names: &Vec<String>) -> (derived: (Vec<UserProfile>, bool))
    ensures
        profile_views(derived.0@) == roster_of(texts(names@)),
        derived.1 == !texts(names@).no_duplicates(),
{
    let ghost all = texts(names@);
    let mut roster: Vec<UserProfile> = Vec::new();
    let mut repeated = false;
    let mut i: usize = 0;
    proof {
        assert(all.take(0) =~= Seq::<Seq<char>>::empty());
        assert(profile_views(roster@) =~= roster_of(all.take(0)));
    }
    while i < names.len()
        invariant
            i <= names.len(),
            all == texts(names@),
            profile_views(roster@) == roster_of(all.take(i as int)),
            repeated == !all.take(i as int).no_duplicates(),
        decreases names.len() - i,
    {
        let ghost before = all.take(i as int);
        let ghost after = all.take(i + 1);
        proof {
            assert(after.drop_last() =~= before);
            assert(after.last() == names[i as int]@);
            lemma_distinct(before);
            lemma_roster_of(before);
        }
        if lists_name(&roster, &names[i]) {
            repeated = true;
            proof {
                assert(distinct(before).contains(names[i as int]@));
                assert(before.contains(names[i as int]@));
                let k = choose|k: int| 0 <= k < before.len() && before[k] == names[i as int]@;
                assert(after[k] == after[i as int]);
            }
        } else {
            roster.push(UserProfile::derive(names[i].as_str()));
            proof {
                assert(!distinct(before).contains(names[i as int]@));
                assert(!before.contains(names[i as int]@));
                assert(profile_views(roster@) =~= roster_of(after));
                if !repeated {
                    assert forall|a: int, b: int|
                        0 <= a < after.len() && 0 <= b < after.len() && a != b implies after[a]
                        != after[b] by {
                        if a < i && b < i {
                            assert(before[a] != before[b]);
                        } else if a < i {
                            assert(before[a] == after[a]);
                            assert(before.contains(after[a]));
                        } else {
                            assert(before[b] == after[b]);
                            assert(before.contains(after[b]));
                        }
                    }
                } else {
                    let (a, b) = choose|a: int, b: int|
                        0 <= a < before.len() && 0 <= b < before.len() && a != b && before[a]
                            == before[b];
                    assert(after[a] == after[b]);
                }
            }
        }
        i += 1;
    }
    proof {
        assert(all.take(names.len() as int) =~= all);
    }
    (roster, repeated)
}

/// The profile under which a sender is shown.
pub fn resolve_profile(roster: &Vec<UserProfile>, sender: &String) -> (profile: UserProfile)
    ensures
        profile@ == resolve(profile_views(roster@), sender@),
{
    let ghost all = profile_views(roster@);
    let mut i: usize = 0;
    proof {
        assert(all.skip(0) =~= all);
    }
    while i < roster.len()
        invariant
            i <= roster.len(),
            all == profile_views(roster@),
            resolve(all, sender@) == resolve(all.skip(i as int), sender@),
        decreases roster.len() - i,
    {
        proof {
            assert(all.skip(i as int).first() == roster[i as int]@);
            assert(all.skip(i as int).drop_first() =~= all.skip(i + 1));
        }
        if roster[i].name == *sender {
            return roster[i].copy();
        }
        i += 1;
    }
    UserProfile::derive(sender.as_str())
}

/// The users that are online. Every profile of a roster is the one that
/// belongs to its name, and no name occurs twice.
pub struct Roster {
    profiles: Vec<UserProfile>,
}

impl View for Roster {
    type V = Seq<UserProfileView>;

    closed spec fn view(&self) -> Seq<UserProfileView> {
        profile_views(self.profiles@)
    }
}

impl Roster {
    #[verifier::type_invariant]
    spec fn valid(self) -> bool {
        valid_roster(profile_views(self.profiles@))
    }

    /// The roster with nobody in it.
    pub fn new() -> (roster: Roster)
        ensures
            roster@ == Seq::<UserProfileView>::empty(),
    {
        let roster = Roster { profiles: Vec::new() };
        assert(roster@ =~= Seq::<UserProfileView>::empty());
        roster
    }

    /// The roster that a list of names stands for, and whether a name was
    /// passed over because it had occurred before.
    pub fn from_names(names: &Vec<String>) -> (derived: (Roster, bool))
        ensures
            derived.0@ == roster_of(texts(names@)),
            derived.1 == !texts(names@).no_duplicates(),
    {
        let (profiles, repeated) = derive_roster(names);
        proof {
            lemma_roster_of(texts(names@));
        }
        (Roster { profiles }, repeated)
    }

    /// How many users are online.
    pub fn len(&self) -> (len: usize)
        ensures
            len == self@.len(),
    {
        self.profiles.len()
    }

    /// A copy of the profiles, in their order.
    pub fn profiles(&self) -> (profiles: Vec<UserProfile>)
        ensures
            profile_views(profiles@) == self@,
            valid_roster(self@),
    {
        proof {
            use_type_invariant(self);
        }
        let mut profiles: Vec<UserProfile> = Vec::new();
        let mut i: usize = 0;
        while i < self.profiles.len()
            invariant
                i <= self.profiles.len(),
                profiles.len() == i,
                forall|j: int| 0 <= j < i ==> profiles[j]@ == self.profiles[j]@,
            decreases self.profiles.len() - i,
        {
            profiles.push(self.profiles[i].copy());
            i += 1;
        }
        assert(profile_views(profiles@) =~= profile_views(self.profiles@));
        profiles
    }

    /// The profile under which a sender is shown. It is the one that belongs
    /// to the name, whether the roster lists the sender or not.
    pub fn resolve(&self, sender: &String) -> (profile: UserProfile)
        ensures
            profile@ == resolve(self@, sender@),
            profile@ == profile_of(sender@),
    {
        proof {
            use_type_invariant(self);
            lemma_resolve(profile_views(self.profiles@), sender@);
        }
        resolve_profile(&self.profiles, sender)
    }
}

} // verus!
