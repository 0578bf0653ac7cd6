use yewchat::profile::{
    avatar_url, derive_roster, lists_name, resolve_profile, Roster, UserProfile,
};
use yewchat::store::Store;
use yewchat::message::ChatMessage;

fn names(list: &[&str]) -> Vec<String> {
    list.iter().map(|name| name.to_string()).collect()
}

fn profile(name: &str) -> UserProfile {
    UserProfile {
        name: name.to_string(),
        avatar: format!("https://avatars.dicebear.com/api/adventurer-neutral/{}.svg", name),
    }
}

#[test]
fn avatar_address_of_a_name() {
    assert_eq!(avatar_url("alice"), "https://avatars.dicebear.com/api/adventurer-neutral/alice.svg");
    assert_eq!(avatar_url(""), "https://avatars.dicebear.com/api/adventurer-neutral/.svg");
    assert_eq!(avatar_url("a b/ü"), "https://avatars.dicebear.com/api/adventurer-neutral/a b/ü.svg");
}

#[test]
fn avatar_address_is_the_same_each_time() {
    assert_eq!(avatar_url("carol"), avatar_url("carol"));
    assert_ne!(avatar_url("carol"), avatar_url("Carol"));
}

#[test]
fn profile_of_a_name() {
    assert_eq!(UserProfile::derive("bob"), profile("bob"));
    assert_eq!(UserProfile::derive("bob").copy(), profile("bob"));
}

#[test]
fn roster_of_a_list_of_names() {
    let (roster, repeated) = derive_roster(&names(&["alice", "bob"]));
    assert_eq!(roster, vec![profile("alice"), profile("bob")]);
    assert!(!repeated);
}

#[test]
fn roster_of_no_names() {
    let (roster, repeated) = derive_roster(&Vec::new());
    assert!(roster.is_empty());
    assert!(!repeated);
}

#[test]
fn roster_holds_a_repeated_name_once() {
    let (roster, repeated) = derive_roster(&names(&["bob", "alice", "bob", "carol", "alice", "bob"]));
    assert_eq!(roster, vec![profile("bob"), profile("alice"), profile("carol")]);
    assert!(repeated);
}

#[test]
fn roster_tells_names_apart_by_case() {
    let (roster, repeated) = derive_roster(&names(&["bob", "Bob"]));
    assert_eq!(roster, vec![profile("bob"), profile("Bob")]);
    assert!(!repeated);
}

#[test]
fn roster_type_holds_what_the_names_stand_for() {
    let (roster, repeated) = Roster::from_names(&names(&["alice", "alice", "bob"]));
    assert!(repeated);
    assert_eq!(roster.len(), 2);
    assert_eq!(roster.profiles(), vec![profile("alice"), profile("bob")]);
    assert_eq!(Roster::new().len(), 0);
    assert!(Roster::new().profiles().is_empty());
}

#[test]
fn lists_name_finds_a_listed_name() {
    let roster = vec![profile("alice"), profile("bob")];
    assert!(lists_name(&roster, &"bob".to_string()));
    assert!(!lists_name(&roster, &"carol".to_string()));
    assert!(!lists_name(&Vec::new(), &"alice".to_string()));
}

#[test]
fn sender_in_the_roster_resolves_to_the_listed_profile() {
    let roster = vec![profile("alice"), profile("bob")];
    assert_eq!(resolve_profile(&roster, &"bob".to_string()), profile("bob"));
}

#[test]
fn sender_absent_from_the_roster_resolves_to_the_derived_profile() {
    let roster = vec![profile("alice"), profile("bob")];
    assert_eq!(
        resolve_profile(&roster, &"carol".to_string()),
        UserProfile {
            name: "carol".to_string(),
            avatar: "https://avatars.dicebear.com/api/adventurer-neutral/carol.svg".to_string(),
        }
    );
    assert_eq!(resolve_profile(&Vec::new(), &"carol".to_string()), profile("carol"));
}

#[test]
fn roster_resolves_every_sender() {
    let (roster, _) = Roster::from_names(&names(&["alice", "bob"]));
    assert_eq!(roster.resolve(&"alice".to_string()), profile("alice"));
    assert_eq!(roster.resolve(&"carol".to_string()), profile("carol"));
}

#[test]
fn store_starts_empty() {
    let store = Store::new();
    assert!(store.current_roster().is_empty());
    assert!(store.current_history().is_empty());
    assert_eq!(store.online(), 0);
}

#[test]
fn store_replaces_the_roster_and_does_not_merge() {
    let mut store = Store::new();
    assert!(!store.replace_roster(&names(&["alice", "bob"])));
    assert_eq!(store.current_roster(), vec![profile("alice"), profile("bob")]);
    assert!(!store.replace_roster(&names(&["carol", "dave", "erin"])));
    assert_eq!(store.current_roster(), vec![profile("carol"), profile("dave"), profile("erin")]);
    assert_eq!(store.online(), 3);
    assert!(!store.replace_roster(&Vec::new()));
    assert!(store.current_roster().is_empty());
}

#[test]
fn store_reports_repeated_names() {
    let mut store = Store::new();
    assert!(store.replace_roster(&names(&["alice", "alice"])));
    assert_eq!(store.current_roster(), vec![profile("alice")]);
}

#[test]
fn store_appends_in_order_and_keeps_repeats() {
    let mut store = Store::new();
    let first = ChatMessage { sender: "alice".to_string(), body: "one".to_string() };
    let second = ChatMessage { sender: "bob".to_string(), body: "two".to_string() };
    store.append(first.clone());
    store.append(second.clone());
    store.append(first.clone());
    assert_eq!(store.current_history(), vec![first.clone(), second, first]);
}

#[test]
fn store_keeps_the_history_when_the_roster_is_replaced() {
    let mut store = Store::new();
    let line = ChatMessage { sender: "alice".to_string(), body: "one".to_string() };
    store.append(line.clone());
    store.replace_roster(&names(&["bob"]));
    assert_eq!(store.current_history(), vec![line.clone()]);
    store.append(line.clone());
    assert_eq!(store.current_roster(), vec![profile("bob")]);
    assert_eq!(store.current_history(), vec![line.clone(), line]);
}

#[test]
fn store_hands_out_copies() {
    let mut store = Store::new();
    store.replace_roster(&names(&["alice"]));
    let mut snapshot = store.current_roster();
    snapshot.push(profile("mallory"));
    snapshot[0].name = "changed".to_string();
    assert_eq!(store.current_roster(), vec![profile("alice")]);
    let earlier = store.current_roster();
    store.replace_roster(&names(&["bob"]));
    assert_eq!(earlier, vec![profile("alice")]);
}

#[test]
fn store_resolves_senders() {
    let mut store = Store::new();
    store.replace_roster(&names(&["alice"]));
    assert_eq!(store.resolve(&"alice".to_string()), profile("alice"));
    assert_eq!(store.resolve(&"carol".to_string()), profile("carol"));
}
