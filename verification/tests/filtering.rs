use ilia::filter::{contains_str, title_matches};
use ilia::item::{Item, ItemDescriptor};
use ilia::model::{Intent, State};

#[test]
fn matching_is_case_insensitive_substring_containment() {
    assert!(title_matches("Firefox", "fire"));
    assert!(title_matches("Firefox", "FIRE"));
    assert!(title_matches("Firefox", ""));
    assert!(!title_matches("Firefox", "firefoxx"));
    assert!(title_matches("Firefox", "Firefox"));
    assert!(title_matches("Firefox", "REF"));
    assert!(!title_matches("Firefox", "fox fire"));
}

#[test]
fn matching_lowers_beyond_ascii() {
    assert!(title_matches("Übersicht", "übers"));
    assert!(title_matches("übersicht", "ÜBER"));
    assert!(!title_matches("Übersicht", "ober"));
}

#[test]
fn substring_containment_on_raw_strings() {
    assert!(contains_str("hello world", "lo wo"));
    assert!(contains_str("hello world", ""));
    assert!(contains_str("", ""));
    assert!(!contains_str("", "a"));
    assert!(!contains_str("abc", "abcd"));
    assert!(contains_str("abc", "abc"));
    assert!(!contains_str("abc", "ac"));
}

#[test]
fn filtered_view_keeps_original_order_and_indices() {
    let mut state = State::new();
    let items = vec![
        Item::new(String::from("Alpha"), String::from("alpha")),
        Item::new(String::from("Bravo"), String::from("bravo")),
        Item::new(String::from("Charlie"), String::from("charlie")),
    ];
    let _ = state.update(Intent::Load(items));
    assert_eq!(state.filtered_view(), vec![0, 1, 2]);
    let _ = state.update(Intent::UpdateFilterText(String::from("a")));
    assert_eq!(state.filtered_view(), vec![0, 1, 2]);
    let _ = state.update(Intent::UpdateFilterText(String::from("AL")));
    assert_eq!(state.filtered_view(), vec![0]);
    let _ = state.update(Intent::UpdateFilterText(String::from("r")));
    assert_eq!(state.filtered_view(), vec![1, 2]);
    let _ = state.update(Intent::UpdateFilterText(String::from("zzz")));
    assert!(state.filtered_view().is_empty());
}

#[test]
fn item_exposes_title_and_action() {
    let it = Item::new(String::from("Files"), String::from("nautilus %U"));
    assert_eq!(it.title(), "Files");
    assert_eq!(it.exec(), "nautilus %U");
    let copy = it.clone();
    assert_eq!(copy.title, "Files");
    assert_eq!(copy.action, "nautilus %U");
}
