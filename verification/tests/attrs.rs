use cfc::attrs::{Attributes, KeyedList, NormalizedMap};

fn strings(items: &[&str]) -> Vec<String> {
    items.iter().map(|s| s.to_string()).collect()
}

#[test]
fn keyed_list_starts_empty() {
    let list: Attributes = KeyedList::new();
    assert!(list.is_empty());
    assert_eq!(list.len(), 0);
    assert_eq!(list.get("kind"), None);
    assert!(!list.contains_key("kind"));
}

#[test]
fn keyed_list_insert_sets_and_replaces() {
    let mut list: Attributes = KeyedList::new();
    list.insert("kind".to_string(), strings(&["job-exec"]));
    list.insert("name".to_string(), strings(&["a"]));
    list.insert("kind".to_string(), strings(&["job-run"]));
    assert_eq!(list.len(), 2);
    assert_eq!(list.get("kind"), Some(&strings(&["job-run"])));
    assert_eq!(list.get("name"), Some(&strings(&["a"])));
    assert_eq!(list.position("kind"), Some(0));
    assert_eq!(list.position("name"), Some(1));
    assert_eq!(list.key_at(0), "kind");
    assert_eq!(list.value_at(1), &strings(&["a"]));
}

#[test]
fn keyed_list_remove_takes_the_entry_out() {
    let mut list: Attributes = KeyedList::new();
    list.insert("a".to_string(), strings(&["1"]));
    list.insert("b".to_string(), strings(&["2"]));
    list.insert("c".to_string(), strings(&["3"]));
    assert_eq!(list.remove("b"), Some(strings(&["2"])));
    assert_eq!(list.remove("b"), None);
    assert_eq!(list.len(), 2);
    assert_eq!(list.position("c"), Some(1));
    assert_eq!(list.get("a"), Some(&strings(&["1"])));
}

#[test]
fn keyed_list_replace_at_keeps_the_key_and_the_place() {
    let mut map: NormalizedMap = KeyedList::new();
    let mut first: Attributes = KeyedList::new();
    first.insert("x".to_string(), strings(&["1"]));
    map.insert("one".to_string(), first);
    map.insert("two".to_string(), KeyedList::new());
    let taken = map.replace_at(0, KeyedList::new());
    assert_eq!(taken.get("x"), Some(&strings(&["1"])));
    assert_eq!(map.key_at(0), "one");
    assert!(map.value_at(0).is_empty());
    assert_eq!(map.len(), 2);
}

#[test]
fn keyed_list_keys_are_told_apart_by_every_character() {
    let mut list: Attributes = KeyedList::new();
    list.insert("volume".to_string(), strings(&["a"]));
    list.insert("volumes".to_string(), strings(&["b"]));
    list.insert("Volume".to_string(), strings(&["c"]));
    assert_eq!(list.len(), 3);
    assert_eq!(list.get("volumes"), Some(&strings(&["b"])));
}
