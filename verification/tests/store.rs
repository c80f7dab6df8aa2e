use json_editor::screens::main_screen::{format_entry, MainBody, KEY_COLUMN_WIDTH};
use json_editor::screens::MainScreen;
use json_editor::store::KeyValueStore;

fn s(text: &str) -> String {
    text.to_string()
}

#[test]
fn new_store_is_empty() {
    let store = KeyValueStore::new();
    assert!(store.is_empty());
    assert_eq!(store.len(), 0);
    assert!(store.entries().is_empty());
    assert!(!store.contains_key(&s("a")));
    assert_eq!(store.get(&s("a")), None);
}

#[test]
fn insert_adds_a_new_key() {
    let mut store = KeyValueStore::new();
    assert_eq!(store.insert(s("a"), s("1")), None);
    assert!(!store.is_empty());
    assert_eq!(store.len(), 1);
    assert!(store.contains_key(&s("a")));
    assert_eq!(store.get(&s("a")), Some(&s("1")));
    assert!(!store.contains_key(&s("b")));
}

#[test]
fn insert_replaces_the_value_of_a_known_key() {
    let mut store = KeyValueStore::new();
    store.insert(s("a"), s("1"));
    store.insert(s("b"), s("2"));
    assert_eq!(store.insert(s("a"), s("3")), Some(s("1")));
    assert_eq!(store.len(), 2);
    assert_eq!(store.get(&s("a")), Some(&s("3")));
    assert_eq!(store.get(&s("b")), Some(&s("2")));
}

#[test]
fn entries_keep_the_order_of_first_writes() {
    let mut store = KeyValueStore::new();
    store.insert(s("b"), s("1"));
    store.insert(s("a"), s("2"));
    store.insert(s("b"), s("3"));
    store.insert(s("c"), s("4"));
    assert_eq!(
        store.entries(),
        &vec![(s("b"), s("3")), (s("a"), s("2")), (s("c"), s("4"))]
    );
}

#[test]
fn keys_differ_by_case_and_by_white_space() {
    let mut store = KeyValueStore::new();
    store.insert(s("a"), s("1"));
    store.insert(s("A"), s("2"));
    store.insert(s("a "), s("3"));
    assert_eq!(store.len(), 3);
    assert_eq!(store.get(&s("a")), Some(&s("1")));
}

#[test]
fn short_keys_are_padded_to_the_column() {
    assert_eq!(KEY_COLUMN_WIDTH, 25);
    assert_eq!(
        format_entry(&s("name"), &s("Ada")),
        "name                      : Ada"
    );
    assert_eq!(format_entry(&s(""), &s("")), format!("{} : ", " ".repeat(25)));
}

#[test]
fn padding_counts_characters_not_bytes() {
    let line = format_entry(&s("é"), &s("v"));
    assert_eq!(line, format!("é{} : v", " ".repeat(24)));
    assert_eq!(line.chars().count(), 25 + 3 + 1);
}

#[test]
fn wide_keys_are_not_cut() {
    let key = "k".repeat(25);
    assert_eq!(format_entry(&key, &s("v")), format!("{} : v", key));
    let longer = "k".repeat(40);
    assert_eq!(format_entry(&longer, &s("v")), format!("{} : v", longer));
}

#[test]
fn lines_follow_the_standard_format() {
    for (key, value) in [("a", "b"), ("some key", "some value"), ("ünïcödé", "x y")] {
        assert_eq!(
            format_entry(&s(key), &s(value)),
            format!("{: <25} : {}", key, value)
        );
    }
}

#[test]
fn listing_has_one_line_for_each_entry() {
    let mut store = KeyValueStore::new();
    assert!(MainScreen.body_lines(&store).is_empty());
    store.insert(s("name"), s("Ada"));
    store.insert(s("role"), s("engineer"));
    store.insert(s("name"), s("Grace"));
    assert_eq!(
        MainScreen.body_lines(&store),
        vec![
            s("name                      : Grace"),
            s("role                      : engineer"),
        ]
    );
}

#[test]
fn an_empty_store_shows_the_notice() {
    assert_eq!(MainScreen.body(&KeyValueStore::new()), MainBody::NoData);
}

#[test]
fn a_store_with_one_entry_shows_its_listing() {
    let mut store = KeyValueStore::new();
    store.insert(s("name"), s("Ada"));
    assert_eq!(
        MainScreen.body(&store),
        MainBody::Listing(vec![s("name                      : Ada")])
    );
}
