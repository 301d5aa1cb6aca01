use inrush::string_map::StringMap;

fn text(s: &str) -> String {
    s.to_string()
}

#[test]
fn an_empty_map_holds_nothing() {
    let map = StringMap::new();
    assert_eq!(map.get("a"), None);
    assert!(map.entries().is_empty());
    assert!(StringMap::default().entries().is_empty());
}

#[test]
fn insert_replaces_what_was_there() {
    let mut map = StringMap::singleton(text("a"), text("1"));
    map.insert(text("b"), text("2"));
    map.insert(text("a"), text("3"));
    assert_eq!(map.get("a"), Some(&text("3")));
    assert_eq!(map.get("b"), Some(&text("2")));
    assert_eq!(map.get("c"), None);
    assert_eq!(
        map.entries(),
        &vec![(text("a"), text("3")), (text("b"), text("2"))]
    );
}

#[test]
fn extend_prefers_what_comes_in() {
    let mut map = StringMap::singleton(text("a"), text("1"));
    map.insert(text("b"), text("2"));
    let mut other = StringMap::singleton(text("b"), text("20"));
    other.insert(text("c"), text("30"));
    map.extend(&other);
    assert_eq!(map.get("a"), Some(&text("1")));
    assert_eq!(map.get("b"), Some(&text("20")));
    assert_eq!(map.get("c"), Some(&text("30")));
    assert_eq!(map.entries().len(), 3);
}

#[test]
fn a_clone_is_independent() {
    let map = StringMap::singleton(text("a"), text("1"));
    let mut copy = map.clone();
    copy.insert(text("a"), text("2"));
    assert_eq!(map.get("a"), Some(&text("1")));
    assert_eq!(copy.get("a"), Some(&text("2")));
}

#[test]
fn keys_differ_by_case_and_by_length() {
    let mut map = StringMap::singleton(text("key"), text("1"));
    map.insert(text("Key"), text("2"));
    map.insert(text("keys"), text("3"));
    map.insert(text(""), text("4"));
    assert_eq!(map.entries().len(), 4);
    assert_eq!(map.get("key"), Some(&text("1")));
    assert_eq!(map.get(""), Some(&text("4")));
}
