use dsaccess::attr::{AttrMap, AttrValue};

fn key(name: &str) -> String {
    name.to_string()
}

fn text(map: &AttrMap, name: &str) -> Option<String> {
    match map.get(&key(name)) {
        Some(AttrValue::Text(t)) => Some(t.clone()),
        _ => None,
    }
}

#[test]
fn new_map_is_empty() {
    let map = AttrMap::new();
    assert_eq!(map.len(), 0);
    assert!(map.is_empty());
    assert!(!map.contains_key(&key("pk")));
    assert!(map.get(&key("pk")).is_none());
}

#[test]
fn insert_then_get() {
    let mut map = AttrMap::new();
    assert!(map.insert(key("pk"), AttrValue::Text(key("D#sales"))).is_none());
    assert!(map.insert(key("n"), AttrValue::Number(key("3"))).is_none());
    assert_eq!(map.len(), 2);
    assert!(!map.is_empty());
    assert!(map.contains_key(&key("pk")));
    assert_eq!(text(&map, "pk").as_deref(), Some("D#sales"));
    assert!(matches!(map.get(&key("n")), Some(AttrValue::Number(n)) if n == "3"));
    assert!(map.get(&key("sk")).is_none());
}

#[test]
fn insert_replaces_the_value_under_a_name() {
    let mut map = AttrMap::new();
    map.insert(key("pk"), AttrValue::Text(key("old")));
    let replaced = map.insert(key("pk"), AttrValue::Text(key("new")));
    assert!(matches!(replaced, Some(AttrValue::Text(t)) if t == "old"));
    assert_eq!(map.len(), 1);
    assert_eq!(text(&map, "pk").as_deref(), Some("new"));
}

#[test]
fn remove_takes_a_name_out() {
    let mut map = AttrMap::new();
    map.set_text(key("a"), key("1"));
    map.set_text(key("b"), key("2"));
    map.set_text(key("c"), key("3"));
    let removed = map.remove(&key("b"));
    assert!(matches!(removed, Some(AttrValue::Text(t)) if t == "2"));
    assert_eq!(map.len(), 2);
    assert!(!map.contains_key(&key("b")));
    assert_eq!(text(&map, "a").as_deref(), Some("1"));
    assert_eq!(text(&map, "c").as_deref(), Some("3"));
    assert!(map.remove(&key("b")).is_none());
    assert_eq!(map.len(), 2);
}

#[test]
fn set_text_stores_a_text_value() {
    let mut map = AttrMap::new();
    map.set_text(key("type"), key("Edge"));
    map.set_text(key("type"), key("Edge2"));
    assert_eq!(map.len(), 1);
    assert_eq!(text(&map, "type").as_deref(), Some("Edge2"));
}

#[test]
fn into_entries_lists_each_name_once() {
    let mut map = AttrMap::new();
    map.set_text(key("a"), key("1"));
    map.set_text(key("b"), key("2"));
    map.set_text(key("a"), key("3"));
    let mut entries: Vec<(String, String)> = Vec::new();
    for (name, value) in map.into_entries() {
        match value {
            AttrValue::Text(t) => entries.push((name, t)),
            _ => panic!("a text was stored"),
        }
    }
    entries.sort();
    assert_eq!(entries, vec![(key("a"), key("3")), (key("b"), key("2"))]);
}

#[test]
fn names_are_compared_exactly() {
    let mut map = AttrMap::new();
    map.set_text(key("pk"), key("1"));
    assert!(!map.contains_key(&key("PK")));
    assert!(!map.contains_key(&key("pk ")));
    assert!(!map.contains_key(&key("")));
}
