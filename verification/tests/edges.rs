use dsaccess::attr::{AttrMap, AttrValue};
use dsaccess::data_structs::{Edge, Types};
use dsaccess::edges::{generate_edge_item, generate_edge_items, relation};
use dsaccess::errors::RequestError;

fn text_at(map: &AttrMap, name: &str) -> Option<String> {
    match map.get(&name.to_string()) {
        Some(AttrValue::Text(t)) => Some(t.clone()),
        _ => None,
    }
}

fn edge(pk1: &str, pk2: &str) -> Edge {
    Edge::new(pk1.to_string(), pk2.to_string())
}

#[test]
fn matrix_links_dataset_to_user_account_subset_steward() {
    assert_eq!(relation(Types::Dataset, Types::User), Some(("has_member", Some("is_member_of"))));
    assert_eq!(relation(Types::Dataset, Types::Account), Some(("has_member", Some("is_member_of"))));
    assert_eq!(relation(Types::Dataset, Types::Subset), Some(("has_subset", None)));
    assert_eq!(
        relation(Types::Dataset, Types::Steward),
        Some(("has_steward", Some("is_steward_of")))
    );
}

#[test]
fn matrix_links_no_other_pair() {
    let all = [
        Types::Dataset,
        Types::Profile,
        Types::User,
        Types::Account,
        Types::Subset,
        Types::Edge,
        Types::Steward,
    ];
    let mut linked = 0;
    for a in all {
        for b in all {
            if relation(a, b).is_some() {
                linked += 1;
                assert_eq!(a, Types::Dataset);
                assert!(matches!(
                    b,
                    Types::User | Types::Account | Types::Subset | Types::Steward
                ));
            }
        }
    }
    assert_eq!(linked, 4);
}

#[test]
fn edge_item_without_profile() {
    let item = generate_edge_item(
        "D#sales".to_string(),
        "U#alice".to_string(),
        "has_member".to_string(),
        None,
        1_600_000_000,
    );
    assert_eq!(item.len(), 4);
    assert_eq!(text_at(&item, "pk").as_deref(), Some("D#sales"));
    assert_eq!(text_at(&item, "sk").as_deref(), Some("has_member#U#alice"));
    assert_eq!(text_at(&item, "created").as_deref(), Some("1600000000"));
    assert_eq!(text_at(&item, "type").as_deref(), Some("Edge"));
    assert!(!item.contains_key(&"profile".to_string()));
}

#[test]
fn edge_item_with_profile() {
    let item = generate_edge_item(
        "D#sales".to_string(),
        "U#alice".to_string(),
        "has_member".to_string(),
        Some("analyst".to_string()),
        5,
    );
    assert_eq!(item.len(), 5);
    assert_eq!(text_at(&item, "profile").as_deref(), Some("P#analyst"));
    assert_eq!(text_at(&item, "created").as_deref(), Some("5"));
}

#[test]
fn dataset_user_edge_gives_two_records() {
    let items = generate_edge_items(edge("D#sales", "U#alice"), 1_600_000_000).unwrap();
    assert_eq!(items.len(), 2);
    assert_eq!(text_at(&items[0], "pk").as_deref(), Some("D#sales"));
    assert_eq!(text_at(&items[0], "sk").as_deref(), Some("has_member#U#alice"));
    assert_eq!(text_at(&items[0], "type").as_deref(), Some("Edge"));
    assert_eq!(text_at(&items[1], "pk").as_deref(), Some("U#alice"));
    assert_eq!(text_at(&items[1], "sk").as_deref(), Some("is_member_of#D#sales"));
    assert_eq!(text_at(&items[1], "type").as_deref(), Some("Edge"));
    assert_eq!(text_at(&items[0], "created"), text_at(&items[1], "created"));
    assert_eq!(text_at(&items[0], "created").as_deref(), Some("1600000000"));
    assert_eq!(items[0].len(), 4);
    assert_eq!(items[1].len(), 4);
}

#[test]
fn dataset_account_edge_gives_two_records() {
    let items = generate_edge_items(edge("D#sales", "A#acct"), 3).unwrap();
    assert_eq!(items.len(), 2);
    assert_eq!(text_at(&items[0], "sk").as_deref(), Some("has_member#A#acct"));
    assert_eq!(text_at(&items[1], "pk").as_deref(), Some("A#acct"));
    assert_eq!(text_at(&items[1], "sk").as_deref(), Some("is_member_of#D#sales"));
}

#[test]
fn dataset_subset_edge_gives_one_record() {
    let items = generate_edge_items(edge("D#sales", "S#s1"), 3).unwrap();
    assert_eq!(items.len(), 1);
    assert_eq!(text_at(&items[0], "pk").as_deref(), Some("D#sales"));
    assert_eq!(text_at(&items[0], "sk").as_deref(), Some("has_subset#S#s1"));
}

#[test]
fn dataset_steward_edge_gives_two_records() {
    let steward = Edge {
        pk1: "D#sales".to_string(),
        pk2: "carol".to_string(),
        profile: None,
        pk1_type: Types::Dataset,
        pk2_type: Types::Steward,
    };
    let items = generate_edge_items(steward, 3).unwrap();
    assert_eq!(items.len(), 2);
    assert_eq!(text_at(&items[0], "sk").as_deref(), Some("has_steward#carol"));
    assert_eq!(text_at(&items[1], "pk").as_deref(), Some("carol"));
    assert_eq!(text_at(&items[1], "sk").as_deref(), Some("is_steward_of#D#sales"));
}

#[test]
fn both_records_carry_the_profile() {
    let mut e = edge("D#sales", "U#alice");
    e.profile = Some("analyst".to_string());
    let items = generate_edge_items(e, 3).unwrap();
    assert_eq!(items.len(), 2);
    assert_eq!(text_at(&items[0], "profile").as_deref(), Some("P#analyst"));
    assert_eq!(text_at(&items[1], "profile").as_deref(), Some("P#analyst"));
    assert_eq!(items[0].len(), 5);
}

#[test]
fn incompatible_types_fail() {
    let result = generate_edge_items(edge("U#bob", "U#alice"), 3);
    assert!(matches!(result, Err(RequestError::IncompatibleTypes)));
    let result = generate_edge_items(edge("Z#x", "Q#y"), 3);
    assert!(matches!(result, Err(RequestError::IncompatibleTypes)));
    let result = generate_edge_items(edge("D#a", "D#b"), 3);
    assert!(matches!(result, Err(RequestError::IncompatibleTypes)));
    let result = generate_edge_items(edge("D#a", "P#b"), 3);
    assert!(matches!(result, Err(RequestError::IncompatibleTypes)));
}

#[test]
fn endpoints_in_the_other_order_fail() {
    let result = generate_edge_items(edge("U#alice", "D#sales"), 3);
    assert!(matches!(result, Err(RequestError::IncompatibleTypes)));
    let result = generate_edge_items(edge("S#s1", "D#sales"), 3);
    assert!(matches!(result, Err(RequestError::IncompatibleTypes)));
}

#[test]
fn the_types_of_the_edge_decide_not_its_keys() {
    let odd = Edge {
        pk1: "U#alice".to_string(),
        pk2: "D#sales".to_string(),
        profile: None,
        pk1_type: Types::Dataset,
        pk2_type: Types::Subset,
    };
    let items = generate_edge_items(odd, 3).unwrap();
    assert_eq!(items.len(), 1);
    assert_eq!(text_at(&items[0], "pk").as_deref(), Some("U#alice"));
    assert_eq!(text_at(&items[0], "sk").as_deref(), Some("has_subset#D#sales"));
}
