use dsaccess::data_structs::{get_type, Edge, Types};

fn type_of(key: &str) -> Types {
    get_type(&key.to_string())
}

#[test]
fn classifies_each_prefix_token() {
    assert_eq!(type_of("D#sales"), Types::Dataset);
    assert_eq!(type_of("U#alice"), Types::User);
    assert_eq!(type_of("A#acct-1"), Types::Account);
    assert_eq!(type_of("P#analyst"), Types::Profile);
    assert_eq!(type_of("S#s1"), Types::Subset);
}

#[test]
fn unknown_prefix_falls_back_to_edge() {
    assert_eq!(type_of("Z#sales"), Types::Edge);
    assert_eq!(type_of("X#"), Types::Edge);
    assert_eq!(type_of("d#sales"), Types::Edge);
    assert_eq!(type_of("DD#sales"), Types::Edge);
    assert_eq!(type_of("Dataset#sales"), Types::Edge);
}

#[test]
fn missing_token_falls_back_to_edge() {
    assert_eq!(type_of(""), Types::Edge);
    assert_eq!(type_of("#"), Types::Edge);
    assert_eq!(type_of("#D"), Types::Edge);
    assert_eq!(type_of("sales"), Types::Edge);
}

#[test]
fn bare_token_classifies_without_delimiter() {
    assert_eq!(type_of("D"), Types::Dataset);
    assert_eq!(type_of("U"), Types::User);
    assert_eq!(type_of("S"), Types::Subset);
}

#[test]
fn only_the_first_token_counts() {
    assert_eq!(type_of("D#U#alice"), Types::Dataset);
    assert_eq!(type_of("U#D#sales"), Types::User);
    assert_eq!(type_of("D#"), Types::Dataset);
    assert_eq!(type_of("D##"), Types::Dataset);
}

#[test]
fn name_may_hold_any_characters() {
    assert_eq!(type_of("D#données#é"), Types::Dataset);
    assert_eq!(type_of("é#sales"), Types::Edge);
    assert_eq!(type_of("Dé#sales"), Types::Edge);
}

#[test]
fn edge_new_reads_types_off_the_keys() {
    let edge = Edge::new("D#sales".to_string(), "U#alice".to_string());
    assert_eq!(edge.pk1, "D#sales");
    assert_eq!(edge.pk2, "U#alice");
    assert_eq!(edge.pk1_type, Types::Dataset);
    assert_eq!(edge.pk2_type, Types::User);
    assert_eq!(edge.profile, None);
}

#[test]
fn edge_new_never_yields_steward() {
    let edge = Edge::new("Steward#x".to_string(), "T#x".to_string());
    assert_eq!(edge.pk1_type, Types::Edge);
    assert_eq!(edge.pk2_type, Types::Edge);
}

#[test]
fn type_names() {
    assert_eq!(Types::Dataset.to_string(), "Dataset");
    assert_eq!(Types::Profile.to_string(), "Profile");
    assert_eq!(Types::User.to_string(), "User");
    assert_eq!(Types::Account.to_string(), "Account");
    assert_eq!(Types::Subset.to_string(), "Subset");
    assert_eq!(Types::Edge.to_string(), "Edge");
    assert_eq!(Types::Steward.to_string(), "Steward");
}
