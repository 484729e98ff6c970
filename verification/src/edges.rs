//! The compatibility matrix of entity types and the relationship records
//! that an edge is written out as.

use crate::attr::{AttrMap, Value};
use crate::data_structs::{name_of_type, Edge, EdgeView, Types};
use crate::errors::RequestError;
use crate::text::{copy_of, decimal, decimal_digits, join, joined, opt_text};
use vstd::prelude::*;
use vstd::string::*;

verus! {

/// The labels under which two entity types are linked: the label of the
/// record from the first to the second and, where the relation is recorded
/// in both directions, the label of the record back. `None` where the pair
/// cannot be linked.
pub open spec fn relation_labels(from: Types, to: Types) -> Option<(Seq<char>, Option<Seq<char>>)> {
    match (from, to) {
        (Types::Dataset, Types::User) => Some(("has_member"@, Some("is_member_of"@))),
        (Types::Dataset, Types::Account) => Some(("has_member"@, Some("is_member_of"@))),
        (Types::Dataset, Types::Subset) => Some(("has_subset"@, None)),
        (Types::Dataset, Types::Steward) => Some(("has_steward"@, Some("is_steward_of"@))),
        _ => None,
    }
}

/// The record of one direction of a relationship: from the entity `pk`,
/// under `label`, to the entity `other`.
pub open spec fn edge_record(
    pk: Seq<char>,
    other: Seq<char>,
    label: Seq<char>,
    profile: Option<Seq<char>>,
    created: u64,
) -> Map<Seq<char>, Value> {
    let record = Map::<Seq<char>, Value>::empty().insert("pk"@, Value::Text(pk)).insert(
        "sk"@,
        Value::Text(joined(label, other)),
    ).insert("created"@, Value::Text(decimal_digits(created as nat))).insert(
        "type"@,
        Value::Text(name_of_type(Types::Edge)),
    );
    match profile {
        Some(p) => record.insert("profile"@, Value::Text(joined("P"@, p))),
        None => record,
    }
}

/// The records that an edge is written out as, all with one timestamp:
/// two for a relation that is recorded in both directions, one for a
/// relation that is recorded forward only. `None` where the endpoint
/// types cannot be linked.
pub open spec fn edge_records(edge: EdgeView, created: u64) -> Option<Seq<Map<Seq<char>, Value>>> {
    match relation_labels(edge.pk1_type, edge.pk2_type) {
        Some((forward, Some(backward))) => Some(
            seq![
                edge_record(edge.pk1, edge.pk2, forward, edge.profile, created),
                edge_record(edge.pk2, edge.pk1, backward, edge.profile, created),
            ],
        ),
        Some((forward, None)) => Some(
            seq![edge_record(edge.pk1, edge.pk2, forward, edge.profile, created)],
        ),
        None => None,
    }
}

/// The maps that a sequence of records stands for.
pub open spec fn records_view(records: Seq<AttrMap>) -> Seq<Map<Seq<char>, Value>> {
    records.map_values(|record: AttrMap| record@)
}

/// Looks a pair of entity types up in the compatibility matrix.
pub fn relation(from: Types, to: Types) -> (labels: Option<(&'static str, Option<&'static str>)>)
    ensures
        match relation_labels(from, to) {
            Some((forward, backward)) => labels matches Some((f, b)) && f@ == forward && match backward {
                Some(back) => b matches Some(t) && t@ == back,
                None => b is None,
            },
            None => labels is None,
        },
{
    match (from, to) {
        (Types::Dataset, Types::User) => Some(("has_member", Some("is_member_of"))),
        (Types::Dataset, Types::Account) => Some(("has_member", Some("is_member_of"))),
        (Types::Dataset, Types::Subset) => Some(("has_subset", None)),
        (Types::Dataset, Types::Steward) => Some(("has_steward", Some("is_steward_of"))),
        _ => None,
    }
}

/// Builds the record of one direction of a relationship.
pub fn generate_edge_item(
    pk1: String,
    pk2: String,
    rel: String,
    profile: Option<String>,
    created: u64,
) -> (item: AttrMap)
    ensures
        item@ == edge_record(pk1@, pk2@, rel@, opt_text(profile), created),
{
    let mut item = AttrMap::new();
    item.set_text(String::from_str("pk"), pk1);
    item.set_text(String::from_str("sk"), join(rel.as_str(), pk2.as_str()));
    item.set_text(String::from_str("created"), decimal(created));
    item.set_text(String::from_str("type"), Types::Edge.to_string());
    if let Some(p) = profile {
        item.set_text(String::from_str("profile"), join("P", p.as_str()));
    }
    item
}

/// Writes an edge out as its relationship records, all stamped `created`.
/// Fails where the types of its endpoints cannot be linked.
pub fn generate_edge_items(edge: Edge, created: u64) -> (items: Result<Vec<AttrMap>, RequestError>)
    ensures
        match edge_records(edge@, created) {
            Some(records) => items matches Ok(v) && records_view(v@) == records,
            None => items == Err::<Vec<AttrMap>, RequestError>(RequestError::IncompatibleTypes),
        },
{
    let Edge { pk1, pk2, profile, pk1_type, pk2_type } = edge;
    match relation(pk1_type, pk2_type) {
        Some((forward, Some(backward))) => {
            let first = generate_edge_item(
                pk1.clone(),
                pk2.clone(),
                String::from_str(forward),
                copy_of(&profile),
                created,
            );
            let second = generate_edge_item(pk2, pk1, String::from_str(backward), profile, created);
            let mut items: Vec<AttrMap> = Vec::new();
            items.push(first);
            items.push(second);
            assert(records_view(items@) =~= edge_records(edge@, created)->0);
            Ok(items)
        },
        Some((forward, None)) => {
            let first = generate_edge_item(pk1, pk2, String::from_str(forward), profile, created);
            let mut items: Vec<AttrMap> = Vec::new();
            items.push(first);
            assert(records_view(items@) =~= edge_records(edge@, created)->0);
            Ok(items)
        },
        None => Err(RequestError::IncompatibleTypes),
    }
}

/// The fields of a relationship's record: the key of the entity that it
/// starts from, the label and the key of the entity that it leads to, the
/// timestamp in decimal, the type `Edge` and, only where the edge has one,
/// the profile behind `P#`. It holds nothing else.
pub proof fn lemma_edge_record_fields(
    pk: Seq<char>,
    other: Seq<char>,
    label: Seq<char>,
    profile: Option<Seq<char>>,
    created: u64,
)
    ensures
        ({
            let record = edge_record(pk, other, label, profile, created);
            &&& record.dom().finite()
            &&& record.contains_key("pk"@) && record["pk"@] == Value::Text(pk)
            &&& record.contains_key("sk"@) && record["sk"@] == Value::Text(joined(label, other))
            &&& record.contains_key("created"@) && record["created"@] == Value::Text(
                decimal_digits(created as nat),
            )
            &&& record.contains_key("type"@) && record["type"@] == Value::Text("Edge"@)
            &&& match profile {
                Some(p) => record.len() == 5 && record.contains_key("profile"@) && record["profile"@]
                    == Value::Text(joined("P"@, p)),
                None => record.len() == 4 && !record.contains_key("profile"@),
            }
        }),
{
    reveal_strlit("pk");
    reveal_strlit("sk");
    reveal_strlit("created");
    reveal_strlit("type");
    reveal_strlit("profile");
    assert("pk"@.len() == 2 && "sk"@.len() == 2 && "type"@.len() == 4);
    assert("created"@.len() == 7 && "profile"@.len() == 7);
    assert("pk"@[0] != "sk"@[0]);
    assert("profile"@[0] != "created"@[0]);
    let fixed = set!["pk"@, "sk"@, "created"@, "type"@];
    let record = edge_record(pk, other, label, profile, created);
    match profile {
        Some(p) => {
            assert(record.dom() =~= fixed.insert("profile"@));
        },
        None => {
            assert(record.dom() =~= fixed);
        },
    }
}

/// An edge is written out exactly where the matrix links the types of its
/// endpoints, and only a dataset stands first in a linked pair. The first
/// record starts from the first endpoint. A second record, which every
/// linked pair but dataset and subset has, starts from the second endpoint
/// and carries the timestamp of the first.
pub proof fn lemma_edge_records_shape(edge: EdgeView, created: u64)
    ensures
        edge_records(edge, created) is Some <==> relation_labels(edge.pk1_type, edge.pk2_type)
            is Some,
        relation_labels(edge.pk1_type, edge.pk2_type) is Some ==> edge.pk1_type == Types::Dataset,
        edge_records(edge, created) matches Some(records) ==> {
            &&& records.len() == if edge.pk2_type == Types::Subset {
                1nat
            } else {
                2nat
            }
            &&& records[0]["pk"@] == Value::Text(edge.pk1)
            &&& records.len() == 2 ==> records[1]["pk"@] == Value::Text(edge.pk2)
                && records[1]["created"@] == records[0]["created"@]
        },
{
    if let Some(labels) = relation_labels(edge.pk1_type, edge.pk2_type) {
        lemma_edge_record_fields(edge.pk1, edge.pk2, labels.0, edge.profile, created);
        if let Some(backward) = labels.1 {
            lemma_edge_record_fields(edge.pk2, edge.pk1, backward, edge.profile, created);
        }
    }
}

} // verus!
