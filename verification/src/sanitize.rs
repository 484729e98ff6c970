//! The sanitizer: the pass that makes a generic attribute map fit for the
//! store.

use crate::attr::{lists, AttrMap, AttrValue, Value};
use crate::edges::edge_record;
use vstd::prelude::*;
use vstd::string::*;

verus! {

/// What the sanitizer makes of one value: nothing of a null, of a
/// tagged-enum wrapper (a nested map that holds the name `___enum_tag`)
/// the value under that name, and of any other value the value itself.
pub open spec fn sanitized_value(value: Value) -> Option<Value> {
    match value {
        Value::Null => None,
        Value::Nested(fields) => if fields.contains_key("___enum_tag"@) {
            Some(fields["___enum_tag"@])
        } else {
            Some(value)
        },
        _ => Some(value),
    }
}

/// The sanitized record: the names whose values are not null, each with
/// its sanitized value.
pub open spec fn sanitized(record: Map<Seq<char>, Value>) -> Map<Seq<char>, Value> {
    Map::new(
        |name: Seq<char>| record.contains_key(name) && sanitized_value(record[name]) is Some,
        |name: Seq<char>| sanitized_value(record[name])->0,
    )
}

/// A value that the store takes as it is: neither a null nor a tagged-enum
/// wrapper.
pub open spec fn is_plain(value: Value) -> bool {
    sanitized_value(value) == Some(value)
}

/// A record that the store takes as it is.
pub open spec fn is_clean(record: Map<Seq<char>, Value>) -> bool {
    forall|name: Seq<char>| record.contains_key(name) ==> is_plain(#[trigger] record[name])
}

/// Removes every null from a record and puts each tagged-enum wrapper's
/// tag in the wrapper's place.
pub fn clean_item(item: AttrMap) -> (cleaned: AttrMap)
    ensures
        cleaned@ == sanitized(item@),
{
    let ghost record = item@;
    let mut entries = item.into_entries();
    let ghost all = entries@;
    let mut cleaned = AttrMap::new();
    while entries.len() > 0
        invariant
            lists(all, record),
            entries@.len() <= all.len(),
            entries@ == all.take(entries@.len() as int),
            forall|name: Seq<char>| #[trigger]
                cleaned@.contains_key(name) <==> exists|i: int|
                    entries@.len() <= i < all.len() && (#[trigger] all[i]).0@ == name
                        && sanitized_value(all[i].1@) is Some,
            forall|i: int|
                entries@.len() <= i < all.len() && sanitized_value((#[trigger] all[i]).1@) is Some
                    ==> cleaned@[all[i].0@] == sanitized_value(all[i].1@)->0,
        decreases entries@.len(),
    {
        let ghost n = entries@.len() - 1;
        let ghost before = cleaned@;
        let (name, value) = entries.pop().unwrap();
        assert(all[n].0@ == name@ && all[n].1@ == value@) by {
            assert(all.take(n + 1)[n] == all[n]);
        }
        assert(entries@ =~= all.take(n));
        assert(!before.contains_key(name@));
        match value {
            AttrValue::Null => {},
            AttrValue::Nested(mut fields) => {
                let tag_name = String::from_str("___enum_tag");
                if fields.contains_key(&tag_name) {
                    let tag = fields.remove(&tag_name).unwrap();
                    cleaned.insert(name, tag);
                } else {
                    cleaned.insert(name, AttrValue::Nested(fields));
                }
            },
            other => {
                cleaned.insert(name, other);
            },
        }
        proof {
            let kept = sanitized_value(all[n].1@);
            assert(cleaned@ == if kept is Some {
                before.insert(all[n].0@, kept->0)
            } else {
                before
            });
            assert forall|name: Seq<char>| #[trigger] cleaned@.contains_key(name) implies exists|
                i: int,
            |
                n <= i < all.len() && (#[trigger] all[i]).0@ == name && sanitized_value(all[i].1@)
                    is Some by {
                if name == all[n].0@ {
                    assert(all[n].0@ == name);
                } else {
                    assert(before.contains_key(name));
                    let i = choose|i: int|
                        n + 1 <= i < all.len() && (#[trigger] all[i]).0@ == name && sanitized_value(
                            all[i].1@,
                        ) is Some;
                    assert(all[i].0@ == name);
                }
            }
            assert forall|i: int|
                n <= i < all.len() && sanitized_value((#[trigger] all[i]).1@) is Some implies cleaned@.contains_key(
                all[i].0@,
            ) && cleaned@[all[i].0@] == sanitized_value(all[i].1@)->0 by {
                if i > n {
                    assert(all[n].0@ != all[i].0@);
                    assert(before.contains_key(all[i].0@));
                }
            }
        }
    }
    proof {
        assert(cleaned@ =~= sanitized(record)) by {
            assert forall|name: Seq<char>| cleaned@.contains_key(name) implies sanitized(
                record,
            ).contains_key(name) && cleaned@[name] == sanitized(record)[name] by {
                let i = choose|i: int|
                    0 <= i < all.len() && (#[trigger] all[i]).0@ == name && sanitized_value(all[i].1@)
                        is Some;
                assert(record.contains_key(all[i].0@));
            }
            assert forall|name: Seq<char>| sanitized(record).contains_key(
                name,
            ) implies cleaned@.contains_key(name) by {
                let i = choose|i: int| 0 <= i < all.len() && (#[trigger] all[i]).0@ == name;
                assert(record[all[i].0@] == all[i].1@);
            }
        }
    }
    cleaned
}

/// The sanitizer adds no name to a record, and drops a name only where its
/// value is null.
pub proof fn lemma_sanitized_names(record: Map<Seq<char>, Value>, name: Seq<char>)
    ensures
        sanitized(record).contains_key(name) <==> record.contains_key(name) && record[name]
            != Value::Null,
{
}

/// The sanitizer leaves a clean record as it is.
pub proof fn lemma_sanitized_clean(record: Map<Seq<char>, Value>)
    requires
        is_clean(record),
    ensures
        sanitized(record) == record,
{
    assert(sanitized(record) =~= record);
}

/// Where the tag of every wrapper in a record is itself a plain value, the
/// sanitized record is clean: it holds no null and no wrapper.
pub proof fn lemma_sanitized_is_clean(record: Map<Seq<char>, Value>)
    requires
        forall|name: Seq<char>|
            record.contains_key(name) ==> match #[trigger] record[name] {
                Value::Nested(fields) => fields.contains_key("___enum_tag"@) ==> is_plain(
                    fields["___enum_tag"@],
                ),
                _ => true,
            },
    ensures
        is_clean(sanitized(record)),
        sanitized(sanitized(record)) == sanitized(record),
{
    assert forall|name: Seq<char>| sanitized(record).contains_key(name) implies is_plain(
        #[trigger] sanitized(record)[name],
    ) by {
        let value = record[name];
    }
    lemma_sanitized_clean(sanitized(record));
}

/// The record of a relationship is clean: the sanitizer leaves it as it is.
pub proof fn lemma_edge_record_clean(
    pk: Seq<char>,
    other: Seq<char>,
    label: Seq<char>,
    profile: Option<Seq<char>>,
    created: u64,
)
    ensures
        is_clean(edge_record(pk, other, label, profile, created)),
        sanitized(edge_record(pk, other, label, profile, created)) == edge_record(
            pk,
            other,
            label,
            profile,
            created,
        ),
{
    lemma_sanitized_clean(edge_record(pk, other, label, profile, created));
}

} // verus!
