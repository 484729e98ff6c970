//! The key encoder: an entity's primary, sort and index keys, derived from
//! its type and its name.

use crate::data_structs::{
    classify, lemma_first_token_of_key, lemma_prefix_tokens, Dataset, DatasetView, Types, User,
    UserView,
};
use crate::text::{join, joined};
use vstd::prelude::*;
use vstd::string::*;

verus! {

/// The prefix token of the keys of an entity type. `Edge` and `Steward`
/// have none.
pub open spec fn prefix_of(entity_type: Types) -> Option<Seq<char>> {
    match entity_type {
        Types::Dataset => Some("D"@),
        Types::User => Some("U"@),
        Types::Account => Some("A"@),
        Types::Profile => Some("P"@),
        Types::Subset => Some("S"@),
        Types::Edge => None,
        Types::Steward => None,
    }
}

/// The category under which the entities of a type are indexed.
pub open spec fn category_of(entity_type: Types) -> Seq<char> {
    match entity_type {
        Types::Dataset => "dataset"@,
        Types::Profile => "profile"@,
        Types::User => "user"@,
        Types::Account => "account"@,
        Types::Subset => "subset"@,
        Types::Edge => "edge"@,
        Types::Steward => "steward"@,
    }
}

/// The keys of one entity.
#[derive(Debug)]
pub struct Keys {
    pub pk: String,
    pub sk: String,
    pub gsi1_pk: String,
    pub gsi1_sk: String,
}

/// The mathematical value of [`Keys`].
pub struct KeysView {
    pub pk: Seq<char>,
    pub sk: Seq<char>,
    pub gsi1_pk: Seq<char>,
    pub gsi1_sk: Seq<char>,
}

impl View for Keys {
    type V = KeysView;

    open spec fn view(&self) -> KeysView {
        KeysView { pk: self.pk@, sk: self.sk@, gsi1_pk: self.gsi1_pk@, gsi1_sk: self.gsi1_sk@ }
    }
}

/// The keys of the entity of a type and a name: the primary key is the
/// type's prefix token, `#` and the name; the sort key and the index's sort
/// key equal it; the index's partition key is the type's category. `None`
/// for a type without a prefix token.
pub open spec fn encoded(entity_type: Types, name: Seq<char>) -> Option<KeysView> {
    match prefix_of(entity_type) {
        Some(prefix) => Some(
            KeysView {
                pk: joined(prefix, name),
                sk: joined(prefix, name),
                gsi1_pk: category_of(entity_type),
                gsi1_sk: joined(prefix, name),
            },
        ),
        None => None,
    }
}

/// The prefix token of the keys of an entity type.
pub fn prefix(entity_type: Types) -> (token: Option<&'static str>)
    ensures
        match prefix_of(entity_type) {
            Some(p) => token matches Some(t) && t@ == p,
            None => token is None,
        },
{
    match entity_type {
        Types::Dataset => Some("D"),
        Types::User => Some("U"),
        Types::Account => Some("A"),
        Types::Profile => Some("P"),
        Types::Subset => Some("S"),
        Types::Edge => None,
        Types::Steward => None,
    }
}

/// The category under which the entities of a type are indexed.
pub fn category(entity_type: Types) -> (label: &'static str)
    ensures
        label@ == category_of(entity_type),
{
    match entity_type {
        Types::Dataset => "dataset",
        Types::Profile => "profile",
        Types::User => "user",
        Types::Account => "account",
        Types::Subset => "subset",
        Types::Edge => "edge",
        Types::Steward => "steward",
    }
}

/// Derives the keys of the entity of a type and a name.
pub fn encode(entity_type: Types, name: &String) -> (keys: Option<Keys>)
    ensures
        match encoded(entity_type, name@) {
            Some(k) => keys matches Some(got) && got@ == k,
            None => keys is None,
        },
{
    match prefix(entity_type) {
        Some(token) => {
            let pk = join(token, name.as_str());
            let sk = pk.clone();
            let gsi1_sk = pk.clone();
            Some(Keys { pk, sk, gsi1_pk: String::from_str(category(entity_type)), gsi1_sk })
        },
        None => None,
    }
}

/// A dataset as it is stored: stamped with the time of its creation, with
/// its keys and its type set.
pub open spec fn prepared_dataset(ds: DatasetView, now: u64) -> DatasetView {
    let keys = encoded(Types::Dataset, ds.name)->0;
    DatasetView {
        pk: Some(keys.pk),
        sk: Some(keys.sk),
        gsi1_pk: Some(keys.gsi1_pk),
        gsi1_sk: Some(keys.gsi1_sk),
        entity_type: Some(Types::Dataset),
        created: Some(now),
        ..ds
    }
}

/// A user as it is stored: stamped with the time of its creation, with its
/// keys and its type set.
pub open spec fn prepared_user(user: UserView, now: u64) -> UserView {
    let keys = encoded(Types::User, user.name)->0;
    UserView {
        pk: Some(keys.pk),
        sk: Some(keys.sk),
        gsi1_pk: Some(keys.gsi1_pk),
        gsi1_sk: Some(keys.gsi1_sk),
        entity_type: Some(Types::User),
        created: Some(now),
        ..user
    }
}

/// Stamps a dataset with the time of its creation and sets its keys and
/// its type.
pub fn prepare_dataset(ds: Dataset, now: u64) -> (prepared: Dataset)
    ensures
        prepared@ == prepared_dataset(ds@, now),
{
    let mut ds = ds;
    match encode(Types::Dataset, &ds.name) {
        Some(keys) => {
            ds.pk = Some(keys.pk);
            ds.sk = Some(keys.sk);
            ds.gsi1_pk = Some(keys.gsi1_pk);
            ds.gsi1_sk = Some(keys.gsi1_sk);
        },
        None => {},
    }
    ds.created = Some(now);
    ds.entity_type = Some(Types::Dataset);
    ds
}

/// Stamps a user with the time of its creation and sets its keys and its
/// type.
pub fn prepare_user(user: User, now: u64) -> (prepared: User)
    ensures
        prepared@ == prepared_user(user@, now),
{
    let mut user = user;
    match encode(Types::User, &user.name) {
        Some(keys) => {
            user.pk = Some(keys.pk);
            user.sk = Some(keys.sk);
            user.gsi1_pk = Some(keys.gsi1_pk);
            user.gsi1_sk = Some(keys.gsi1_sk);
        },
        None => {},
    }
    user.created = Some(now);
    user.entity_type = Some(Types::User);
    user
}

/// The keys of an entity agree with each other, and its primary key
/// classifies as the type that it was encoded for.
pub proof fn lemma_encoded_key_classifies(entity_type: Types, name: Seq<char>)
    requires
        prefix_of(entity_type) is Some,
    ensures
        encoded(entity_type, name) matches Some(keys) && keys.sk == keys.pk && keys.gsi1_sk
            == keys.pk && classify(keys.pk) == entity_type,
{
    lemma_prefix_tokens();
    let token = prefix_of(entity_type)->0;
    assert(token.len() == 1 && token[0] != '#');
    lemma_first_token_of_key(token, name);
}

/// Entities of one type have the same primary key exactly when they have
/// the same name.
pub proof fn lemma_encoded_key_names(entity_type: Types, name1: Seq<char>, name2: Seq<char>)
    requires
        prefix_of(entity_type) is Some,
    ensures
        encoded(entity_type, name1)->0.pk == encoded(entity_type, name2)->0.pk <==> name1 == name2,
{
    let token = prefix_of(entity_type)->0;
    let key1 = joined(token, name1);
    let key2 = joined(token, name2);
    if key1 == key2 {
        let n = token.len() + 1;
        assert(name1 =~= key1.subrange(n as int, key1.len() as int));
        assert(name2 =~= key2.subrange(n as int, key2.len() as int));
    }
}

/// A prepared dataset of the name `name` has the key `D#name` as its
/// primary key, its sort key and its index's sort key, is indexed under
/// `dataset`, has the type `Dataset` and the time `now` as that of its
/// creation. Preparing changes nothing else.
pub proof fn lemma_prepared_dataset(ds: DatasetView, now: u64)
    ensures
        ({
            let prepared = prepared_dataset(ds, now);
            &&& prepared.pk == Some("D#"@ + ds.name)
            &&& prepared.sk == prepared.pk
            &&& prepared.gsi1_sk == prepared.pk
            &&& prepared.gsi1_pk == Some("dataset"@)
            &&& prepared.entity_type == Some(Types::Dataset)
            &&& prepared.created == Some(now)
            &&& prepared.name == ds.name
            &&& prepared.cost_center == ds.cost_center
            &&& prepared.owner == ds.owner
            &&& prepared.criticality == ds.criticality
            &&& prepared.confidentiality == ds.confidentiality
        }),
{
    reveal_strlit("D");
    reveal_strlit("D#");
    assert(joined("D"@, ds.name) =~= "D#"@ + ds.name);
}

/// A prepared user of the name `name` has the key `U#name` as its primary
/// key, its sort key and its index's sort key, is indexed under `user`, has
/// the type `User` and the time `now` as that of its creation. Preparing
/// changes nothing else.
pub proof fn lemma_prepared_user(user: UserView, now: u64)
    ensures
        ({
            let prepared = prepared_user(user, now);
            &&& prepared.pk == Some("U#"@ + user.name)
            &&& prepared.sk == prepared.pk
            &&& prepared.gsi1_sk == prepared.pk
            &&& prepared.gsi1_pk == Some("user"@)
            &&& prepared.entity_type == Some(Types::User)
            &&& prepared.created == Some(now)
            &&& prepared.name == user.name
        }),
{
    reveal_strlit("U");
    reveal_strlit("U#");
    assert(joined("U"@, user.name) =~= "U#"@ + user.name);
}

} // verus!
