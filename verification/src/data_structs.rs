//! Entity types, the records that describe them, and the classifier that
//! reads an entity's type off the prefix of its key.

use crate::text::opt_text;
use vstd::prelude::*;
use vstd::string::*;

verus! {

/// The closed set of entity types.
#[derive(Clone, Copy, Debug, PartialEq, Eq, Structural)]
pub enum Types {
    Dataset,
    Profile,
    User,
    Account,
    Subset,
    Edge,
    Steward,
}

/// How critical a dataset is.
#[derive(Clone, Copy, Debug, PartialEq, Eq, Structural)]
pub enum Criticality {
    Critical,
    NonCritical,
}

/// How confidential a dataset is.
#[derive(Clone, Copy, Debug, PartialEq, Eq, Structural)]
pub enum Confidentiality {
    StrictlyConfidential,
    Confidential,
    Internal,
    Public,
}

/// A dataset. Its keys, its type and the time of its creation are unset
/// until it is prepared for the store.
#[derive(Clone, Debug)]
pub struct Dataset {
    pub name: String,
    pub pk: Option<String>,
    pub sk: Option<String>,
    pub gsi1_pk: Option<String>,
    pub gsi1_sk: Option<String>,
    pub entity_type: Option<Types>,
    pub created: Option<u64>,
    pub cost_center: Option<String>,
    pub owner: String,
    pub criticality: Criticality,
    pub confidentiality: Confidentiality,
}

/// The mathematical value of a [`Dataset`].
pub struct DatasetView {
    pub name: Seq<char>,
    pub pk: Option<Seq<char>>,
    pub sk: Option<Seq<char>>,
    pub gsi1_pk: Option<Seq<char>>,
    pub gsi1_sk: Option<Seq<char>>,
    pub entity_type: Option<Types>,
    pub created: Option<u64>,
    pub cost_center: Option<Seq<char>>,
    pub owner: Seq<char>,
    pub criticality: Criticality,
    pub confidentiality: Confidentiality,
}

impl View for Dataset {
    type V = DatasetView;

    open spec fn view(&self) -> DatasetView {
        DatasetView {
            name: self.name@,
            pk: opt_text(self.pk),
            sk: opt_text(self.sk),
            gsi1_pk: opt_text(self.gsi1_pk),
            gsi1_sk: opt_text(self.gsi1_sk),
            entity_type: self.entity_type,
            created: self.created,
            cost_center: opt_text(self.cost_center),
            owner: self.owner@,
            criticality: self.criticality,
            confidentiality: self.confidentiality,
        }
    }
}

/// A subset of a dataset.
#[derive(Clone, Debug)]
pub struct Subset {}

/// A user. Its keys, its type and the time of its creation are unset until
/// it is prepared for the store.
#[derive(Clone, Debug)]
pub struct User {
    pub name: String,
    pub pk: Option<String>,
    pub sk: Option<String>,
    pub gsi1_pk: Option<String>,
    pub gsi1_sk: Option<String>,
    pub entity_type: Option<Types>,
    pub created: Option<u64>,
}

/// The mathematical value of a [`User`].
pub struct UserView {
    pub name: Seq<char>,
    pub pk: Option<Seq<char>>,
    pub sk: Option<Seq<char>>,
    pub gsi1_pk: Option<Seq<char>>,
    pub gsi1_sk: Option<Seq<char>>,
    pub entity_type: Option<Types>,
    pub created: Option<u64>,
}

impl View for User {
    type V = UserView;

    open spec fn view(&self) -> UserView {
        UserView {
            name: self.name@,
            pk: opt_text(self.pk),
            sk: opt_text(self.sk),
            gsi1_pk: opt_text(self.gsi1_pk),
            gsi1_sk: opt_text(self.gsi1_sk),
            entity_type: self.entity_type,
            created: self.created,
        }
    }
}

/// A profile under which a user acts.
#[derive(Clone, Debug)]
pub struct Profile {}

/// An account.
#[derive(Clone, Debug)]
pub struct Account {}

/// A relationship between two entities, before it is written out as rows.
#[derive(Debug)]
pub struct Edge {
    pub pk1: String,
    pub pk2: String,
    pub profile: Option<String>,
    pub pk1_type: Types,
    pub pk2_type: Types,
}

/// The mathematical value of an [`Edge`].
pub struct EdgeView {
    pub pk1: Seq<char>,
    pub pk2: Seq<char>,
    pub profile: Option<Seq<char>>,
    pub pk1_type: Types,
    pub pk2_type: Types,
}

impl View for Edge {
    type V = EdgeView;

    open spec fn view(&self) -> EdgeView {
        EdgeView {
            pk1: self.pk1@,
            pk2: self.pk2@,
            profile: opt_text(self.profile),
            pk1_type: self.pk1_type,
            pk2_type: self.pk2_type,
        }
    }
}

/// The name of an entity type, as it is written into a record.
pub open spec fn name_of_type(t: Types) -> Seq<char> {
    match t {
        Types::Dataset => "Dataset"@,
        Types::Profile => "Profile"@,
        Types::User => "User"@,
        Types::Account => "Account"@,
        Types::Subset => "Subset"@,
        Types::Edge => "Edge"@,
        Types::Steward => "Steward"@,
    }
}

impl Types {
    /// The type's name as an owned string.
    pub fn to_string(&self) -> (name: String)
        ensures
            name@ == name_of_type(*self),
    {
        match self {
            Types::Dataset => String::from_str("Dataset"),
            Types::Profile => String::from_str("Profile"),
            Types::User => String::from_str("User"),
            Types::Account => String::from_str("Account"),
            Types::Subset => String::from_str("Subset"),
            Types::Edge => String::from_str("Edge"),
            Types::Steward => String::from_str("Steward"),
        }
    }
}

/// The part of a key that stands before its first `#`; the whole key where
/// it holds none.
pub open spec fn first_token(key: Seq<char>) -> Seq<char>
    decreases key.len(),
{
    if key.len() == 0 || key[0] == '#' {
        Seq::empty()
    } else {
        seq![key[0]] + first_token(key.drop_first())
    }
}

/// The entity type that a prefix token stands for. A token outside the
/// table stands for `Edge`.
pub open spec fn type_of_token(token: Seq<char>) -> Types {
    if token == "D"@ {
        Types::Dataset
    } else if token == "U"@ {
        Types::User
    } else if token == "A"@ {
        Types::Account
    } else if token == "P"@ {
        Types::Profile
    } else if token == "S"@ {
        Types::Subset
    } else {
        Types::Edge
    }
}

/// The entity type of a key: that of its first token.
pub open spec fn classify(key: Seq<char>) -> Types {
    type_of_token(first_token(key))
}

/// The first token of a key is one character long exactly when the key
/// starts with a character other than `#` that ends the key or has `#`
/// behind it; that character is then the token.
pub proof fn lemma_first_token_single(key: Seq<char>)
    ensures
        first_token(key).len() == 1 <==> key.len() >= 1 && key[0] != '#' && (key.len() == 1
            || key[1] == '#'),
        first_token(key).len() == 1 ==> first_token(key) == seq![key[0]],
{
    if key.len() >= 1 && key[0] != '#' {
        let rest = key.drop_first();
        assert(first_token(key) == seq![key[0]] + first_token(rest));
        if rest.len() == 0 || rest[0] == '#' {
            assert(first_token(rest) == Seq::<char>::empty());
            assert(first_token(key) =~= seq![key[0]]);
        } else {
            assert(first_token(rest) == seq![rest[0]] + first_token(rest.drop_first()));
        }
    }
}

/// The five prefix tokens, character by character.
pub proof fn lemma_prefix_tokens()
    ensures
        "D"@ == seq!['D'],
        "U"@ == seq!['U'],
        "A"@ == seq!['A'],
        "P"@ == seq!['P'],
        "S"@ == seq!['S'],
{
    reveal_strlit("D");
    reveal_strlit("U");
    reveal_strlit("A");
    reveal_strlit("P");
    reveal_strlit("S");
    assert("D"@ =~= seq!['D']);
    assert("U"@ =~= seq!['U']);
    assert("A"@ =~= seq!['A']);
    assert("P"@ =~= seq!['P']);
    assert("S"@ =~= seq!['S']);
}

/// Infers an entity's type from the prefix token of its key.
pub fn get_type(pk: &String) -> (t: Types)
    ensures
        t == classify(pk@),
{
    proof {
        lemma_first_token_single(pk@);
        lemma_prefix_tokens();
    }
    let key = pk.as_str();
    let n: usize = key.unicode_len();
    if n == 0 {
        return Types::Edge;
    }
    if n >= 2 {
        let second = key.get_char(1);
        if second != '#' {
            return Types::Edge;
        }
    }
    let first = key.get_char(0);
    assert(first != '#' ==> first_token(pk@) == seq![first]);
    assert(seq![first][0] == first);
    if first == 'D' {
        Types::Dataset
    } else if first == 'U' {
        Types::User
    } else if first == 'A' {
        Types::Account
    } else if first == 'P' {
        Types::Profile
    } else if first == 'S' {
        Types::Subset
    } else {
        Types::Edge
    }
}

/// A token without `#`, followed by `#` and a name, is the first token of
/// the key that the three make.
pub proof fn lemma_first_token_of_key(token: Seq<char>, name: Seq<char>)
    requires
        forall|i: int| 0 <= i < token.len() ==> token[i] != '#',
    ensures
        first_token(token + seq!['#'] + name) == token,
    decreases token.len(),
{
    let key = token + seq!['#'] + name;
    if token.len() == 0 {
        assert(key[0] == '#');
        assert(first_token(key) =~= token);
    } else {
        assert(key[0] == token[0]);
        assert(key.drop_first() =~= token.drop_first() + seq!['#'] + name);
        lemma_first_token_of_key(token.drop_first(), name);
        assert(first_token(key) =~= token);
    }
}

/// A key classifies by its prefix token, whatever name follows.
pub proof fn lemma_classify_key(token: Seq<char>, name: Seq<char>)
    requires
        forall|i: int| 0 <= i < token.len() ==> token[i] != '#',
    ensures
        classify(token + seq!['#'] + name) == type_of_token(token),
{
    lemma_first_token_of_key(token, name);
}

/// Whatever name follows, the prefixes `D#`, `U#`, `A#`, `P#` and `S#` give
/// a key the type of a dataset, a user, an account, a profile and a subset;
/// a prefix outside the table, such as `Z#`, gives it the type `Edge`.
pub proof fn lemma_classify_prefixes(name: Seq<char>)
    ensures
        classify("D#"@ + name) == Types::Dataset,
        classify("U#"@ + name) == Types::User,
        classify("A#"@ + name) == Types::Account,
        classify("P#"@ + name) == Types::Profile,
        classify("S#"@ + name) == Types::Subset,
        classify("Z#"@ + name) == Types::Edge,
{
    lemma_prefix_tokens();
    reveal_strlit("D#");
    reveal_strlit("U#");
    reveal_strlit("A#");
    reveal_strlit("P#");
    reveal_strlit("S#");
    reveal_strlit("Z#");
    assert("D#"@ + name =~= seq!['D'] + seq!['#'] + name);
    assert("U#"@ + name =~= seq!['U'] + seq!['#'] + name);
    assert("A#"@ + name =~= seq!['A'] + seq!['#'] + name);
    assert("P#"@ + name =~= seq!['P'] + seq!['#'] + name);
    assert("S#"@ + name =~= seq!['S'] + seq!['#'] + name);
    assert("Z#"@ + name =~= seq!['Z'] + seq!['#'] + name);
    lemma_classify_key(seq!['D'], name);
    lemma_classify_key(seq!['U'], name);
    lemma_classify_key(seq!['A'], name);
    lemma_classify_key(seq!['P'], name);
    lemma_classify_key(seq!['S'], name);
    lemma_classify_key(seq!['Z'], name);
    assert(seq!['Z'][0] == 'Z');
}

impl Edge {
    /// An edge between two keys, with each endpoint's type read off its key
    /// and no profile.
    pub fn new(pk1: String, pk2: String) -> (edge: Edge)
        ensures
            edge@ == (EdgeView {
                pk1: pk1@,
                pk2: pk2@,
                profile: None,
                pk1_type: classify(pk1@),
                pk2_type: classify(pk2@),
            }),
    {
        let pk1_type = get_type(&pk1);
        let pk2_type = get_type(&pk2);
        Edge { pk1_type, pk2_type, profile: None, pk1, pk2 }
    }
}

} // verus!
