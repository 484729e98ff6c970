//! Generic attribute values and attribute maps: the shape in which a record
//! reaches the store.

use vstd::prelude::*;

verus! {

/// The mathematical value of an attribute.
pub enum Value {
    /// No field of the store's attribute value is set.
    Empty,
    Null,
    Bool(bool),
    Text(Seq<char>),
    Number(Seq<char>),
    Binary(Seq<u8>),
    TextSet(Seq<Seq<char>>),
    NumberSet(Seq<Seq<char>>),
    BinarySet(Seq<Seq<u8>>),
    List(Seq<Value>),
    Nested(Map<Seq<char>, Value>),
}

/// One attribute value, in one of the store's data types.
#[derive(Debug)]
pub enum AttrValue {
    /// A value of no data type: the store's attribute value with no field
    /// set.
    Empty,
    Null,
    Bool(bool),
    Text(String),
    Number(String),
    Binary(Vec<u8>),
    TextSet(Vec<String>),
    NumberSet(Vec<String>),
    BinarySet(Vec<Vec<u8>>),
    List(Vec<AttrValue>),
    Nested(AttrMap),
}

/// A map from attribute names to values. No name occurs twice.
#[derive(Debug)]
pub struct AttrMap {
    entries: Vec<(String, AttrValue)>,
}

impl AttrValue {
    /// The mathematical value that this attribute value stands for.
    pub open spec fn view(&self) -> Value
        decreases self,
    {
        match self {
            AttrValue::Empty => Value::Empty,
            AttrValue::Null => Value::Null,
            AttrValue::Bool(b) => Value::Bool(*b),
            AttrValue::Text(s) => Value::Text(s@),
            AttrValue::Number(s) => Value::Number(s@),
            AttrValue::Binary(b) => Value::Binary(b@),
            AttrValue::TextSet(v) => Value::TextSet(v.deep_view()),
            AttrValue::NumberSet(v) => Value::NumberSet(v.deep_view()),
            AttrValue::BinarySet(v) => Value::BinarySet(v.deep_view()),
            // The bound on `i` is what lets the recursion end.
            AttrValue::List(v) => Value::List(
                Seq::new(
                    v@.len(),
                    |i: int|
                        if 0 <= i < v@.len() {
                            v@[i].view()
                        } else {
                            Value::Null
                        },
                ),
            ),
            AttrValue::Nested(m) => Value::Nested(m.view()),
        }
    }
}

/// Whether `entries` lists the map `m`: each name once, with its value.
pub open spec fn lists(entries: Seq<(String, AttrValue)>, m: Map<Seq<char>, Value>) -> bool {
    &&& forall|i: int, j: int|
        0 <= i < j < entries.len() ==> (#[trigger] entries[i]).0@ != (#[trigger] entries[j]).0@
    &&& forall|i: int|
        0 <= i < entries.len() ==> m.contains_key((#[trigger] entries[i]).0@) && m[entries[i].0@]
            == entries[i].1@
    &&& forall|k: Seq<char>| #[trigger]
        m.contains_key(k) ==> exists|i: int| 0 <= i < entries.len() && (#[trigger] entries[i]).0@ == k
}

/// A map is determined by a list of its entries.
pub proof fn lemma_lists_same(
    entries: Seq<(String, AttrValue)>,
    m1: Map<Seq<char>, Value>,
    m2: Map<Seq<char>, Value>,
)
    requires
        lists(entries, m1),
        lists(entries, m2),
    ensures
        m1 == m2,
{
    assert forall|k: Seq<char>| m1.contains_key(k) implies m2.contains_key(k) && m1[k] == m2[k] by {
        let i = choose|i: int| 0 <= i < entries.len() && (#[trigger] entries[i]).0@ == k;
        assert(m2.contains_key(entries[i].0@));
    }
    assert forall|k: Seq<char>| m2.contains_key(k) implies m1.contains_key(k) by {
        let i = choose|i: int| 0 <= i < entries.len() && (#[trigger] entries[i]).0@ == k;
        assert(m1.contains_key(entries[i].0@));
    }
    assert(m1 =~= m2);
}

/// The place of the name `key` among the entries.
fn position(entries: &Vec<(String, AttrValue)>, key: &String) -> (at: Option<usize>)
    ensures
        match at {
            Some(i) => i < entries@.len() && entries@[i as int].0@ == key@,
            None => forall|i: int| 0 <= i < entries@.len() ==> (#[trigger] entries@[i]).0@ != key@,
        },
{
    let mut i: usize = 0;
    while i < entries.len()
        invariant
            i <= entries@.len(),
            forall|j: int| 0 <= j < i ==> (#[trigger] entries@[j]).0@ != key@,
        decreases entries@.len() - i,
    {
        if entries[i].0 == *key {
            return Some(i);
        }
        i += 1;
    }
    None
}

/// Takes the entry of the name `key` out of a list of the map `m`.
fn take_entry(
    entries: &mut Vec<(String, AttrValue)>,
    key: &String,
    Ghost(m): Ghost<Map<Seq<char>, Value>>,
) -> (value: Option<AttrValue>)
    requires
        lists(old(entries)@, m),
    ensures
        lists(final(entries)@, m.remove(key@)),
        match value {
            Some(v) => m.contains_key(key@) && v@ == m[key@],
            None => !m.contains_key(key@),
        },
{
    let ghost before = entries@;
    match position(entries, key) {
        Some(i) => {
            let entry = entries.remove(i);
            proof {
                let after = m.remove(key@);
                assert(before[i as int] == entry);
                assert forall|a: int| 0 <= a < entries@.len() implies #[trigger] entries@[a]
                    == before[if a < i { a } else { a + 1 }] by {}
                assert forall|a: int| 0 <= a < entries@.len() implies after.contains_key(
                    (#[trigger] entries@[a]).0@,
                ) && after[entries@[a].0@] == entries@[a].1@ by {
                    let a0 = if a < i { a } else { a + 1 };
                    assert(entries@[a] == before[a0]);
                    if a0 < i {
                        assert(before[a0].0@ != before[i as int].0@);
                    } else {
                        assert(before[i as int].0@ != before[a0].0@);
                    }
                }
                assert forall|a: int, b: int|
                    0 <= a < b < entries@.len() implies (#[trigger] entries@[a]).0@
                    != (#[trigger] entries@[b]).0@ by {
                    let a0 = if a < i { a } else { a + 1 };
                    let b0 = if b < i { b } else { b + 1 };
                    assert(entries@[a] == before[a0]);
                    assert(entries@[b] == before[b0]);
                }
                assert forall|k: Seq<char>| #[trigger] after.contains_key(k) implies exists|a: int|
                    0 <= a < entries@.len() && (#[trigger] entries@[a]).0@ == k by {
                    let a0 = choose|a0: int| 0 <= a0 < before.len() && (#[trigger] before[a0]).0@ == k;
                    let a = if a0 < i { a0 } else { a0 - 1 };
                    assert(entries@[a] == before[a0]);
                }
            }
            Some(entry.1)
        },
        None => {
            proof {
                assert(m.remove(key@) =~= m);
            }
            None
        },
    }
}

impl AttrMap {
    /// No name occurs twice.
    #[verifier::type_invariant]
    spec fn distinct_names(&self) -> bool {
        forall|i: int, j: int|
            0 <= i < j < self.entries@.len() ==> (#[trigger] self.entries@[i]).0@
                != (#[trigger] self.entries@[j]).0@
    }

    /// The map from names to values that the entries make up.
    pub closed spec fn view(&self) -> Map<Seq<char>, Value>
        decreases self,
    {
        Map::new(
            |k: Seq<char>|
                exists|i: int| 0 <= i < self.entries@.len() && (#[trigger] self.entries@[i]).0@ == k,
            |k: Seq<char>|
                {
                    let i = choose|i: int|
                        0 <= i < self.entries@.len() && (#[trigger] self.entries@[i]).0@ == k;
                    if 0 <= i < self.entries@.len() {
                        self.entries@[i].1.view()
                    } else {
                        Value::Null
                    }
                },
        )
    }

    proof fn lemma_lists(&self)
        requires
            self.distinct_names(),
        ensures
            lists(self.entries@, self@),
    {
        assert forall|i: int| 0 <= i < self.entries@.len() implies self@.contains_key(
            (#[trigger] self.entries@[i]).0@,
        ) && self@[self.entries@[i].0@] == self.entries@[i].1@ by {
            let k = self.entries@[i].0@;
            let j = choose|j: int| 0 <= j < self.entries@.len() && (#[trigger] self.entries@[j]).0@ == k;
            assert(j == i);
        }
    }

    proof fn lemma_len(&self)
        requires
            self.distinct_names(),
        ensures
            self@.dom().finite(),
            self@.dom().len() == self.entries@.len(),
    {
        let names = self.entries@.map_values(|e: (String, AttrValue)| e.0@);
        assert(names.no_duplicates()) by {
            assert forall|i: int, j: int|
                0 <= i < names.len() && 0 <= j < names.len() && i != j implies names[i]
                != names[j] by {
                if i < j {
                    assert(self.entries@[i].0@ != self.entries@[j].0@);
                } else {
                    assert(self.entries@[j].0@ != self.entries@[i].0@);
                }
            }
        }
        assert(self@.dom() =~= names.to_set()) by {
            assert forall|k: Seq<char>| names.to_set().contains(k) implies self@.dom().contains(
                k,
            ) by {
                let i = choose|i: int| 0 <= i < names.len() && names[i] == k;
                assert(self.entries@[i].0@ == k);
            }
            assert forall|k: Seq<char>| self@.dom().contains(k) implies names.to_set().contains(
                k,
            ) by {
                let i = choose|i: int|
                    0 <= i < self.entries@.len() && (#[trigger] self.entries@[i]).0@ == k;
                assert(names[i] == k);
            }
        }
        names.unique_seq_to_set();
        vstd::seq_lib::seq_to_set_is_finite(names);
    }

    /// The empty map.
    pub fn new() -> (m: AttrMap)
        ensures
            m@ == Map::<Seq<char>, Value>::empty(),
    {
        let m = AttrMap { entries: Vec::new() };
        assert(m@ =~= Map::<Seq<char>, Value>::empty());
        m
    }

    /// The number of names in the map.
    pub fn len(&self) -> (n: usize)
        ensures
            self@.dom().finite(),
            n == self@.len(),
    {
        proof {
            use_type_invariant(self);
            self.lemma_len();
        }
        self.entries.len()
    }

    /// Whether the map holds no name.
    pub fn is_empty(&self) -> (b: bool)
        ensures
            b == (self@ == Map::<Seq<char>, Value>::empty()),
    {
        proof {
            use_type_invariant(self);
            self.lemma_lists();
            if self.entries@.len() == 0 {
                assert(self@ =~= Map::<Seq<char>, Value>::empty());
            } else {
                assert(self@.contains_key(self.entries@[0].0@));
            }
        }
        self.entries.len() == 0
    }

    /// Whether the map holds the name `key`.
    pub fn contains_key(&self, key: &String) -> (b: bool)
        ensures
            b == self@.contains_key(key@),
    {
        proof {
            use_type_invariant(self);
            self.lemma_lists();
        }
        position(&self.entries, key).is_some()
    }

    /// The value under the name `key`, if the map holds that name.
    pub fn get(&self, key: &String) -> (value: Option<&AttrValue>)
        ensures
            match value {
                Some(v) => self@.contains_key(key@) && v@ == self@[key@],
                None => !self@.contains_key(key@),
            },
    {
        proof {
            use_type_invariant(self);
            self.lemma_lists();
        }
        match position(&self.entries, key) {
            Some(i) => Some(&self.entries[i].1),
            None => None,
        }
    }

    /// Takes the name `key` out of the map and returns the value that stood
    /// under it.
    pub fn remove(&mut self, key: &String) -> (value: Option<AttrValue>)
        ensures
            final(self)@ == old(self)@.remove(key@),
            match value {
                Some(v) => old(self)@.contains_key(key@) && v@ == old(self)@[key@],
                None => !old(self)@.contains_key(key@),
            },
    {
        let ghost before = self@;
        proof {
            use_type_invariant(&*self);
            self.lemma_lists();
        }
        let mut entries: Vec<(String, AttrValue)> = Vec::new();
        core::mem::swap(&mut self.entries, &mut entries);
        let value = take_entry(&mut entries, key, Ghost(before));
        core::mem::swap(&mut self.entries, &mut entries);
        proof {
            self.lemma_lists();
            lemma_lists_same(self.entries@, self@, before.remove(key@));
        }
        value
    }

    /// Puts `value` under the name `key`, in place of any value that stood
    /// there, and returns the value that it replaced.
    pub fn insert(&mut self, key: String, value: AttrValue) -> (replaced: Option<AttrValue>)
        ensures
            final(self)@ == old(self)@.insert(key@, value@),
            match replaced {
                Some(v) => old(self)@.contains_key(key@) && v@ == old(self)@[key@],
                None => !old(self)@.contains_key(key@),
            },
    {
        let ghost before = self@;
        let ghost after = before.insert(key@, value@);
        proof {
            use_type_invariant(&*self);
            self.lemma_lists();
        }
        let mut entries: Vec<(String, AttrValue)> = Vec::new();
        core::mem::swap(&mut self.entries, &mut entries);
        let replaced = take_entry(&mut entries, &key, Ghost(before));
        let ghost rest = entries@;
        entries.push((key, value));
        proof {
            let last = entries@.len() - 1;
            assert forall|i: int| 0 <= i < last implies entries@[i] == #[trigger] rest[i] by {}
            assert forall|i: int| 0 <= i < entries@.len() implies after.contains_key(
                (#[trigger] entries@[i]).0@,
            ) && after[entries@[i].0@] == entries@[i].1@ by {
                if i < last {
                    assert(entries@[i] == rest[i]);
                }
            }
            assert forall|i: int, j: int| 0 <= i < j < entries@.len() implies (#[trigger] entries@[i]).0@
                != (#[trigger] entries@[j]).0@ by {
                assert(entries@[i] == rest[i]);
                if j < last {
                    assert(entries@[j] == rest[j]);
                }
            }
            assert forall|k: Seq<char>| #[trigger] after.contains_key(k) implies exists|i: int|
                0 <= i < entries@.len() && (#[trigger] entries@[i]).0@ == k by {
                if k == key@ {
                    assert(entries@[last].0@ == k);
                } else {
                    assert(before.remove(key@).contains_key(k));
                    let i = choose|i: int| 0 <= i < rest.len() && (#[trigger] rest[i]).0@ == k;
                    assert(entries@[i] == rest[i]);
                }
            }
        }
        core::mem::swap(&mut self.entries, &mut entries);
        proof {
            self.lemma_lists();
            lemma_lists_same(self.entries@, self@, after);
        }
        replaced
    }

    /// Puts the text `value` under the name `key`.
    pub fn set_text(&mut self, key: String, value: String)
        ensures
            final(self)@ == old(self)@.insert(key@, Value::Text(value@)),
    {
        let _ = self.insert(key, AttrValue::Text(value));
    }

    /// The map's entries, each name once, in no particular order.
    pub fn into_entries(self) -> (entries: Vec<(String, AttrValue)>)
        ensures
            lists(entries@, self@),
    {
        proof {
            use_type_invariant(&self);
            self.lemma_lists();
        }
        self.entries
    }
}

} // verus!
