//! The attributes of a record: a map from names to rendered values.
//!
//! The entries are kept in a vector in which no name occurs twice. Contracts
//! speak of the map that the entries stand for, so the order in which they
//! were inserted does not show.

use crate::prefix::same_text;
use vstd::prelude::*;

verus! {

/// The characters of each name and value of a list of entries.
pub open spec fn pairs_view(entries: Seq<(String, String)>) -> Seq<(Seq<char>, Seq<char>)> {
    entries.map_values(|e: (String, String)| (e.0@, e.1@))
}

/// Whether some entry has the given name.
pub open spec fn has_key(entries: Seq<(Seq<char>, Seq<char>)>, key: Seq<char>) -> bool {
    exists|i: int| 0 <= i < entries.len() && (#[trigger] entries[i]).0 == key
}

/// The place of an entry with the given name, where there is one.
pub open spec fn position_of(entries: Seq<(Seq<char>, Seq<char>)>, key: Seq<char>) -> int {
    choose|i: int| 0 <= i < entries.len() && (#[trigger] entries[i]).0 == key
}

/// Whether no name occurs in two entries.
pub open spec fn distinct_keys(entries: Seq<(Seq<char>, Seq<char>)>) -> bool {
    forall|i: int, j: int|
        0 <= i < j < entries.len() ==> (#[trigger] entries[i]).0 != (#[trigger] entries[j]).0
}

/// The map that a list of entries stands for.
pub open spec fn map_of(entries: Seq<(Seq<char>, Seq<char>)>) -> Map<Seq<char>, Seq<char>> {
    Map::new(
        |k: Seq<char>| has_key(entries, k),
        |k: Seq<char>| entries[position_of(entries, k)].1,
    )
}

/// In a list without repeated names, the entry at a place gives the value
/// that the map holds for its name.
pub proof fn lemma_map_of_entry(entries: Seq<(Seq<char>, Seq<char>)>, i: int)
    requires
        distinct_keys(entries),
        0 <= i < entries.len(),
    ensures
        map_of(entries).contains_key(entries[i].0),
        map_of(entries)[entries[i].0] == entries[i].1,
{
    // The place that the map looks at holds the same name as place `i`, so
    // it is place `i`.
    let p = position_of(entries, entries[i].0);
    assert(p == i);
}

/// Appending an entry under a name that the list does not hold yet inserts
/// it into the map and keeps the names distinct.
pub proof fn lemma_map_of_push(
    entries: Seq<(Seq<char>, Seq<char>)>,
    key: Seq<char>,
    value: Seq<char>,
)
    requires
        distinct_keys(entries),
        !has_key(entries, key),
    ensures
        distinct_keys(entries.push((key, value))),
        map_of(entries.push((key, value))) == map_of(entries).insert(key, value),
{
    let longer = entries.push((key, value));
    assert(distinct_keys(longer));
    assert forall|k: Seq<char>| has_key(longer, k) <==> (k == key || has_key(entries, k)) by {
        if k == key {
            assert(longer[entries.len() as int].0 == k);
        }
        if has_key(entries, k) {
            let i = position_of(entries, k);
            assert(longer[i].0 == k);
        }
    }
    assert forall|k: Seq<char>| has_key(longer, k) implies #[trigger] map_of(longer)[k] == map_of(
        entries,
    ).insert(key, value)[k] by {
        if k == key {
            lemma_map_of_entry(longer, entries.len() as int);
        } else {
            let i = position_of(entries, k);
            lemma_map_of_entry(longer, i);
            lemma_map_of_entry(entries, i);
        }
    }
}

/// The place in a list at which the entry stands that is at place `a` once
/// the entry at place `i` has been taken out.
pub open spec fn place_before_removal(a: int, i: int) -> int {
    if a < i {
        a
    } else {
        a + 1
    }
}

/// Taking an entry out of a list without repeated names removes its name
/// from the map and keeps the names distinct.
pub proof fn lemma_map_of_remove(entries: Seq<(Seq<char>, Seq<char>)>, i: int)
    requires
        distinct_keys(entries),
        0 <= i < entries.len(),
    ensures
        distinct_keys(entries.remove(i)),
        !has_key(entries.remove(i), entries[i].0),
        map_of(entries.remove(i)) == map_of(entries).remove(entries[i].0),
{
    let shorter = entries.remove(i);
    let key = entries[i].0;
    assert forall|a: int| 0 <= a < shorter.len() implies #[trigger] shorter[a]
        == entries[place_before_removal(a, i)] by {}
    assert(distinct_keys(shorter));
    assert(!has_key(shorter, key));
    assert forall|k: Seq<char>| has_key(shorter, k) <==> (k != key && has_key(entries, k)) by {
        if has_key(shorter, k) {
            let a = position_of(shorter, k);
            assert(entries[place_before_removal(a, i)].0 == k);
        }
        if k != key && has_key(entries, k) {
            let a = position_of(entries, k);
            assert(shorter[if a < i { a } else { a - 1 }].0 == k);
        }
    }
    assert forall|k: Seq<char>| has_key(shorter, k) implies #[trigger] map_of(shorter)[k] == map_of(
        entries,
    )[k] by {
        let a = position_of(shorter, k);
        lemma_map_of_entry(shorter, a);
        lemma_map_of_entry(entries, place_before_removal(a, i));
    }
}

/// A list without repeated names stands for a finite map with one entry for
/// each entry of the list.
pub proof fn lemma_map_of_len(entries: Seq<(Seq<char>, Seq<char>)>)
    requires
        distinct_keys(entries),
    ensures
        map_of(entries).dom().finite(),
        map_of(entries).len() == entries.len(),
    decreases entries.len(),
{
    if entries.len() == 0 {
        assert(map_of(entries).dom() =~= Set::<Seq<char>>::empty());
    } else {
        let shorter = entries.drop_last();
        let last = entries.last();
        assert(entries =~= shorter.push(last));
        assert(distinct_keys(shorter));
        assert(!has_key(shorter, last.0)) by {
            if has_key(shorter, last.0) {
                let i = position_of(shorter, last.0);
                assert(entries[i].0 == entries[entries.len() - 1].0);
            }
        }
        lemma_map_of_len(shorter);
        lemma_map_of_push(shorter, last.0, last.1);
    }
}

#[verifier::external_type_specification]
#[verifier::external_body]
pub struct ExJsonError(serde_json::Error);

/// The text that `serde_json::to_string` writes for a map from strings to
/// strings.
pub uninterp spec fn json_text_of(attributes: Map<Seq<char>, Seq<char>>) -> Seq<char>;

/// What `serde_json::from_str` reads from a text as a map from strings to
/// strings, or `None` where it rejects the text.
pub uninterp spec fn json_object_of(text: Seq<char>) -> Option<Map<Seq<char>, Seq<char>>>;

/// Calls `serde_json::to_string` on the entries, handed over as a
/// `BTreeMap`. The call succeeds: for a map from strings to strings
/// serde_json reports no error but one of its writer, and `to_string` writes
/// to a `Vec`, which takes every write. The text is the one that serde_json
/// writes for that map; it depends on the map alone, as a `BTreeMap` is
/// walked in the order of its keys.
#[verifier::external_body]
fn json_encode(attributes: &Attributes) -> (encoded: Result<String, serde_json::Error>)
    requires
        attributes.wf(),
    ensures
        encoded is Ok,
        encoded matches Ok(text) ==> text@ == json_text_of(attributes@),
{
    let object: std::collections::BTreeMap<&str, &str> = attributes.entries.iter().map(
        |e| (e.0.as_str(), e.1.as_str()),
    ).collect();
    serde_json::to_string(&object)
}

/// Calls `serde_json::from_str` for a `BTreeMap` from strings to strings.
/// Where it succeeds, the entries are those of the map that serde_json read,
/// each name once; where it fails, serde_json rejected the text.
#[verifier::external_body]
fn json_decode(text: &str) -> (decoded: Result<Attributes, serde_json::Error>)
    ensures
        match decoded {
            Ok(attributes) => attributes.wf() && json_object_of(text@) == Some(attributes@),
            Err(_) => json_object_of(text@) is None,
        },
{
    let object: std::collections::BTreeMap<String, String> = serde_json::from_str(text)?;
    Ok(Attributes { entries: object.into_iter().collect() })
}

/// A map from attribute names to rendered values, in which each name occurs
/// once.
#[derive(Debug, Clone)]
pub struct Attributes {
    entries: Vec<(String, String)>,
}

impl View for Attributes {
    type V = Map<Seq<char>, Seq<char>>;

    /// The map from each name to its value.
    open spec fn view(&self) -> Map<Seq<char>, Seq<char>> {
        map_of(self.entries())
    }
}

impl Attributes {
    /// The entries in the order in which they are kept.
    pub closed spec fn entries(self) -> Seq<(Seq<char>, Seq<char>)> {
        pairs_view(self.entries@)
    }

    /// Whether no name occurs twice. Every function that makes or changes a
    /// value of this type sees to it.
    pub open spec fn wf(self) -> bool {
        distinct_keys(self.entries())
    }

    /// No attributes.
    pub fn new() -> (attributes: Attributes)
        ensures
            attributes@ == Map::<Seq<char>, Seq<char>>::empty(),
            attributes.entries() == Seq::<(Seq<char>, Seq<char>)>::empty(),
            attributes.wf(),
    {
        Attributes { entries: Vec::new() }
    }

    /// The number of attributes.
    pub fn len(&self) -> (n: usize)
        requires
            self.wf(),
        ensures
            n == self@.len(),
            n == self.entries().len(),
            self@.dom().finite(),
    {
        proof {
            lemma_map_of_len(self.entries());
        }
        self.entries.len()
    }

    /// Whether there is no attribute.
    pub fn is_empty(&self) -> (empty: bool)
        requires
            self.wf(),
        ensures
            empty == (self.entries().len() == 0),
            empty == (self@ == Map::<Seq<char>, Seq<char>>::empty()),
    {
        proof {
            if self.entries().len() == 0 {
                assert(self@ =~= Map::<Seq<char>, Seq<char>>::empty());
            } else {
                lemma_map_of_entry(self.entries(), 0);
            }
        }
        self.entries.len() == 0
    }

    /// The place of the entry with the given name.
    fn find(&self, key: &str) -> (place: Option<usize>)
        ensures
            match place {
                Some(i) => i < self.entries().len() && self.entries()[i as int].0 == key@,
                None => !has_key(self.entries(), key@),
            },
    {
        let mut i: usize = 0;
        while i < self.entries.len()
            invariant
                i <= self.entries.len(),
                forall|j: int| 0 <= j < i ==> (#[trigger] self.entries()[j]).0 != key@,
            decreases self.entries.len() - i,
        {
            if same_text(self.entries[i].0.as_str(), key) {
                return Some(i);
            }
            i += 1;
        }
        None
    }

    /// The value stored under a name.
    pub fn get(&self, key: &str) -> (value: Option<&String>)
        requires
            self.wf(),
        ensures
            match value {
                Some(v) => self@.contains_key(key@) && self@[key@] == v@,
                None => !self@.contains_key(key@),
            },
    {
        match self.find(key) {
            Some(i) => {
                proof {
                    lemma_map_of_entry(self.entries(), i as int);
                }
                Some(&self.entries[i].1)
            },
            None => None,
        }
    }

    /// Whether a value is stored under a name.
    pub fn contains_key(&self, key: &str) -> (found: bool)
        requires
            self.wf(),
        ensures
            found == self@.contains_key(key@),
    {
        self.find(key).is_some()
    }

    /// Stores a value under a name and returns the value that the name had
    /// before, if it had one.
    pub fn insert(&mut self, key: String, value: String) -> (previous: Option<String>)
        requires
            old(self).wf(),
        ensures
            final(self)@ == old(self)@.insert(key@, value@),
            final(self).wf(),
            match previous {
                Some(p) => old(self)@.contains_key(key@) && old(self)@[key@] == p@,
                None => !old(self)@.contains_key(key@),
            },
    {
        let place = self.find(key.as_str());
        let ghost before = self.entries();
        let previous = match place {
            Some(i) => {
                proof {
                    lemma_map_of_entry(before, i as int);
                    lemma_map_of_remove(before, i as int);
                }
                let entry = self.entries.remove(i);
                assert(self.entries() =~= before.remove(i as int));
                Some(entry.1)
            },
            None => None,
        };
        let ghost between = self.entries();
        proof {
            lemma_map_of_push(between, key@, value@);
        }
        self.entries.push((key, value));
        assert(self.entries() =~= between.push((key@, value@)));
        previous
    }

    /// Whether two sets of attributes hold the same names with the same
    /// values, in whatever order each was filled.
    pub fn same_as(&self, other: &Attributes) -> (same: bool)
        requires
            self.wf(),
            other.wf(),
        ensures
            same == (self@ == other@),
    {
        proof {
            lemma_map_of_len(self.entries());
            lemma_map_of_len(other.entries());
        }
        if self.entries.len() != other.entries.len() {
            return false;
        }
        let mut i: usize = 0;
        while i < self.entries.len()
            invariant
                i <= self.entries.len(),
                self.wf(),
                other.wf(),
                forall|j: int|
                    0 <= j < i ==> other@.contains_key((#[trigger] self.entries()[j]).0)
                        && other@[self.entries()[j].0] == self.entries()[j].1,
            decreases self.entries.len() - i,
        {
            let found = match other.get(self.entries[i].0.as_str()) {
                Some(value) => same_text(value.as_str(), self.entries[i].1.as_str()),
                None => false,
            };
            if !found {
                proof {
                    lemma_map_of_entry(self.entries(), i as int);
                }
                return false;
            }
            i += 1;
        }
        proof {
            assert forall|k: Seq<char>| self@.contains_key(k) implies other@.contains_key(k)
                && other@[k] == self@[k] by {
                let p = position_of(self.entries(), k);
                lemma_map_of_entry(self.entries(), p);
            }
            assert(self@.dom().subset_of(other@.dom()));
            vstd::set_lib::lemma_subset_equality(self@.dom(), other@.dom());
            assert(self@ =~= other@);
        }
        true
    }

    /// Whether a text decodes to exactly these attributes.
    pub fn reads_back_from(&self, text: &str) -> (same: bool)
        requires
            self.wf(),
        ensures
            same == (json_object_of(text@) == Some(self@)),
    {
        match Attributes::from_json(text) {
            Ok(decoded) => self.same_as(&decoded),
            Err(_) => false,
        }
    }

    /// Encodes the attributes as a JSON object of strings. This succeeds
    /// for every set of attributes, and the text depends on the map alone,
    /// not on the order in which it was filled.
    pub fn to_json(&self) -> (encoded: Result<String, serde_json::Error>)
        requires
            self.wf(),
        ensures
            encoded is Ok,
            encoded matches Ok(text) ==> text@ == json_text_of(self@),
    {
        json_encode(self)
    }

    /// Decodes a JSON object of strings. Fails exactly on the texts that are
    /// no such object.
    pub fn from_json(text: &str) -> (decoded: Result<Attributes, serde_json::Error>)
        ensures
            match decoded {
                Ok(attributes) => attributes.wf() && json_object_of(text@) == Some(attributes@),
                Err(_) => json_object_of(text@) is None,
            },
    {
        json_decode(text)
    }

    /// The entries, each a name and its value, in no particular order.
    pub fn as_slice(&self) -> (entries: &[(String, String)])
        ensures
            pairs_view(entries@) == self.entries(),
    {
        self.entries.as_slice()
    }
}

} // verus!
