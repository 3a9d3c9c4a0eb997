//! Ordered key/value documents: the payload of commands and replies.

use vstd::prelude::*;

verus! {

/// The mathematical value of a [`Bson`].
pub enum BsonView {
    String(Seq<char>),
    Boolean(bool),
    Int32(i32),
    Int64(i64),
    Document(DocumentView),
}

/// The mathematical value of a [`Document`]: its entries, oldest first.
pub struct DocumentView {
    pub entries: Seq<(Seq<char>, BsonView)>,
}

impl DocumentView {
    /// The document without entries.
    pub open spec fn empty() -> DocumentView {
        DocumentView { entries: Seq::empty() }
    }

    /// The number of entries.
    pub open spec fn len(self) -> nat {
        self.entries.len()
    }

    /// Entry `i` exists and is filed under `key`.
    pub open spec fn key_at(self, i: int, key: Seq<char>) -> bool {
        0 <= i < self.entries.len() && self.entries[i].0 == key
    }

    /// Some entry is filed under `key`.
    pub open spec fn contains_key(self, key: Seq<char>) -> bool {
        exists|i: int| self.key_at(i, key)
    }

    /// The place of `key`, where the document holds it.
    pub open spec fn index_of(self, key: Seq<char>) -> int {
        choose|i: int| self.key_at(i, key)
    }

    /// The value filed under `key`.
    pub open spec fn get(self, key: Seq<char>) -> Option<BsonView> {
        if self.contains_key(key) {
            Some(self.entries[self.index_of(key)].1)
        } else {
            None
        }
    }

    /// The document after `key` is set to `value`: a key already present
    /// keeps its place, a new key goes to the end.
    pub open spec fn insert(self, key: Seq<char>, value: BsonView) -> DocumentView {
        if self.contains_key(key) {
            DocumentView { entries: self.entries.update(self.index_of(key), (key, value)) }
        } else {
            DocumentView { entries: self.entries.push((key, value)) }
        }
    }

    /// No key is filed twice.
    pub open spec fn distinct_keys(self) -> bool {
        forall|i: int, j: int|
            0 <= i < j < self.entries.len() ==> self.entries[i].0 != self.entries[j].0
    }

    /// Where each key is filed once, the entry that holds a key is the one
    /// that lookups find.
    pub proof fn lemma_found_at(self, i: int, key: Seq<char>)
        requires
            self.distinct_keys(),
            self.key_at(i, key),
        ensures
            self.contains_key(key),
            self.index_of(key) == i,
            self.get(key) == Some(self.entries[i].1),
    {
        let chosen = self.index_of(key);
        assert(self.key_at(chosen, key));
        if chosen < i {
            assert(self.entries[chosen].0 != self.entries[i].0);
        } else if i < chosen {
            assert(self.entries[i].0 != self.entries[chosen].0);
        }
    }

    /// After a key is set, the document holds that key and the keys it held.
    pub proof fn lemma_insert_contains_key(self, key: Seq<char>, value: BsonView, other: Seq<char>)
        ensures
            self.insert(key, value).contains_key(other) <==> other == key || self.contains_key(
                other,
            ),
    {
        let after = self.insert(key, value);
        if self.contains_key(key) {
            let at = self.index_of(key);
            assert(self.key_at(at, key));
            assert(after.key_at(at, key));
            if self.contains_key(other) {
                let i = self.index_of(other);
                assert(self.key_at(i, other));
                assert(after.key_at(i, other));
            }
            if after.contains_key(other) {
                let i = after.index_of(other);
                assert(after.key_at(i, other));
                assert(i == at || self.key_at(i, other));
            }
        } else {
            assert(after.key_at(self.entries.len() as int, key));
            if self.contains_key(other) {
                let i = self.index_of(other);
                assert(self.key_at(i, other));
                assert(after.key_at(i, other));
            }
            if after.contains_key(other) {
                let i = after.index_of(other);
                assert(after.key_at(i, other));
                assert(i == self.entries.len() || self.key_at(i, other));
            }
        }
    }

    /// After a key is set, a lookup of that key finds the new value, and a
    /// lookup of any other key finds what it found before.
    pub proof fn lemma_insert_get(self, key: Seq<char>, value: BsonView, other: Seq<char>)
        requires
            self.distinct_keys(),
        ensures
            self.insert(key, value).get(key) == Some(value),
            other != key ==> self.insert(key, value).get(other) == self.get(other),
    {
        let after = self.insert(key, value);
        self.lemma_insert_keeps_keys_distinct(key, value);
        self.lemma_insert_contains_key(key, value, other);
        if self.contains_key(key) {
            let at = self.index_of(key);
            assert(self.key_at(at, key));
            assert(after.key_at(at, key));
            after.lemma_found_at(at, key);
            if other != key && self.contains_key(other) {
                let i = self.index_of(other);
                assert(self.key_at(i, other));
                assert(after.key_at(i, other));
                after.lemma_found_at(i, other);
            }
        } else {
            let at = self.entries.len() as int;
            assert(after.key_at(at, key));
            after.lemma_found_at(at, key);
            if other != key && self.contains_key(other) {
                let i = self.index_of(other);
                assert(self.key_at(i, other));
                assert(after.key_at(i, other));
                after.lemma_found_at(i, other);
            }
        }
    }

    /// Setting a key keeps every key filed once.
    pub proof fn lemma_insert_keeps_keys_distinct(self, key: Seq<char>, value: BsonView)
        requires
            self.distinct_keys(),
        ensures
            self.insert(key, value).distinct_keys(),
    {
        let after = self.insert(key, value);
        if self.contains_key(key) {
            let at = self.index_of(key);
            assert(self.key_at(at, key));
            assert forall|i: int, j: int| 0 <= i < j < after.entries.len() implies after.entries[i].0
                != after.entries[j].0 by {
                assert(after.entries[i].0 == self.entries[i].0);
                assert(after.entries[j].0 == self.entries[j].0);
            }
        } else {
            assert forall|i: int, j: int| 0 <= i < j < after.entries.len() implies after.entries[i].0
                != after.entries[j].0 by {
                if j == self.entries.len() {
                    assert(!self.key_at(i, key));
                }
            }
        }
    }
}

/// A value stored in a [`Document`].
#[derive(Debug, PartialEq, Eq)]
pub enum Bson {
    String(String),
    Boolean(bool),
    Int32(i32),
    Int64(i64),
    Document(Document),
}

/// An ordered map from string keys to [`Bson`] values, each key filed once.
#[derive(Debug, PartialEq, Eq)]
pub struct Document {
    entries: Vec<(String, Bson)>,
}

impl View for Bson {
    type V = BsonView;

    open spec fn view(&self) -> BsonView
        decreases self,
    {
        match self {
            Bson::String(s) => BsonView::String(s@),
            Bson::Boolean(b) => BsonView::Boolean(*b),
            Bson::Int32(n) => BsonView::Int32(*n),
            Bson::Int64(n) => BsonView::Int64(*n),
            Bson::Document(d) => BsonView::Document(d.view()),
        }
    }
}

impl View for Document {
    type V = DocumentView;

    closed spec fn view(&self) -> DocumentView
        decreases self,
    {
        DocumentView {
            entries: Seq::new(
                self.entries@.len(),
                |i: int|
                    if 0 <= i < self.entries@.len() {
                        (self.entries@[i].0@, self.entries@[i].1.view())
                    } else {
                        (Seq::empty(), BsonView::Boolean(false))
                    },
            ),
        }
    }
}

impl Document {
    /// Each key is filed once.
    #[verifier::type_invariant]
    spec fn well_formed(self) -> bool {
        self@.distinct_keys()
    }

    /// The document without entries.
    pub fn new() -> (document: Document)
        ensures
            document@ == DocumentView::empty(),
            document@.distinct_keys(),
    {
        let document = Document { entries: Vec::new() };
        assert(document@.entries =~= Seq::empty());
        document
    }

    /// The number of entries.
    pub fn len(&self) -> (n: usize)
        ensures
            n == self@.len(),
            self@.distinct_keys(),
    {
        proof {
            use_type_invariant(self);
        }
        self.entries.len()
    }

    /// Whether the document has no entries.
    pub fn is_empty(&self) -> (empty: bool)
        ensures
            empty == (self@.len() == 0),
    {
        self.entries.len() == 0
    }

    /// The place of `key` among the entries.
    fn position(&self, key: &String) -> (place: Option<usize>)
        ensures
            match place {
                Some(i) => self@.key_at(i as int, key@) && self@.index_of(key@) == i,
                None => !self@.contains_key(key@),
            },
    {
        proof {
            use_type_invariant(self);
        }
        let mut i: usize = 0;
        while i < self.entries.len()
            invariant
                i <= self.entries.len(),
                self@.distinct_keys(),
                forall|j: int| 0 <= j < i ==> !self@.key_at(j, key@),
            decreases self.entries.len() - i,
        {
            if self.entries[i].0 == *key {
                proof {
                    self@.lemma_found_at(i as int, key@);
                }
                return Some(i);
            }
            i += 1;
        }
        None
    }

    /// Whether some entry is filed under `key`.
    pub fn contains_key(&self, key: &str) -> (present: bool)
        ensures
            present == self@.contains_key(key@),
    {
        let owned = key.to_owned();
        self.position(&owned).is_some()
    }

    /// The value filed under `key`.
    pub fn get(&self, key: &str) -> (value: Option<&Bson>)
        ensures
            match value {
                Some(found) => self@.get(key@) == Some(found@),
                None => self@.get(key@) is None,
            },
    {
        let owned = key.to_owned();
        match self.position(&owned) {
            Some(i) => Some(&self.entries[i].1),
            None => None,
        }
    }

    /// The keys, oldest entry first.
    pub fn keys(&self) -> (keys: Vec<String>)
        ensures
            keys@.len() == self@.len(),
            forall|i: int| 0 <= i < keys@.len() ==> keys@[i]@ == self@.entries[i].0,
    {
        let mut keys: Vec<String> = Vec::new();
        let mut i: usize = 0;
        while i < self.entries.len()
            invariant
                i <= self.entries.len(),
                keys@.len() == i,
                forall|j: int| 0 <= j < i ==> keys@[j]@ == self@.entries[j].0,
            decreases self.entries.len() - i,
        {
            keys.push(self.entries[i].0.clone());
            i += 1;
        }
        keys
    }

    /// Files `value` under `key` and hands back what was filed there before.
    pub fn insert(&mut self, key: String, value: Bson) -> (previous: Option<Bson>)
        ensures
            final(self)@ == old(self)@.insert(key@, value@),
            final(self)@.distinct_keys(),
            match previous {
                Some(replaced) => old(self)@.get(key@) == Some(replaced@),
                None => old(self)@.get(key@) is None,
            },
    {
        proof {
            use_type_invariant(&*self);
        }
        let place = self.position(&key);
        let mut entries: Vec<(String, Bson)> = Vec::new();
        core::mem::swap(&mut self.entries, &mut entries);
        let previous = match place {
            Some(i) => {
                let mut entry = (key, value);
                entries.set_and_swap(i, &mut entry);
                Some(entry.1)
            },
            None => {
                entries.push((key, value));
                None
            },
        };
        proof {
            let after = Document { entries };
            old(self)@.lemma_insert_keeps_keys_distinct(key@, value@);
            if place is Some {
                assert(after@.entries =~= old(self)@.entries.update(
                    place->0 as int,
                    (key@, value@),
                ));
            } else {
                assert(after@.entries =~= old(self)@.entries.push((key@, value@)));
            }
        }
        self.entries = entries;
        previous
    }
}

impl Clone for Bson {
    fn clone(&self) -> (copy: Bson)
        ensures
            copy@ == self@,
        decreases self,
    {
        match self {
            Bson::String(s) => Bson::String(s.clone()),
            Bson::Boolean(b) => Bson::Boolean(*b),
            Bson::Int32(n) => Bson::Int32(*n),
            Bson::Int64(n) => Bson::Int64(*n),
            Bson::Document(d) => Bson::Document(d.clone()),
        }
    }
}

impl Clone for Document {
    fn clone(&self) -> (copy: Document)
        ensures
            copy@ == self@,
            copy@.distinct_keys(),
        decreases self,
    {
        proof {
            use_type_invariant(self);
        }
        let mut entries: Vec<(String, Bson)> = Vec::new();
        let mut i: usize = 0;
        while i < self.entries.len()
            invariant
                i <= self.entries.len(),
                entries.len() == i,
                forall|j: int|
                    0 <= j < i ==> entries@[j].0@ == self.entries@[j].0@ && entries@[j].1@
                        == self.entries@[j].1@,
            decreases self.entries.len() - i,
        {
            let key = self.entries[i].0.clone();
            let value = self.entries[i].1.clone();
            entries.push((key, value));
            i += 1;
        }
        proof {
            let copy = Document { entries };
            assert(copy@.entries =~= self@.entries);
        }
        Document { entries }
    }
}

} // verus!
