//! The value model held in memory: a JSON document whose objects keep their
//! members in the order in which the keys first appeared.

use crate::model::{inserted, JsonModel};
use indexmap::IndexMap;
use vstd::prelude::*;

verus! {

/// The members of an object, in insertion order, held in an
/// `indexmap::IndexMap`.
///
/// Verus does not look inside: what the map holds is `object_members`, and the
/// four functions `raw_new`, `raw_insert`, `raw_len` and `raw_get_index` are
/// believed to act on it as `IndexMap` documents.
#[verifier::external_body]
#[derive(Debug)]
pub struct ObjectMap {
    inner: IndexMap<String, JsonValue>,
}

/// What an `ObjectMap` holds: the keys with the models of their values, in the
/// order in which `IndexMap` iterates.
pub uninterp spec fn object_members(map: ObjectMap) -> Seq<(Seq<char>, JsonModel)>;

/// What a `serde_json::Number` displays as: the text that its `Display` impl
/// writes.
pub uninterp spec fn number_text(number: serde_json::Number) -> Seq<char>;

/// `serde_json::Number`, held as it is and read only through
/// `number_to_string`.
#[verifier::external_type_specification]
#[verifier::external_body]
pub struct ExNumber(serde_json::Number);

/// A JSON document.
#[derive(Debug)]
pub enum JsonValue {
    Object(ObjectMap),
    Array(Vec<JsonValue>),
    String(String),
    Number(serde_json::Number),
    Bool(bool),
    Null,
}

impl View for ObjectMap {
    type V = Seq<(Seq<char>, JsonModel)>;

    open spec fn view(&self) -> Seq<(Seq<char>, JsonModel)> {
        object_members(*self)
    }
}

/// The document that a value is: of an object the members that its map
/// holds, of an array the documents of its elements in order, of a number
/// the text that displays it.
impl View for JsonValue {
    type V = JsonModel;

    open spec fn view(&self) -> JsonModel
        decreases self,
    {
        match self {
            JsonValue::Object(map) => JsonModel::Object(map@),
            JsonValue::Array(items) => JsonModel::Array(
                Seq::new(
                    items@.len(),
                    |i: int|
                        if 0 <= i < items@.len() {
                            items@[i]@
                        } else {
                            // no such position: the sequence ends before it
                            JsonModel::Null
                        },
                ),
            ),
            JsonValue::String(s) => JsonModel::String(s@),
            JsonValue::Number(n) => JsonModel::Number(number_text(*n)),
            JsonValue::Bool(b) => JsonModel::Bool(*b),
            JsonValue::Null => JsonModel::Null,
        }
    }
}

/// `serde_json::Number`'s `Display`, through `to_string`: the text is
/// `number_text` of the number.
#[verifier::external_body]
pub(crate) fn number_to_string(number: &serde_json::Number) -> (text: String)
    ensures
        text@ == number_text(*number),
{
    number.to_string()
}

impl ObjectMap {
    /// `IndexMap::new`: a map without members.
    #[verifier::external_body]
    pub(crate) fn raw_new() -> (map: ObjectMap)
        ensures
            object_members(map) == Seq::<(Seq<char>, JsonModel)>::empty(),
    {
        ObjectMap { inner: IndexMap::new() }
    }

    /// `IndexMap::insert`, its result dropped: a key that is in the map keeps
    /// its place and gets the new value, a new key is put last.
    #[verifier::external_body]
    pub(crate) fn raw_insert(&mut self, key: String, value: JsonValue)
        ensures
            object_members(*final(self)) == inserted(object_members(*old(self)), key@, value@),
    {
        self.inner.insert(key, value);
    }

    /// `IndexMap::len`: the number of members.
    #[verifier::external_body]
    pub(crate) fn raw_len(&self) -> (n: usize)
        ensures
            n == object_members(*self).len(),
    {
        self.inner.len()
    }

    /// `IndexMap::get_index`: the member at `index` in iteration order, or
    /// `None` from the length on.
    #[verifier::external_body]
    pub(crate) fn raw_get_index(&self, index: usize) -> (member: Option<(&String, &JsonValue)>)
        ensures
            match member {
                Some(pair) => {
                    &&& index < object_members(*self).len()
                    &&& pair.0@ == object_members(*self)[index as int].0
                    &&& pair.1@ == object_members(*self)[index as int].1
                },
                None => index >= object_members(*self).len(),
            },
    {
        self.inner.get_index(index)
    }

    /// The number of members.
    pub fn len(&self) -> (n: usize)
        ensures
            n == self@.len(),
    {
        self.raw_len()
    }

    /// The member at `index`, counting from zero in the order of the
    /// document, or `None` where the object has no such member.
    pub fn get_index(&self, index: usize) -> (member: Option<(&String, &JsonValue)>)
        ensures
            match member {
                Some(pair) => index < self@.len() && pair.0@ == self@[index as int].0 && pair.1@
                    == self@[index as int].1,
                None => index >= self@.len(),
            },
    {
        self.raw_get_index(index)
    }

    /// The keys, in the order of the document.
    pub fn keys(&self) -> (keys: Vec<String>)
        ensures
            keys@.len() == self@.len(),
            forall|i: int| 0 <= i < keys@.len() ==> (#[trigger] keys@[i])@ == self@[i].0,
    {
        let n = self.raw_len();
        let mut keys: Vec<String> = Vec::new();
        let mut i: usize = 0;
        while i < n
            invariant
                n == self@.len(),
                i <= n,
                keys@.len() == i,
                forall|j: int| 0 <= j < i ==> (#[trigger] keys@[j])@ == self@[j].0,
            decreases n - i,
        {
            match self.raw_get_index(i) {
                Some(pair) => {
                    keys.push(pair.0.clone());
                },
                None => {},
            }
            i = i + 1;
        }
        keys
    }
}

impl JsonValue {
    /// Whether two values are the same document: the same kind of value with
    /// the same content, the members of an object in the same order, numbers
    /// compared by the text that displays them.
    pub fn same_as(&self, other: &JsonValue) -> (same: bool)
        ensures
            same == (self@ == other@),
        decreases self@,
    {
        match (self, other) {
            (JsonValue::Null, JsonValue::Null) => true,
            (JsonValue::Bool(a), JsonValue::Bool(b)) => *a == *b,
            (JsonValue::Number(a), JsonValue::Number(b)) => {
                let left = number_to_string(a);
                let right = number_to_string(b);
                left == right
            },
            (JsonValue::String(a), JsonValue::String(b)) => *a == *b,
            (JsonValue::Array(a), JsonValue::Array(b)) => {
                assert(self@->Array_0.len() == a@.len() && other@->Array_0.len() == b@.len());
                if a.len() != b.len() {
                    return false;
                }
                let mut i: usize = 0;
                while i < a.len()
                    invariant
                        i <= a@.len(),
                        a@.len() == b@.len(),
                        self@ is Array,
                        other@ is Array,
                        self@->Array_0.len() == a@.len(),
                        other@->Array_0.len() == b@.len(),
                        forall|j: int| 0 <= j < a@.len() ==> self@->Array_0[j] == (#[trigger] a@[j])@,
                        forall|j: int|
                            0 <= j < b@.len() ==> other@->Array_0[j] == (#[trigger] b@[j])@,
                        forall|j: int| 0 <= j < i ==> self@->Array_0[j] == other@->Array_0[j],
                    decreases a@.len() - i,
                {
                    proof {
                        let whole = self@;
                        assert(whole->Array_0[i as int] == a@[i as int]@);
                        assert(other@->Array_0[i as int] == b@[i as int]@);
                        assert(decreases_to!(whole => whole->Array_0[i as int]));
                    }
                    if !a[i].same_as(&b[i]) {
                        return false;
                    }
                    i = i + 1;
                }
                proof {
                    assert(self@->Array_0 =~= other@->Array_0);
                }
                true
            },
            (JsonValue::Object(a), JsonValue::Object(b)) => {
                let n = a.raw_len();
                if n != b.raw_len() {
                    return false;
                }
                let mut i: usize = 0;
                while i < n
                    invariant
                        i <= n,
                        n == a@.len(),
                        n == b@.len(),
                        self@ == JsonModel::Object(a@),
                        other@ == JsonModel::Object(b@),
                        forall|j: int| 0 <= j < i ==> a@[j] == b@[j],
                    decreases n - i,
                {
                    match (a.raw_get_index(i), b.raw_get_index(i)) {
                        (Some(left), Some(right)) => {
                            proof {
                                let whole = self@;
                                assert(whole->Object_0[i as int].1 == left.1@);
                                assert(decreases_to!(whole => whole->Object_0[i as int]));
                            }
                            if *left.0 != *right.0 {
                                return false;
                            }
                            if !left.1.same_as(right.1) {
                                return false;
                            }
                        },
                        _ => {},
                    }
                    i = i + 1;
                }
                proof {
                    assert(a@ =~= b@);
                }
                true
            },
            _ => false,
        }
    }
}

} // verus!
