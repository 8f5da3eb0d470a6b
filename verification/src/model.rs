//! The mathematical model of a JSON document, over which every contract of
//! this library is stated.

use vstd::prelude::*;

verus! {

/// A JSON document as plain mathematical data.
///
/// The members of an object are a sequence: their order is part of the value.
/// A number is the text that displays it, so `1` and `1.0` are two values.
pub enum JsonModel {
    Object(Seq<(Seq<char>, JsonModel)>),
    Array(Seq<JsonModel>),
    String(Seq<char>),
    Number(Seq<char>),
    Bool(bool),
    Null,
}

/// No two members have the same key.
pub open spec fn distinct_keys(members: Seq<(Seq<char>, JsonModel)>) -> bool {
    forall|i: int, j: int|
        0 <= i < members.len() && 0 <= j < members.len() && i != j ==> members[i].0 != members[j].0
}

/// The keys of the members, in order.
pub open spec fn keys_of(members: Seq<(Seq<char>, JsonModel)>) -> Seq<Seq<char>> {
    Seq::new(members.len(), |i: int| members[i].0)
}

/// The position of the first member with the key `key`, if there is one.
pub open spec fn first_index(members: Seq<(Seq<char>, JsonModel)>, key: Seq<char>) -> Option<int>
    decreases members.len(),
{
    if members.len() == 0 {
        None
    } else {
        match first_index(members.drop_last(), key) {
            Some(i) => Some(i),
            None => if members.last().0 == key {
                Some(members.len() - 1)
            } else {
                None
            },
        }
    }
}

/// The members after `key` is given the value `value`: a key that is there
/// keeps its place and gets the new value, a new key comes last.
pub open spec fn inserted(
    members: Seq<(Seq<char>, JsonModel)>,
    key: Seq<char>,
    value: JsonModel,
) -> Seq<(Seq<char>, JsonModel)> {
    match first_index(members, key) {
        Some(i) => members.update(i, (key, value)),
        None => members.push((key, value)),
    }
}

impl JsonModel {
    /// Within every object of the document, no key occurs twice.
    pub open spec fn wf(self) -> bool
        decreases self,
    {
        match self {
            JsonModel::Object(members) => distinct_keys(members) && forall|i: int|
                0 <= i < members.len() ==> (#[trigger] members[i]).1.wf(),
            JsonModel::Array(items) => forall|i: int|
                0 <= i < items.len() ==> (#[trigger] items[i]).wf(),
            _ => true,
        }
    }
}

/// `first_index` finds a member with the key exactly when one is there, and
/// then no earlier member has it.
pub proof fn lemma_first_index(members: Seq<(Seq<char>, JsonModel)>, key: Seq<char>)
    ensures
        match first_index(members, key) {
            Some(i) => 0 <= i < members.len() && members[i].0 == key && forall|j: int|
                0 <= j < i ==> (#[trigger] members[j]).0 != key,
            None => forall|j: int| 0 <= j < members.len() ==> (#[trigger] members[j]).0 != key,
        },
    decreases members.len(),
{
    if members.len() > 0 {
        let front = members.drop_last();
        lemma_first_index(front, key);
        assert(forall|j: int| 0 <= j < front.len() ==> front[j] == members[j]);
    }
}

/// Giving a value to a key that is there leaves the order of the keys as it
/// was; a new key comes after all that were there. So the keys stand in the
/// order in which each first appeared.
pub proof fn lemma_inserted_keeps_first_places(
    members: Seq<(Seq<char>, JsonModel)>,
    key: Seq<char>,
    value: JsonModel,
)
    ensures
        keys_of(inserted(members, key, value)) == (if first_index(members, key) is Some {
            keys_of(members)
        } else {
            keys_of(members).push(key)
        }),
{
    lemma_first_index(members, key);
    match first_index(members, key) {
        Some(i) => {
            assert(keys_of(inserted(members, key, value)) =~= keys_of(members));
        },
        None => {
            assert(keys_of(inserted(members, key, value)) =~= keys_of(members).push(key));
        },
    }
}

/// After a key is given a value, the member with that key has that value,
/// and every other member is as it was.
pub proof fn lemma_inserted_sets_the_value(
    members: Seq<(Seq<char>, JsonModel)>,
    key: Seq<char>,
    value: JsonModel,
)
    ensures
        first_index(inserted(members, key, value), key) matches Some(at) && inserted(
            members,
            key,
            value,
        )[at] == (key, value),
        forall|i: int|
            0 <= i < members.len() && members[i].0 != key ==> #[trigger] inserted(
                members,
                key,
                value,
            )[i] == members[i],
{
    lemma_first_index(members, key);
    lemma_first_index(inserted(members, key, value), key);
    let after = inserted(members, key, value);
    match first_index(members, key) {
        Some(i) => {
            assert(after[i].0 == key);
        },
        None => {
            assert(after[members.len() as int].0 == key);
        },
    }
}

/// Giving a key a value keeps the keys distinct.
pub proof fn lemma_inserted_distinct(
    members: Seq<(Seq<char>, JsonModel)>,
    key: Seq<char>,
    value: JsonModel,
)
    requires
        distinct_keys(members),
    ensures
        distinct_keys(inserted(members, key, value)),
{
    lemma_first_index(members, key);
}

} // verus!
