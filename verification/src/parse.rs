//! From text to the value model. The parsing is `serde_json`'s; this module
//! turns what it returns into a `JsonValue`.

use crate::error::LoadError;
use crate::model::{distinct_keys, lemma_first_index, JsonModel};
use crate::value::{number_text, JsonValue, ObjectMap};
use vstd::prelude::*;

verus! {

/// `serde_json::Value`, what the parser returns: carried as it is and read
/// only through `unpack`.
#[verifier::external_type_specification]
#[verifier::external_body]
pub struct ExValue(serde_json::Value);

/// `serde_json::Error`, read only through `error_to_string`.
#[verifier::external_type_specification]
#[verifier::external_body]
pub struct ExError(serde_json::Error);

/// What `serde_json::from_str` makes of a text: the document, or the message
/// of the error.
pub uninterp spec fn parsed(text: Seq<char>) -> Result<JsonModel, Seq<char>>;

/// The document that a `serde_json::Value` holds.
pub uninterp spec fn value_model(value: serde_json::Value) -> JsonModel;

/// What a `serde_json::Error` displays as.
pub uninterp spec fn error_text(error: serde_json::Error) -> Seq<char>;

/// One level of a `serde_json::Value`: its variant, with what the variant
/// holds.
enum Node<'a> {
    Null,
    Bool(bool),
    Number(&'a serde_json::Number),
    String(&'a String),
    Array(&'a Vec<serde_json::Value>),
    Object(Vec<(&'a String, &'a serde_json::Value)>),
}

/// The documents that a sequence of `serde_json::Value`s holds.
pub open spec fn items_model(items: Seq<serde_json::Value>) -> Seq<JsonModel> {
    Seq::new(items.len(), |i: int| value_model(items[i]))
}

/// The keys of a sequence of members, with the documents that their values
/// hold.
pub open spec fn members_model(members: Seq<(&String, &serde_json::Value)>) -> Seq<
    (Seq<char>, JsonModel),
> {
    Seq::new(members.len(), |i: int| (members[i].0@, value_model(*members[i].1)))
}

/// `serde_json::from_str` at the type `serde_json::Value`: the outcome is
/// `parsed` of the text.
#[verifier::external_body]
fn parse_value(text: &str) -> (outcome: Result<serde_json::Value, serde_json::Error>)
    ensures
        match outcome {
            Ok(value) => parsed(text@) == Ok::<JsonModel, Seq<char>>(value_model(value)),
            Err(error) => parsed(text@) == Err::<JsonModel, Seq<char>>(error_text(error)),
        },
{
    serde_json::from_str::<serde_json::Value>(text)
}

/// `serde_json::Error`'s `Display`, through `to_string`.
#[verifier::external_body]
fn error_to_string(error: &serde_json::Error) -> (text: String)
    ensures
        text@ == error_text(*error),
{
    error.to_string()
}

/// `serde_json::Number`'s `Clone`: the copy displays as the number it was
/// made from.
#[verifier::external_body]
fn copy_number(number: &serde_json::Number) -> (copy: serde_json::Number)
    ensures
        number_text(copy) == number_text(*number),
{
    number.clone()
}

/// Tells the six variants of `serde_json::Value` apart. An array hands out
/// its `Vec`, an object the members that `serde_json::Map::iter` yields, in
/// that order; the keys of a map are distinct.
#[verifier::external_body]
fn unpack<'a>(value: &'a serde_json::Value) -> (node: Node<'a>)
    ensures
        match node {
            Node::Null => value_model(*value) == JsonModel::Null,
            Node::Bool(b) => value_model(*value) == JsonModel::Bool(b),
            Node::Number(n) => value_model(*value) == JsonModel::Number(number_text(*n)),
            Node::String(s) => value_model(*value) == JsonModel::String(s@),
            Node::Array(items) => value_model(*value) == JsonModel::Array(items_model(items@)),
            Node::Object(members) => {
                &&& value_model(*value) == JsonModel::Object(members_model(members@))
                &&& distinct_keys(members_model(members@))
            },
        },
{
    match value {
        serde_json::Value::Null => Node::Null,
        serde_json::Value::Bool(b) => Node::Bool(*b),
        serde_json::Value::Number(n) => Node::Number(n),
        serde_json::Value::String(s) => Node::String(s),
        serde_json::Value::Array(items) => Node::Array(items),
        serde_json::Value::Object(map) => Node::Object(map.iter().collect()),
    }
}

/// The value model of what a parsed `serde_json::Value` holds: the same
/// document, the members of each object in the order of the map, and within
/// every object no key twice.
pub fn from_serde_value(value: &serde_json::Value) -> (built: JsonValue)
    ensures
        built@ == value_model(*value),
        built@.wf(),
    decreases value_model(*value),
{
    match unpack(value) {
        Node::Null => JsonValue::Null,
        Node::Bool(b) => JsonValue::Bool(b),
        Node::Number(n) => JsonValue::Number(copy_number(n)),
        Node::String(s) => JsonValue::String(s.clone()),
        Node::Array(items) => {
            let mut built: Vec<JsonValue> = Vec::new();
            let mut i: usize = 0;
            while i < items.len()
                invariant
                    i <= items@.len(),
                    value_model(*value) == JsonModel::Array(items_model(items@)),
                    built@.len() == i,
                    forall|j: int|
                        0 <= j < i ==> (#[trigger] built@[j])@ == value_model(items@[j])
                            && built@[j]@.wf(),
                decreases items@.len() - i,
            {
                proof {
                    let whole = value_model(*value);
                    assert(whole->Array_0[i as int] == value_model(items@[i as int]));
                    assert(decreases_to!(whole => whole->Array_0[i as int]));
                }
                let item = from_serde_value(&items[i]);
                built.push(item);
                i = i + 1;
            }
            let array = JsonValue::Array(built);
            proof {
                assert(array@->Array_0 =~= items_model(items@));
            }
            array
        },
        Node::Object(members) => {
            let mut map = ObjectMap::raw_new();
            let mut i: usize = 0;
            while i < members.len()
                invariant
                    i <= members@.len(),
                    value_model(*value) == JsonModel::Object(members_model(members@)),
                    distinct_keys(members_model(members@)),
                    map@ == members_model(members@).take(i as int),
                    forall|j: int| 0 <= j < i ==> (#[trigger] map@[j]).1.wf(),
                decreases members@.len() - i,
            {
                let member = members[i];
                proof {
                    let whole = value_model(*value);
                    assert(whole->Object_0[i as int].1 == value_model(*member.1));
                    assert(decreases_to!(whole => whole->Object_0[i as int]));
                }
                let child = from_serde_value(member.1);
                let ghost before = map@;
                map.raw_insert(member.0.clone(), child);
                proof {
                    let all = members_model(members@);
                    lemma_first_index(before, member.0@);
                    assert(forall|j: int| 0 <= j < i ==> before[j] == all[j]);
                    assert(map@ =~= all.take(i + 1));
                }
                i = i + 1;
            }
            let object = JsonValue::Object(map);
            proof {
                assert(map@ =~= members_model(members@));
            }
            object
        },
    }
}

/// Parses a complete JSON document.
///
/// Whether the text is a document, and which, is `serde_json`'s to say: the
/// result is `parsed` of the text, as a value on success and as a
/// `LoadError::Parse` with the parser's message on failure.
pub fn parse_json(text: &str) -> (outcome: Result<JsonValue, LoadError>)
    ensures
        match outcome {
            Ok(value) => parsed(text@) == Ok::<JsonModel, Seq<char>>(value@) && value@.wf(),
            Err(error) => error matches LoadError::Parse(cause) && parsed(text@) == Err::<
                JsonModel,
                Seq<char>,
            >(cause@),
        },
{
    match parse_value(text) {
        Ok(value) => Ok(from_serde_value(&value)),
        Err(error) => Err(LoadError::Parse(error_to_string(&error))),
    }
}

} // verus!
