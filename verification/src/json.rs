//! JSON values as `serde_json` holds them, and what the library is told of
//! them. A value is opaque here: the library reads and builds one only through
//! the functions below, whose contracts speak of the tree the value stands
//! for.

use vstd::prelude::*;
use crate::number::NumericTerm;

verus! {

/// `serde_json::Value`, carried through as it is.
#[verifier::external_type_specification]
#[verifier::external_body]
pub struct ExJsonValue(serde_json::Value);

/// `serde_json::Map`. Without the crate's feature `preserve_order`, which this
/// crate does not ask for, it holds the entries of an object under sorted
/// keys, so that an object is what it maps each key to and nothing more.
#[verifier::external_type_specification]
#[verifier::external_body]
#[verifier::reject_recursive_types(K)]
#[verifier::reject_recursive_types(V)]
pub struct ExJsonMap<K, V>(serde_json::Map<K, V>);

/// The tree that a JSON value stands for. An object maps each of its keys to
/// one tree.
pub enum JsonTree {
    Null,
    Bool(bool),
    Number(NumericTerm),
    String(Seq<char>),
    Array(Seq<JsonTree>),
    Object(Map<Seq<char>, JsonTree>),
}

/// The tree of a `serde_json::Value`.
pub uninterp spec fn json_tree(v: serde_json::Value) -> JsonTree;

/// The entries of a `serde_json::Map`: each key with the tree of its value.
pub uninterp spec fn object_entries(m: serde_json::Map<String, serde_json::Value>) -> Map<
    Seq<char>,
    JsonTree,
>;

/// An object without entries.
pub open spec fn no_entries() -> Map<Seq<char>, JsonTree> {
    Map::empty()
}

/// What `serde_json` makes of a text: the tree that it reads, or, where the
/// text is not one JSON value, the message of its error.
pub uninterp spec fn parsed_json(text: Seq<char>) -> Result<JsonTree, Seq<char>>;

/// The compact text that `serde_json` prints for a tree.
pub uninterp spec fn rendered_json(tree: JsonTree) -> Seq<char>;

/// `serde_json::Value::clone`: the copy stands for the same tree.
#[verifier::external_body]
pub(crate) fn clone_value(v: &serde_json::Value) -> (r: serde_json::Value)
    ensures
        json_tree(r) == json_tree(*v),
{
    v.clone()
}

/// Takes a `serde_json::Value` apart: the map of an object, with the entries
/// of the object's tree, and nothing for any other value.
#[verifier::external_body]
pub(crate) fn into_object(v: serde_json::Value) -> (r: Option<
    serde_json::Map<String, serde_json::Value>,
>)
    ensures
        match json_tree(v) {
            JsonTree::Object(entries) => r matches Some(m) && object_entries(m) == entries,
            _ => r is None,
        },
{
    match v {
        serde_json::Value::Object(m) => Some(m),
        _ => None,
    }
}

/// `serde_json::Value::Object`: the object that holds the entries of the map.
#[verifier::external_body]
pub(crate) fn object_value(m: serde_json::Map<String, serde_json::Value>) -> (r: serde_json::Value)
    ensures
        json_tree(r) == JsonTree::Object(object_entries(m)),
{
    serde_json::Value::Object(m)
}

/// `serde_json::Map::new`: a map without entries.
#[verifier::external_body]
pub(crate) fn new_object() -> (r: serde_json::Map<String, serde_json::Value>)
    ensures
        object_entries(r) == no_entries(),
{
    serde_json::Map::new()
}

/// `serde_json::Map::insert`: afterwards the key maps to the value, whether or
/// not the map held the key before; the other entries stay.
#[verifier::external_body]
pub(crate) fn put_entry(
    m: &mut serde_json::Map<String, serde_json::Value>,
    key: &str,
    v: serde_json::Value,
)
    ensures
        object_entries(*final(m)) == object_entries(*old(m)).insert(key@, json_tree(v)),
{
    m.insert(key.to_string(), v);
}

/// `serde_json::Map::remove`: takes the entry of the key out of the map and
/// returns its value, or returns nothing and leaves the map as it is where it
/// does not hold the key.
#[verifier::external_body]
pub(crate) fn take_entry(m: &mut serde_json::Map<String, serde_json::Value>, key: &str) -> (r:
    Option<serde_json::Value>)
    ensures
        object_entries(*final(m)) == object_entries(*old(m)).remove(key@),
        match r {
            Some(v) => object_entries(*old(m)).contains_key(key@) && json_tree(v)
                == object_entries(*old(m))[key@],
            None => !object_entries(*old(m)).contains_key(key@),
        },
{
    m.remove(key)
}

/// `serde_json::from_str`: reads one JSON value from a text, or fails with an
/// error, which is handed on as its message. Both depend on the text alone.
#[verifier::external_body]
pub(crate) fn parse_json(text: &str) -> (r: Result<serde_json::Value, String>)
    ensures
        match r {
            Ok(v) => parsed_json(text@) matches Ok(tree) && tree == json_tree(v),
            Err(message) => parsed_json(text@) matches Err(text) && text == message@,
        },
{
    match serde_json::from_str(text) {
        Ok(v) => Ok(v),
        Err(e) => Err(e.to_string()),
    }
}

/// `serde_json::Value`'s `Display`: the compact JSON text of a value, which
/// depends on its tree alone.
#[verifier::external_body]
pub(crate) fn render_json(v: &serde_json::Value) -> (r: String)
    ensures
        r@ == rendered_json(json_tree(*v)),
{
    v.to_string()
}

} // verus!
