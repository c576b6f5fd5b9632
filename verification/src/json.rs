//! The JSON value tree that the codec reads and writes.
//!
//! The tree itself, its numbers and its objects belong to `serde_json`. This
//! module is the only place where the library touches them: it declares the
//! three types, names what each of them holds, and wraps the handful of
//! `serde_json` operations that the codec calls. Every contract in this module
//! is taken on trust from the source of `serde_json` (built with
//! `preserve_order`, so that an object keeps its entries in insertion order);
//! everything outside this module is proved from these contracts.

use serde_json::{Number, Value};
use vstd::prelude::*;

verus! {

/// `serde_json::Value`, any JSON value. Closed: contracts speak of it through
/// `node_of` only.
#[verifier::external_type_specification]
#[verifier::external_body]
pub struct ExValue(Value);

/// `serde_json::Number`, a JSON number. Closed: contracts speak of it
/// through `number_int` and `number_text` only.
#[verifier::external_type_specification]
#[verifier::external_body]
pub struct ExNumber(Number);

/// `serde_json::Map`, a JSON object. Closed: contracts speak of it through
/// `map_entries` only.
#[verifier::external_type_specification]
#[verifier::external_body]
#[verifier::reject_recursive_types(K)]
#[verifier::reject_recursive_types(V)]
pub struct ExMap<K, V>(serde_json::Map<K, V>);

/// An object's entries in contracts: each key as text, each value as it is.
pub type Entries = Seq<(Seq<char>, Value)>;

/// One level of a JSON value in contracts: which variant it is and what that
/// variant holds. Numbers, objects and nested values stay closed.
pub enum NodeView {
    Null,
    Bool(bool),
    Number(Number),
    Text(Seq<char>),
    Array(Seq<Value>),
    Object(serde_json::Map<String, Value>),
}

/// One level of a borrowed JSON value.
pub enum Node<'a> {
    Null,
    Bool(bool),
    Number(&'a Number),
    Text(&'a String),
    Array(&'a Vec<Value>),
    Object(&'a serde_json::Map<String, Value>),
}

impl<'a> View for Node<'a> {
    type V = NodeView;

    open spec fn view(&self) -> NodeView {
        match *self {
            Node::Null => NodeView::Null,
            Node::Bool(b) => NodeView::Bool(b),
            Node::Number(n) => NodeView::Number(*n),
            Node::Text(s) => NodeView::Text(s@),
            Node::Array(a) => NodeView::Array(a@),
            Node::Object(m) => NodeView::Object(*m),
        }
    }
}

/// The variant of a JSON value, with what the variant holds.
pub uninterp spec fn node_of(v: Value) -> NodeView;

/// The integer that a JSON number holds; `None` for a floating-point number.
pub uninterp spec fn number_int(n: Number) -> Option<i128>;

/// The text that `serde_json` prints for a number.
pub uninterp spec fn number_text(n: Number) -> Seq<char>;

/// The entries of a JSON object, in the order in which the object yields them.
pub uninterp spec fn map_entries(m: serde_json::Map<String, Value>) -> Entries;

/// The compact JSON text that `serde_json` prints for a value.
pub uninterp spec fn json_text(v: Value) -> Seq<char>;

/// The entries of a borrowed list of pairs, keys as text.
pub open spec fn entries_of(pairs: Seq<(&String, &Value)>) -> Entries {
    pairs.map_values(|p: (&String, &Value)| (p.0@, *p.1))
}

/// Whether some entry carries the key.
pub open spec fn has_key(entries: Entries, key: Seq<char>) -> bool {
    exists|i: int| 0 <= i < entries.len() && (#[trigger] entries[i]).0 == key
}

/// Tells the variants of `serde_json::Value` apart, lending out what each
/// holds. Trusted to be `node_of`, which it defines.
#[verifier::external_body]
pub(crate) fn peek<'a>(v: &'a Value) -> (n: Node<'a>)
    ensures
        n@ == node_of(*v),
{
    match v {
        Value::Null => Node::Null,
        Value::Bool(b) => Node::Bool(*b),
        Value::Number(n) => Node::Number(n),
        Value::String(s) => Node::Text(s),
        Value::Array(a) => Node::Array(a),
        Value::Object(m) => Node::Object(m),
    }
}

/// `Number::as_i128`: the integer of a number, which `serde_json` keeps
/// exactly for every integer from `i64::MIN` to `u64::MAX`, and `None` for a
/// number kept as floating point.
#[verifier::external_body]
pub(crate) fn number_as_i128(n: &Number) -> (r: Option<i128>)
    ensures
        r == number_int(*n),
{
    n.as_i128()
}

/// `Number`'s `Display`: the number as `serde_json` prints it.
#[verifier::external_body]
pub(crate) fn number_to_text(n: &Number) -> (s: String)
    ensures
        s@ == number_text(*n),
{
    n.to_string()
}

/// `Value`'s `Display`: the value as compact JSON text.
#[verifier::external_body]
pub(crate) fn value_to_text(v: &Value) -> (s: String)
    ensures
        s@ == json_text(*v),
{
    v.to_string()
}

/// The variant `Value::Null`.
#[verifier::external_body]
pub(crate) fn value_null() -> (v: Value)
    ensures
        node_of(v) == NodeView::Null,
{
    Value::Null
}

/// `Value::from(i64)`: a number value that holds exactly this integer.
#[verifier::external_body]
pub(crate) fn value_from_i64(i: i64) -> (v: Value)
    ensures
        node_of(v) is Number,
        number_int(node_of(v)->Number_0) == Some(i as i128),
{
    Value::from(i)
}

/// The variant `Value::String`, which takes the string as it is.
#[verifier::external_body]
pub(crate) fn value_from_string(s: String) -> (v: Value)
    ensures
        node_of(v) == NodeView::Text(s@),
{
    Value::String(s)
}

/// The variant `Value::Array`, which takes the elements as they are.
#[verifier::external_body]
pub(crate) fn value_from_array(a: Vec<Value>) -> (v: Value)
    ensures
        node_of(v) == NodeView::Array(a@),
{
    Value::Array(a)
}

/// The variant `Value::Object`, which takes the map as it is.
#[verifier::external_body]
pub(crate) fn value_from_object(m: serde_json::Map<String, Value>) -> (v: Value)
    ensures
        node_of(v) == NodeView::Object(m),
{
    Value::Object(m)
}

/// `Map::new`: an object without entries.
#[verifier::external_body]
pub(crate) fn map_new() -> (m: serde_json::Map<String, Value>)
    ensures
        map_entries(m) == Seq::<(Seq<char>, Value)>::empty(),
{
    serde_json::Map::new()
}

/// `Map::insert` on an order-preserving map: a key that the object lacks
/// goes last; a key that it has keeps its place and takes the new value.
#[verifier::external_body]
pub(crate) fn map_insert(m: &mut serde_json::Map<String, Value>, key: String, value: Value)
    ensures
        !has_key(map_entries(*old(m)), key@) ==> map_entries(*final(m)) == map_entries(
            *old(m),
        ).push((key@, value)),
        has_key(map_entries(*old(m)), key@) ==> exists|i: int|
            0 <= i < map_entries(*old(m)).len() && (#[trigger] map_entries(*old(m))[i]).0 == key@
                && map_entries(*final(m)) == map_entries(*old(m)).update(i, (key@, value)),
{
    m.insert(key, value);
}

/// `Map::iter`, collected: the entries of an object, borrowed, in the
/// object's own order.
#[verifier::external_body]
pub(crate) fn map_pairs<'a>(m: &'a serde_json::Map<String, Value>) -> (pairs: Vec<
    (&'a String, &'a Value),
>)
    ensures
        entries_of(pairs@) == map_entries(*m),
{
    m.iter().collect()
}

/// `Value`'s derived `Clone` copies the whole tree.
pub assume_specification[ <Value as Clone>::clone ](v: &Value) -> (r: Value)
    ensures
        r == *v,
;

/// `Map`'s `Clone` copies every entry, in order.
pub assume_specification[ <serde_json::Map<String, Value> as Clone>::clone ](
    m: &serde_json::Map<String, Value>,
) -> (r: serde_json::Map<String, Value>)
    ensures
        r == *m,
;

} // verus!
