//! JSON documents as trees of plain values, read and written by `serde_json`.

use crate::text::str_eq;
use vstd::prelude::*;

verus! {

/// A JSON document. `Number` stands for a number that is no 64-bit signed
/// integer; its value is not kept.
#[derive(Debug)]
pub enum Json {
    Null,
    Bool(bool),
    Int(i64),
    Number,
    Text(String),
    Array(Vec<Json>),
    Object(Vec<(String, Json)>),
}

/// The mathematical value of a [`Json`] document.
pub ghost enum JsonView {
    Null,
    Bool(bool),
    Int(i64),
    Number,
    Text(Seq<char>),
    Array(Seq<JsonView>),
    Object(Seq<(Seq<char>, JsonView)>),
}

/// The value of a document, node by node.
pub open spec fn json_view(j: Json) -> JsonView
    decreases j,
{
    match j {
        Json::Null => JsonView::Null,
        Json::Bool(b) => JsonView::Bool(b),
        Json::Int(n) => JsonView::Int(n),
        Json::Number => JsonView::Number,
        Json::Text(s) => JsonView::Text(s@),
        Json::Array(items) => JsonView::Array(
            Seq::new(
                items@.len(),
                |i: int|
                    if 0 <= i < items@.len() {
                        json_view(items@[i])
                    } else {
                        JsonView::Null
                    },
            ),
        ),
        Json::Object(fields) => JsonView::Object(
            Seq::new(
                fields@.len(),
                |i: int|
                    if 0 <= i < fields@.len() {
                        (fields@[i].0@, json_view(fields@[i].1))
                    } else {
                        (Seq::empty(), JsonView::Null)
                    },
            ),
        ),
    }
}

impl View for Json {
    type V = JsonView;

    open spec fn view(&self) -> JsonView {
        json_view(*self)
    }
}

/// The value under the first field named `key` in a list of fields.
pub open spec fn lookup(fields: Seq<(Seq<char>, JsonView)>, key: Seq<char>) -> Option<JsonView>
    decreases fields.len(),
{
    if fields.len() == 0 {
        None
    } else if fields[0].0 == key {
        Some(fields[0].1)
    } else {
        lookup(fields.drop_first(), key)
    }
}

impl JsonView {
    /// The value of the field `key`, where this is an object that has it.
    pub open spec fn field(self, key: Seq<char>) -> Option<JsonView> {
        match self {
            JsonView::Object(fields) => lookup(fields, key),
            _ => None,
        }
    }

    /// The characters, where this is a string.
    pub open spec fn text(self) -> Option<Seq<char>> {
        match self {
            JsonView::Text(s) => Some(s),
            _ => None,
        }
    }

    /// The integer, where this is a number that is one.
    pub open spec fn integer(self) -> Option<i64> {
        match self {
            JsonView::Int(n) => Some(n),
            _ => None,
        }
    }

    /// The truth value, where this is one.
    pub open spec fn boolean(self) -> Option<bool> {
        match self {
            JsonView::Bool(b) => Some(b),
            _ => None,
        }
    }

    /// The elements, where this is an array.
    pub open spec fn items(self) -> Option<Seq<JsonView>> {
        match self {
            JsonView::Array(items) => Some(items),
            _ => None,
        }
    }
}

/// The view of an optional reference to a document.
pub open spec fn opt_json_view(j: Option<&Json>) -> Option<JsonView> {
    match j {
        Some(x) => Some(x@),
        None => None,
    }
}

impl Json {
    /// The value of the first field named `key`, where this is an object
    /// that has one.
    pub fn field(&self, key: &str) -> (r: Option<&Json>)
        ensures
            opt_json_view(r) == self@.field(key@),
    {
        match self {
            Json::Object(fields) => {
                let ghost all = self@->Object_0;
                let mut i: usize = 0;
                assert(all.skip(0) =~= all);
                while i < fields.len()
                    invariant
                        i <= fields.len(),
                        self@ == JsonView::Object(all),
                        all.len() == fields@.len(),
                        forall|k: int|
                            0 <= k < fields@.len() ==> #[trigger] all[k] == (
                                fields@[k].0@,
                                fields@[k].1@,
                            ),
                        lookup(all, key@) == lookup(all.skip(i as int), key@),
                    decreases fields.len() - i,
                {
                    let ghost rest = all.skip(i as int);
                    assert(rest[0] == all[i as int]);
                    assert(all[i as int] == (fields@[i as int].0@, fields@[i as int].1@));
                    if str_eq(fields[i].0.as_str(), key) {
                        return Some(&fields[i].1);
                    }
                    assert(rest.drop_first() =~= all.skip(i + 1));
                    i += 1;
                }
                None
            },
            _ => None,
        }
    }

    /// The string, where this is one.
    pub fn as_text(&self) -> (r: Option<&String>)
        ensures
            match r {
                Some(s) => self@.text() == Some(s@),
                None => self@.text() is None,
            },
    {
        match self {
            Json::Text(s) => Some(s),
            _ => None,
        }
    }

    /// The integer, where this is a number that is one.
    pub fn as_int(&self) -> (r: Option<i64>)
        ensures
            r == self@.integer(),
    {
        match self {
            Json::Int(n) => Some(*n),
            _ => None,
        }
    }

    /// The truth value, where this is one.
    pub fn as_bool(&self) -> (r: Option<bool>)
        ensures
            r == self@.boolean(),
    {
        match self {
            Json::Bool(b) => Some(*b),
            _ => None,
        }
    }

    /// The elements, where this is an array.
    pub fn as_items(&self) -> (r: Option<&Vec<Json>>)
        ensures
            match r {
                Some(items) => self@.items() == Some(json_views(items@)),
                None => self@.items() is None,
            },
    {
        match self {
            Json::Array(items) => {
                assert(self@->Array_0 =~= json_views(items@));
                Some(items)
            },
            _ => None,
        }
    }

    /// Whether this is `null`.
    pub fn is_null(&self) -> (r: bool)
        ensures
            r == (self@ == JsonView::Null),
    {
        match self {
            Json::Null => true,
            _ => false,
        }
    }
}

/// The views of a sequence of documents, in order.
pub open spec fn json_views(items: Seq<Json>) -> Seq<JsonView> {
    items.map_values(|j: Json| j@)
}

/// The views of a sequence of named documents, in order.
pub open spec fn field_views(fields: Seq<(String, Json)>) -> Seq<(Seq<char>, JsonView)> {
    fields.map_values(|f: (String, Json)| (f.0@, f.1@))
}

/// An array of the given elements.
pub fn array(items: Vec<Json>) -> (r: Json)
    ensures
        r@ == JsonView::Array(json_views(items@)),
{
    let r = Json::Array(items);
    assert(r@->Array_0 =~= json_views(items@));
    r
}

/// An object of the given fields.
pub fn object(fields: Vec<(String, Json)>) -> (r: Json)
    ensures
        r@ == JsonView::Object(field_views(fields@)),
{
    let r = Json::Object(fields);
    assert(r@->Object_0 =~= field_views(fields@));
    r
}

/// A string node holding the characters of `s`.
pub fn text(s: &str) -> (r: Json)
    ensures
        r@ == JsonView::Text(s@),
{
    Json::Text(s.to_owned())
}

/// The JSON value of `serde_json`, `serde_json::Value`. It is carried from
/// one call into that crate to the next; nothing is read from it but
/// through [`value_tree`].
#[verifier::external_type_specification]
#[verifier::external_body]
pub struct ExValue(serde_json::Value);

/// What `serde_json::from_str` makes of a text: the value it parses to, or
/// nothing where it reports an error.
pub uninterp spec fn parsed_text(text: Seq<char>) -> Option<serde_json::Value>;

/// What `serde_json::from_slice` makes of bytes: the value they parse to, or
/// nothing where it reports an error.
pub uninterp spec fn parsed_bytes(bytes: Seq<u8>) -> Option<serde_json::Value>;

/// The tree that a `serde_json::Value` holds.
pub uninterp spec fn value_tree(value: serde_json::Value) -> JsonView;

/// The `serde_json::Value` built from a tree.
pub uninterp spec fn tree_value(tree: JsonView) -> serde_json::Value;

/// The text that `serde_json::to_string` writes for a value.
pub uninterp spec fn value_text(value: serde_json::Value) -> Seq<char>;

/// The bytes that `serde_json::to_vec` writes for a value.
pub uninterp spec fn value_bytes(value: serde_json::Value) -> Seq<u8>;

/// Parses a text as one JSON value.
///
/// Trusted: calls `serde_json::from_str` at the type `serde_json::Value` and
/// drops the error; the result is named, nothing else is claimed of it.
#[verifier::external_body]
fn value_from_text(text: &str) -> (r: Option<serde_json::Value>)
    ensures
        r == parsed_text(text@),
{
    serde_json::from_str::<serde_json::Value>(text).ok()
}

/// Parses bytes as one JSON value.
///
/// Trusted: calls `serde_json::from_slice` at the type `serde_json::Value`
/// and drops the error; the result is named, nothing else is claimed of it.
#[verifier::external_body]
fn value_from_bytes(bytes: &[u8]) -> (r: Option<serde_json::Value>)
    ensures
        r == parsed_bytes(bytes@),
{
    serde_json::from_slice::<serde_json::Value>(bytes).ok()
}

/// Copies a `serde_json::Value` into a tree, node for node; the fields of an
/// object come in the order in which its map hands them out.
///
/// Trusted: tells the variants of `serde_json::Value` apart and reads a
/// number with `Number::as_i64`; the result is named as the tree the value
/// holds.
#[verifier::external_body]
fn tree_of_value(value: &serde_json::Value) -> (r: Json)
    ensures
        r@ == value_tree(*value),
{
    match value {
        serde_json::Value::Null => Json::Null,
        serde_json::Value::Bool(b) => Json::Bool(*b),
        serde_json::Value::Number(n) => n.as_i64().map_or(Json::Number, Json::Int),
        serde_json::Value::String(s) => Json::Text(s.clone()),
        serde_json::Value::Array(a) => Json::Array(a.iter().map(tree_of_value).collect()),
        serde_json::Value::Object(m) => Json::Object(
            m.iter().map(|(k, v)| (k.clone(), tree_of_value(v))).collect(),
        ),
    }
}

/// Builds the `serde_json::Value` of a tree, node for node. A `Number` node,
/// whose value is not kept, becomes `null`; of two fields of one name the
/// later stays.
///
/// Trusted: constructs the variants of `serde_json::Value`; the result is
/// named as the value built from the tree.
#[verifier::external_body]
fn value_of_tree(tree: &Json) -> (r: serde_json::Value)
    ensures
        r == tree_value(tree@),
{
    match tree {
        Json::Null | Json::Number => serde_json::Value::Null,
        Json::Bool(b) => serde_json::Value::Bool(*b),
        Json::Int(n) => serde_json::Value::Number((*n).into()),
        Json::Text(s) => serde_json::Value::String(s.clone()),
        Json::Array(a) => serde_json::Value::Array(a.iter().map(value_of_tree).collect()),
        Json::Object(f) => serde_json::Value::Object(
            f.iter().map(|(k, v)| (k.clone(), value_of_tree(v))).collect(),
        ),
    }
}

/// Writes a value as compact JSON text.
///
/// Trusted: calls `serde_json::to_string`, which cannot fail on a
/// `serde_json::Value`; the result is named.
#[verifier::external_body]
fn text_of_value(value: &serde_json::Value) -> (r: String)
    ensures
        r@ == value_text(*value),
{
    serde_json::to_string(value).unwrap_or_default()
}

/// Writes a value as compact JSON bytes.
///
/// Trusted: calls `serde_json::to_vec`, which cannot fail on a
/// `serde_json::Value`; the result is named.
#[verifier::external_body]
fn bytes_of_value(value: &serde_json::Value) -> (r: Vec<u8>)
    ensures
        r@ == value_bytes(*value),
{
    serde_json::to_vec(value).unwrap_or_default()
}

/// The tree that a text parses to, if it is one JSON value.
pub open spec fn json_of_text(text: Seq<char>) -> Option<JsonView> {
    match parsed_text(text) {
        Some(value) => Some(value_tree(value)),
        None => None,
    }
}

/// The tree that bytes parse to, if they are one JSON value.
pub open spec fn json_of_bytes(bytes: Seq<u8>) -> Option<JsonView> {
    match parsed_bytes(bytes) {
        Some(value) => Some(value_tree(value)),
        None => None,
    }
}

/// The compact text of a tree.
pub open spec fn json_text(tree: JsonView) -> Seq<char> {
    value_text(tree_value(tree))
}

/// The compact bytes of a tree.
pub open spec fn json_bytes(tree: JsonView) -> Seq<u8> {
    value_bytes(tree_value(tree))
}

/// The view of an optional document.
pub open spec fn opt_tree(j: Option<Json>) -> Option<JsonView> {
    match j {
        Some(x) => Some(x@),
        None => None,
    }
}

/// Parses a text as one JSON document; `None` where it is none.
pub fn parse_text(text: &str) -> (r: Option<Json>)
    ensures
        opt_tree(r) == json_of_text(text@),
{
    match value_from_text(text) {
        Some(value) => Some(tree_of_value(&value)),
        None => None,
    }
}

/// Parses bytes as one JSON document; `None` where they are none.
pub fn parse_bytes(bytes: &[u8]) -> (r: Option<Json>)
    ensures
        opt_tree(r) == json_of_bytes(bytes@),
{
    match value_from_bytes(bytes) {
        Some(value) => Some(tree_of_value(&value)),
        None => None,
    }
}

/// Writes a document as compact JSON text.
pub fn render_text(tree: &Json) -> (r: String)
    ensures
        r@ == json_text(tree@),
{
    let value = value_of_tree(tree);
    text_of_value(&value)
}

/// Writes a document as compact JSON bytes.
pub fn render_bytes(tree: &Json) -> (r: Vec<u8>)
    ensures
        r@ == json_bytes(tree@),
{
    let value = value_of_tree(tree);
    bytes_of_value(&value)
}

} // verus!
