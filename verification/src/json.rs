//! The JSON documents the configuration logic reads and writes.
//!
//! A `serde_json::Value` is opaque to the proofs. Its content is described by
//! [`JsonTree`], a plain mathematical tree, through the name [`json_tree`],
//! and the content of a `serde_json::Map` by [`json_map`]. The logic takes a
//! value apart one level at a time into a [`JsonNode`] (whose children stay
//! `serde_json` values), works on objects through the map's own methods, and
//! puts nodes back together.

use vstd::prelude::*;

verus! {

#[verifier::external_type_specification]
#[verifier::external_body]
pub struct ExJsonValue(serde_json::Value);

#[verifier::external_type_specification]
#[verifier::external_body]
#[verifier::reject_recursive_types(K)]
#[verifier::reject_recursive_types(V)]
pub struct ExJsonMap<K, V>(serde_json::Map<K, V>);

#[verifier::external_type_specification]
#[verifier::external_body]
pub struct ExJsonNumber(serde_json::Number);

#[verifier::external_type_specification]
#[verifier::external_body]
pub struct ExJsonError(serde_json::Error);

#[verifier::external_type_specification]
#[verifier::external_body]
pub struct ExJson5Error(json5::Error);

/// A JSON object as `serde_json` holds it.
pub type JsonMap = serde_json::Map<String, serde_json::Value>;

/// The content of a JSON value: objects are maps from keys to values, so the
/// order in which a document lists its keys is not part of it.
pub enum JsonTree {
    Null,
    Bool(bool),
    Number(serde_json::Number),
    Str(Seq<char>),
    Array(Seq<JsonTree>),
    Object(Map<Seq<char>, JsonTree>),
}

/// What a `serde_json::Value` holds, as a tree.
pub uninterp spec fn json_tree(v: serde_json::Value) -> JsonTree;

/// What a `serde_json::Map` holds: each key with the tree of its value.
pub uninterp spec fn json_map(m: serde_json::Map<String, serde_json::Value>) -> Map<Seq<char>, JsonTree>;

/// The document that `json5::from_str` reads from a text, if it reads one.
pub uninterp spec fn json5_document(text: Seq<char>) -> Option<JsonTree>;

/// The text that `serde_json::to_string_pretty` writes for a document.
pub uninterp spec fn pretty_json_text(doc: JsonTree) -> Seq<char>;

/// One level of a JSON value; arrays and objects keep their children as
/// `serde_json` values.
pub enum JsonNode {
    Null,
    Bool(bool),
    Number(serde_json::Number),
    Str(String),
    Array(Vec<serde_json::Value>),
    Object(JsonMap),
}

/// The tree of the values of a list.
pub open spec fn trees(vs: Seq<serde_json::Value>) -> Seq<JsonTree> {
    vs.map_values(|v: serde_json::Value| json_tree(v))
}

impl JsonNode {
    /// The value that this node stands for.
    pub open spec fn tree(self) -> JsonTree {
        match self {
            JsonNode::Null => JsonTree::Null,
            JsonNode::Bool(b) => JsonTree::Bool(b),
            JsonNode::Number(n) => JsonTree::Number(n),
            JsonNode::Str(s) => JsonTree::Str(s@),
            JsonNode::Array(vs) => JsonTree::Array(trees(vs@)),
            JsonNode::Object(m) => JsonTree::Object(json_map(m)),
        }
    }
}

/// Takes one level of a `serde_json::Value` apart by matching on its
/// variants: each becomes the node variant of the same name with the same
/// payload. The claim: the node holds what the value holds.
#[verifier::external_body]
pub(crate) fn node_of(v: serde_json::Value) -> (n: JsonNode)
    ensures
        n.tree() == json_tree(v),
{
    match v {
        serde_json::Value::Null => JsonNode::Null,
        serde_json::Value::Bool(b) => JsonNode::Bool(b),
        serde_json::Value::Number(x) => JsonNode::Number(x),
        serde_json::Value::String(s) => JsonNode::Str(s),
        serde_json::Value::Array(vs) => JsonNode::Array(vs),
        serde_json::Value::Object(m) => JsonNode::Object(m),
    }
}

/// Puts a node back into the `serde_json::Value` variant of the same name,
/// with the same payload. The claim: the value holds what the node holds.
#[verifier::external_body]
pub(crate) fn value_of(n: JsonNode) -> (v: serde_json::Value)
    ensures
        json_tree(v) == n.tree(),
{
    match n {
        JsonNode::Null => serde_json::Value::Null,
        JsonNode::Bool(b) => serde_json::Value::Bool(b),
        JsonNode::Number(x) => serde_json::Value::Number(x),
        JsonNode::Str(s) => serde_json::Value::String(s),
        JsonNode::Array(vs) => serde_json::Value::Array(vs),
        JsonNode::Object(m) => serde_json::Value::Object(m),
    }
}

/// Calls `serde_json::Map::new`. The claim: the map is empty.
#[verifier::external_body]
pub(crate) fn map_new() -> (m: JsonMap)
    ensures
        json_map(m).dom() == Set::<Seq<char>>::empty(),
{
    serde_json::Map::new()
}

/// Calls `serde_json::Map::get` and clones the value found. The claim: a
/// value is returned exactly when the key is present, and it holds what the
/// map holds under that key.
#[verifier::external_body]
pub(crate) fn map_get(m: &JsonMap, key: &str) -> (r: Option<serde_json::Value>)
    ensures
        r is Some <==> json_map(*m).contains_key(key@),
        r matches Some(v) ==> json_tree(v) == json_map(*m)[key@],
{
    m.get(key).cloned()
}

/// Calls `serde_json::Map::contains_key`. The claim: it tells whether the
/// key is present.
#[verifier::external_body]
pub(crate) fn map_contains_key(m: &JsonMap, key: &str) -> (r: bool)
    ensures
        r == json_map(*m).contains_key(key@),
{
    m.contains_key(key)
}

/// Calls `serde_json::Map::insert`, dropping the value it replaces. The
/// claim: the key now maps to the value, and every other key is unchanged.
#[verifier::external_body]
pub(crate) fn map_insert(m: &mut JsonMap, key: String, v: serde_json::Value)
    ensures
        json_map(*final(m)) == json_map(*old(m)).insert(key@, json_tree(v)),
{
    m.insert(key, v);
}

/// Calls `json5::from_str` to read a JSON5 text into a `serde_json::Value`.
/// The claim: it succeeds exactly when the text holds a document, and then
/// returns that document; the document is a function of the text alone.
#[verifier::external_body]
pub(crate) fn parse_json5(text: &str) -> (r: Result<serde_json::Value, json5::Error>)
    ensures
        r is Ok <==> json5_document(text@) is Some,
        r matches Ok(v) ==> json5_document(text@) == Some(json_tree(v)),
{
    json5::from_str::<serde_json::Value>(text)
}

/// Calls `serde_json::to_string_pretty` on a value. The claim: it succeeds
/// (a `Value`'s `Serialize` never fails and its map keys are strings, the
/// only failures its documentation names), and the text is the
/// pretty-printed text of the value's content, a function of that content
/// alone (without the `preserve_order` feature, which this crate does not
/// enable, a `serde_json::Map` is ordered by key).
#[verifier::external_body]
pub(crate) fn render_pretty(v: &serde_json::Value) -> (r: Result<String, serde_json::Error>)
    ensures
        r is Ok,
        r matches Ok(s) ==> s@ == pretty_json_text(json_tree(*v)),
{
    serde_json::to_string_pretty(v)
}

} // verus!
