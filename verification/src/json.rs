//! The boundary to `serde_json`: documents are parsed and read by that crate,
//! and everything said about them here is believed, not proved.

use vstd::prelude::*;

verus! {

#[verifier::external_type_specification]
#[verifier::external_body]
pub struct ExValue(serde_json::Value);

#[verifier::external_type_specification]
#[verifier::external_body]
pub struct ExError(serde_json::Error);

/// What a JSON document holds, as far as this library reads it.
pub enum JsonTree {
    Null,
    Bool(bool),
    /// A number that is an integer in the range of `i64`.
    Integer(i64),
    /// Any other number.
    Number,
    Text(Seq<char>),
    Array(Seq<JsonTree>),
    Object(Map<Seq<char>, JsonTree>),
}

/// The contents of a parsed document.
pub uninterp spec fn json_tree(doc: serde_json::Value) -> JsonTree;

/// The contents of the document that a text parses to, `None` where the text
/// is not JSON.
pub uninterp spec fn json_parsed(text: Seq<char>) -> Option<JsonTree>;

/// The member of an object under a key; `None` for a missing key and for
/// anything that is not an object.
pub open spec fn tree_member(tree: JsonTree, key: Seq<char>) -> Option<JsonTree> {
    match tree {
        JsonTree::Object(members) => if members.contains_key(key) {
            Some(members[key])
        } else {
            None
        },
        _ => None,
    }
}

/// The contents of each document of a sequence.
pub open spec fn trees_of(docs: Seq<serde_json::Value>) -> Seq<JsonTree> {
    docs.map_values(|doc: serde_json::Value| json_tree(doc))
}

/// `serde_json::from_str` at `serde_json::Value`: parses a text as one JSON
/// document. The contents of the result are a function of the text alone, and
/// the call fails exactly where the text has no such contents.
#[verifier::external_body]
pub(crate) fn parse_document(text: &str) -> (res: Result<serde_json::Value, serde_json::Error>)
    ensures
        match res {
            Ok(doc) => json_parsed(text@) == Some(json_tree(doc)),
            Err(_) => json_parsed(text@) is None,
        },
{
    serde_json::from_str::<serde_json::Value>(text)
}

/// `serde_json::Value::get` with a string index: the member of an object
/// under `key`, and nothing for a missing key or a value that is no object.
#[verifier::external_body]
pub(crate) fn member<'a>(doc: &'a serde_json::Value, key: &str) -> (res: Option<
    &'a serde_json::Value,
>)
    ensures
        match res {
            Some(found) => tree_member(json_tree(*doc), key@) == Some(json_tree(*found)),
            None => tree_member(json_tree(*doc), key@) is None,
        },
{
    doc.get(key)
}

/// `serde_json::Value::as_str`: the text of a string value, nothing for any
/// other value.
#[verifier::external_body]
pub(crate) fn text_of<'a>(doc: &'a serde_json::Value) -> (res: Option<&'a str>)
    ensures
        match res {
            Some(text) => json_tree(*doc) == JsonTree::Text(text@),
            None => !(json_tree(*doc) is Text),
        },
{
    doc.as_str()
}

/// `serde_json::Value::as_i64`: the value of a number that is an integer in
/// the range of `i64`, nothing for any other value.
#[verifier::external_body]
pub(crate) fn integer_of(doc: &serde_json::Value) -> (res: Option<i64>)
    ensures
        match res {
            Some(n) => json_tree(*doc) == JsonTree::Integer(n),
            None => !(json_tree(*doc) is Integer),
        },
{
    doc.as_i64()
}

/// `serde_json::Value::as_array`: the elements of an array, in order, nothing
/// for any other value.
#[verifier::external_body]
pub(crate) fn items_of<'a>(doc: &'a serde_json::Value) -> (res: Option<
    &'a Vec<serde_json::Value>,
>)
    ensures
        match res {
            Some(items) => json_tree(*doc) == JsonTree::Array(trees_of(items@)),
            None => !(json_tree(*doc) is Array),
        },
{
    doc.as_array()
}

} // verus!
