//! The boundary with `serde_json`.
//!
//! Everything in this file is believed, not proved: the declarations of the
//! `serde_json` types that the library carries, the names it gives to what
//! `serde_json` computes, and the functions that make the calls. The rest of
//! the library is verified against the contracts stated here.

use vstd::prelude::*;
use crate::json::{members_map, JsonView};

verus! {

/// `serde_json::Value`, carried as an opaque value.
#[verifier::external_type_specification]
#[verifier::external_body]
pub struct ExValue(serde_json::Value);

/// `serde_json::Number`, carried as an opaque value.
#[verifier::external_type_specification]
#[verifier::external_body]
pub struct ExNumber(serde_json::Number);

/// `serde_json::Error`, carried as an opaque value.
#[verifier::external_type_specification]
#[verifier::external_body]
pub struct ExError(serde_json::Error);

/// The document that a `serde_json::Value` holds.
pub uninterp spec fn value_content(v: serde_json::Value) -> JsonView;

/// The document that `serde_json::from_str` reads from a text, where it reads
/// one.
pub uninterp spec fn parsed_text(text: Seq<char>) -> Option<JsonView>;

/// The compact text that `serde_json` writes for a document. With the default
/// features of `serde_json` an object is kept in a `BTreeMap`, so what is
/// written depends on the members alone, not on the order in which they were
/// put in.
pub uninterp spec fn rendered_text(doc: JsonView) -> Seq<char>;

/// The `serde_json::Number` that stands for an integer.
pub uninterp spec fn integer_number(n: i64) -> serde_json::Number;

/// One level of a `serde_json::Value`: its variant and what the variant holds,
/// with the values below it still in `serde_json`'s own form.
pub enum Node {
    Null,
    Bool(bool),
    Number(serde_json::Number),
    Str(String),
    Array(Vec<serde_json::Value>),
    Object(Vec<(String, serde_json::Value)>),
}

/// The members of an object node, each with the document that its value holds.
pub open spec fn member_contents(members: Seq<(String, serde_json::Value)>) -> Seq<
    (Seq<char>, JsonView),
> {
    Seq::new(members.len(), |i: int| (members[i].0@, value_content(members[i].1)))
}

/// No two members have the same key.
pub open spec fn distinct_keys(members: Seq<(String, serde_json::Value)>) -> bool {
    forall|i: int, j: int|
        0 <= i < j < members.len() ==> (#[trigger] members[i]).0@ != (#[trigger] members[j]).0@
}

impl Node {
    /// The document that the node holds.
    pub open spec fn content(self) -> JsonView {
        match self {
            Node::Null => JsonView::Null,
            Node::Bool(b) => JsonView::Bool(b),
            Node::Number(n) => JsonView::Number(n),
            Node::Str(s) => JsonView::Str(s@),
            Node::Array(items) => JsonView::Array(
                Seq::new(items@.len(), |i: int| value_content(items@[i])),
            ),
            Node::Object(members) => JsonView::Object(members_map(member_contents(members@))),
        }
    }

    /// An object node names each of its keys once.
    pub open spec fn well_formed(self) -> bool {
        self matches Node::Object(members) ==> distinct_keys(members@)
    }
}

/// Calls `serde_json::from_str` for a `serde_json::Value`. The contract names
/// the outcome: the value that was read holds `parsed_text` of the text, and
/// an error comes back exactly where `parsed_text` is `None`.
#[verifier::external_body]
pub(crate) fn parse_value(text: &str) -> (r: Result<serde_json::Value, serde_json::Error>)
    ensures
        match r {
            Ok(v) => parsed_text(text@) == Some(value_content(v)),
            Err(_) => parsed_text(text@) is None,
        },
{
    serde_json::from_str::<serde_json::Value>(text)
}

/// Calls `to_string` on a `serde_json::Value`, which writes it through its
/// `Display` impl in the compact form. The contract names the text, and says
/// that it holds no line feed: the compact form puts no white space between
/// tokens and writes every control character inside a string as an escape.
#[verifier::external_body]
pub(crate) fn render_value(v: &serde_json::Value) -> (text: String)
    ensures
        text@ == rendered_text(value_content(*v)),
        !text@.contains('\n'),
{
    v.to_string()
}

/// Takes a `serde_json::Value` apart by one level: one arm for each variant of
/// the enum, and `serde_json::Map::into_iter` for the members of an object.
/// The node holds what the value held, and no key comes out of the map twice.
#[verifier::external_body]
pub(crate) fn open_value(v: serde_json::Value) -> (node: Node)
    ensures
        node.content() == value_content(v),
        node.well_formed(),
{
    match v {
        serde_json::Value::Null => Node::Null,
        serde_json::Value::Bool(b) => Node::Bool(b),
        serde_json::Value::Number(n) => Node::Number(n),
        serde_json::Value::String(s) => Node::Str(s),
        serde_json::Value::Array(items) => Node::Array(items),
        serde_json::Value::Object(map) => Node::Object(map.into_iter().collect()),
    }
}

/// Puts a `serde_json::Value` together from one level: one variant of the
/// enum for each kind of node, and `serde_json::Map::from_iter` for the members
/// of an object. The keys must be distinct: the map then keeps every member,
/// and nothing is claimed of which of two members with one key it would
/// keep. The value holds what the node held.
#[verifier::external_body]
pub(crate) fn close_value(node: Node) -> (v: serde_json::Value)
    requires
        node.well_formed(),
    ensures
        value_content(v) == node.content(),
{
    match node {
        Node::Null => serde_json::Value::Null,
        Node::Bool(b) => serde_json::Value::Bool(b),
        Node::Number(n) => serde_json::Value::Number(n),
        Node::Str(s) => serde_json::Value::String(s),
        Node::Array(items) => serde_json::Value::Array(items),
        Node::Object(members) => serde_json::Value::Object(members.into_iter().collect()),
    }
}

/// Calls `serde_json::Number::from` on an `i64`. The contract names the number.
#[verifier::external_body]
pub(crate) fn number_from_i64(n: i64) -> (number: serde_json::Number)
    ensures
        number == integer_number(n),
{
    serde_json::Number::from(n)
}

/// `Clone` for `serde_json::Number`, which is derived: the copy equals the
/// number that it was made of.
pub assume_specification[ <serde_json::Number as Clone>::clone ](
    n: &serde_json::Number,
) -> (copy: serde_json::Number)
    ensures
        copy == *n,
;

} // verus!
