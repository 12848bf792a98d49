//! Reading and writing JSON text.
//!
//! The text is read and written by `serde_json`; the functions here carry a
//! document between its form and the library's own, one level at a time.

use vstd::prelude::*;
use crate::json::{
    item_views, lemma_array_view, lemma_members_map_present, lemma_members_map_push,
    lemma_object_view, member_views, members_map, Json, JsonView,
};
use crate::text::str_eq;
use crate::trusted::{
    close_value, distinct_keys, member_contents, open_value, parse_value, parsed_text,
    render_value, rendered_text, value_content, Node,
};

verus! {

/// The document that a `serde_json::Value` holds, in the library's form.
pub(crate) fn json_of_value(v: serde_json::Value) -> (doc: Json)
    ensures
        doc@ == value_content(v),
    decreases value_content(v),
{
    let ghost whole = value_content(v);
    match open_value(v) {
        Node::Null => Json::Null,
        Node::Bool(b) => Json::Bool(b),
        Node::Number(n) => Json::Number(n),
        Node::Str(s) => Json::Str(s),
        Node::Array(items) => {
            let ghost all = items@;
            let mut docs: Vec<Json> = Vec::new();
            for item in it: items
                invariant
                    it.seq() == all,
                    whole == value_content(v),
                    whole is Array,
                    whole->Array_0.len() == all.len(),
                    forall|k: int|
                        0 <= k < all.len() ==> whole->Array_0[k] == value_content(
                            #[trigger] all[k],
                        ),
                    docs@.len() == it.index(),
                    forall|k: int|
                        0 <= k < docs@.len() ==> (#[trigger] docs@[k])@ == whole->Array_0[k],
            {
                assert(decreases_to!(whole => whole->Array_0[it.index() as int]));
                docs.push(json_of_value(item));
            }
            proof {
                lemma_array_view(docs);
                assert(item_views(docs@) =~= whole->Array_0);
            }
            Json::Array(docs)
        },
        Node::Object(members) => {
            let ghost all = members@;
            let mut docs: Vec<(String, Json)> = Vec::new();
            for member in it: members
                invariant
                    it.seq() == all,
                    whole == value_content(v),
                    distinct_keys(all),
                    whole == JsonView::Object(members_map(member_contents(all))),
                    docs@.len() == it.index(),
                    forall|k: int|
                        0 <= k < docs@.len() ==> (#[trigger] docs@[k]).0@ == all[k].0@
                            && docs@[k].1@ == value_content(all[k].1),
            {
                proof {
                    let at = it.index() as int;
                    assert forall|j: int| at < j < all.len() implies (#[trigger] member_contents(
                        all,
                    )[j]).0 != member_contents(all)[at].0 by {
                        assert(all[at].0@ != all[j].0@);
                    }
                    lemma_members_map_present(member_contents(all), all[at].0@, at);
                    assert(decreases_to!(whole => whole->Object_0[all[at].0@]));
                }
                let (key, value) = member;
                docs.push((key, json_of_value(value)));
            }
            proof {
                lemma_object_view(docs);
                assert(member_views(docs@) =~= member_contents(all));
            }
            Json::Object(docs)
        },
    }
}

/// Where `key` stands among `members`.
fn position(members: &Vec<(String, serde_json::Value)>, key: &str) -> (found: Option<usize>)
    ensures
        match found {
            Some(at) => at < members@.len() && members@[at as int].0@ == key@,
            None => forall|j: int| 0 <= j < members@.len() ==> (#[trigger] members@[j]).0@ != key@,
        },
{
    let mut i: usize = 0;
    while i < members.len()
        invariant
            i <= members@.len(),
            forall|j: int| 0 <= j < i ==> (#[trigger] members@[j]).0@ != key@,
        decreases members@.len() - i,
    {
        if str_eq(members[i].0.as_str(), key) {
            return Some(i);
        }
        i += 1;
    }
    None
}

/// Replacing the value of the one member that has a key puts the new value
/// into the object.
proof fn lemma_members_map_update(
    members: Seq<(Seq<char>, JsonView)>,
    at: int,
    key: Seq<char>,
    value: JsonView,
)
    requires
        0 <= at < members.len(),
        members[at].0 == key,
        forall|i: int, j: int|
            0 <= i < j < members.len() ==> (#[trigger] members[i]).0 != (#[trigger] members[j]).0,
    ensures
        members_map(members.update(at, (key, value))) == members_map(members).insert(key, value),
    decreases members.len(),
{
    let updated = members.update(at, (key, value));
    let rest = members.drop_last();
    if at == members.len() - 1 {
        assert(updated.drop_last() =~= rest);
        assert(members_map(updated) =~= members_map(members).insert(key, value));
    } else {
        assert(updated.drop_last() =~= rest.update(at, (key, value)));
        assert(members[at].0 != members[members.len() - 1].0);
        assert forall|i: int, j: int| 0 <= i < j < rest.len() implies (#[trigger] rest[i]).0 != (
        #[trigger] rest[j]).0 by {
            assert(members[i].0 != members[j].0);
        }
        lemma_members_map_update(rest, at, key, value);
        assert(members_map(updated) =~= members_map(members).insert(key, value));
    }
}

/// A `serde_json::Value` that holds the document `doc`.
pub(crate) fn value_of_json(doc: &Json) -> (v: serde_json::Value)
    ensures
        value_content(v) == doc@,
    decreases doc,
{
    match doc {
        Json::Null => close_value(Node::Null),
        Json::Bool(b) => close_value(Node::Bool(*b)),
        Json::Number(n) => close_value(Node::Number(n.clone())),
        Json::Str(s) => close_value(Node::Str(s.clone())),
        Json::Array(items) => {
            let mut values: Vec<serde_json::Value> = Vec::new();
            let mut i: usize = 0;
            while i < items.len()
                invariant
                    i <= items@.len(),
                    *doc == Json::Array(*items),
                    values@.len() == i,
                    forall|k: int|
                        0 <= k < i ==> value_content(#[trigger] values@[k]) == items@[k]@,
                decreases items@.len() - i,
            {
                assert(decreases_to!(*doc => doc->Array_0@[i as int]));
                values.push(value_of_json(&items[i]));
                i += 1;
            }
            proof {
                lemma_array_view(*items);
                assert(Node::Array(values).content()->Array_0 =~= item_views(items@));
            }
            close_value(Node::Array(values))
        },
        Json::Object(members) => {
            let mut values: Vec<(String, serde_json::Value)> = Vec::new();
            let mut i: usize = 0;
            proof {
                assert(member_contents(values@) =~= member_views(members@).take(0));
            }
            while i < members.len()
                invariant
                    i <= members@.len(),
                    *doc == Json::Object(*members),
                    distinct_keys(values@),
                    members_map(member_contents(values@)) == members_map(
                        member_views(members@).take(i as int),
                    ),
                decreases members@.len() - i,
            {
                assert(decreases_to!(*doc => doc->Object_0@[i as int].1));
                let key = members[i].0.clone();
                let value = value_of_json(&members[i].1);
                let ghost before = values@;
                let ghost seen = member_views(members@).take(i as int);
                proof {
                    assert(member_views(members@).take(i + 1) =~= seen.push(
                        (key@, value_content(value)),
                    ));
                    lemma_members_map_push(seen, key@, value_content(value));
                }
                match position(&values, key.as_str()) {
                    Some(at) => {
                        values.set(at, (key, value));
                        proof {
                            assert(member_contents(values@) =~= member_contents(before).update(
                                at as int,
                                (key@, value_content(value)),
                            ));
                            assert forall|a: int, b: int|
                                0 <= a < b < member_contents(before).len() implies (
                            #[trigger] member_contents(before)[a]).0 != (
                            #[trigger] member_contents(before)[b]).0 by {
                                assert(before[a].0@ != before[b].0@);
                            }
                            lemma_members_map_update(
                                member_contents(before),
                                at as int,
                                key@,
                                value_content(value),
                            );
                        }
                    },
                    None => {
                        values.push((key, value));
                        proof {
                            assert(member_contents(values@) =~= member_contents(before).push(
                                (key@, value_content(value)),
                            ));
                            lemma_members_map_push(
                                member_contents(before),
                                key@,
                                value_content(value),
                            );
                        }
                    },
                }
                i += 1;
            }
            proof {
                lemma_object_view(*members);
                assert(member_views(members@).take(members@.len() as int) =~= member_views(
                    members@,
                ));
            }
            close_value(Node::Object(values))
        },
    }
}

/// What `parse` reports for a text that is no JSON document.
#[derive(Debug, Clone, Copy, PartialEq, Eq, Structural)]
pub struct SyntaxError;

/// Reads a JSON document from a text.
pub fn parse(text: &str) -> (read: Result<Json, SyntaxError>)
    ensures
        match read {
            Ok(doc) => parsed_text(text@) == Some(doc@),
            Err(_) => parsed_text(text@) is None,
        },
{
    match parse_value(text) {
        Ok(v) => Ok(json_of_value(v)),
        Err(_) => Err(SyntaxError),
    }
}

/// Writes a document as JSON text in the compact form, which holds no line
/// feed.
pub fn render(doc: &Json) -> (text: String)
    ensures
        text@ == rendered_text(doc@),
        !text@.contains('\n'),
{
    let v = value_of_json(doc);
    render_value(&v)
}

} // verus!
