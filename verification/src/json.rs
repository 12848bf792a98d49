//! JSON documents: the form held in memory and the value that it denotes.

use vstd::prelude::*;
use crate::text::{owned, str_eq};
use crate::trusted::{integer_number, number_from_i64};

verus! {

/// A JSON document as a mathematical value. An object is a map from keys to
/// documents: the order of its members is no part of it.
pub enum JsonView {
    Null,
    Bool(bool),
    Number(serde_json::Number),
    Str(Seq<char>),
    Array(Seq<JsonView>),
    Object(Map<Seq<char>, JsonView>),
}

/// A JSON document held in memory. An object is a list of members; where a key
/// occurs more than once, the last member with that key counts.
#[derive(Debug, PartialEq)]
pub enum Json {
    Null,
    Bool(bool),
    Number(serde_json::Number),
    Str(String),
    Array(Vec<Json>),
    Object(Vec<(String, Json)>),
}

/// The object that a list of members denotes: a later member replaces an
/// earlier one with the same key.
pub open spec fn members_map(members: Seq<(Seq<char>, JsonView)>) -> Map<Seq<char>, JsonView>
    decreases members.len(),
{
    if members.len() == 0 {
        Map::empty()
    } else {
        members_map(members.drop_last()).insert(members.last().0, members.last().1)
    }
}

impl JsonView {
    /// The object with no members.
    pub open spec fn empty_object() -> JsonView {
        JsonView::Object(Map::empty())
    }

    /// The object `self` with the member `key: value` put in. Anything but an
    /// object counts as the empty object.
    pub open spec fn with(self, key: Seq<char>, value: JsonView) -> JsonView {
        JsonView::Object(self.members().insert(key, value))
    }

    /// The members of an object; none for anything else.
    pub open spec fn members(self) -> Map<Seq<char>, JsonView> {
        match self {
            JsonView::Object(m) => m,
            _ => Map::empty(),
        }
    }

    /// The member of an object under `key`.
    pub open spec fn member(self, key: Seq<char>) -> Option<JsonView> {
        if self.members().contains_key(key) {
            Some(self.members()[key])
        } else {
            None
        }
    }

    /// The text of a string.
    pub open spec fn text(self) -> Option<Seq<char>> {
        match self {
            JsonView::Str(s) => Some(s),
            _ => None,
        }
    }

    /// The text of the string member under `key`, or `default` where there is
    /// no such member or it is no string.
    pub open spec fn text_member_or(self, key: Seq<char>, default: Seq<char>) -> Seq<char> {
        match self.member(key) {
            Some(JsonView::Str(s)) => s,
            _ => default,
        }
    }
}

/// The members of an object in memory, each with the document that its value
/// denotes.
pub open spec fn member_views(members: Seq<(String, Json)>) -> Seq<(Seq<char>, JsonView)> {
    Seq::new(members.len(), |i: int| (members[i].0@, members[i].1@))
}

/// The documents that the items of an array in memory denote.
pub open spec fn item_views(items: Seq<Json>) -> Seq<JsonView> {
    Seq::new(items.len(), |i: int| items[i]@)
}

impl Json {
    /// The document that `self` denotes.
    pub open spec fn denotation(self) -> JsonView
        decreases self, 1nat,
    {
        match self {
            Json::Null => JsonView::Null,
            Json::Bool(b) => JsonView::Bool(b),
            Json::Number(n) => JsonView::Number(n),
            Json::Str(s) => JsonView::Str(s@),
            Json::Array(_) => JsonView::Array(self.item_denotations()),
            Json::Object(_) => JsonView::Object(members_map(self.member_denotations())),
        }
    }

    /// What the items of an array denote, in their order.
    pub open spec fn item_denotations(self) -> Seq<JsonView>
        decreases self, 0nat,
    {
        match self {
            Json::Array(items) => Seq::new(
                items@.len(),
                |i: int|
                    if 0 <= i < items@.len() {
                        items@[i].denotation()
                    } else {
                        JsonView::Null
                    },
            ),
            _ => Seq::empty(),
        }
    }

    /// The members of an object in their order, each with what its value
    /// denotes.
    pub open spec fn member_denotations(self) -> Seq<(Seq<char>, JsonView)>
        decreases self, 0nat,
    {
        match self {
            Json::Object(members) => Seq::new(
                members@.len(),
                |i: int|
                    if 0 <= i < members@.len() {
                        (members@[i].0@, members@[i].1.denotation())
                    } else {
                        (Seq::empty(), JsonView::Null)
                    },
            ),
            _ => Seq::empty(),
        }
    }
}

impl View for Json {
    type V = JsonView;

    open spec fn view(&self) -> JsonView {
        self.denotation()
    }
}

/// An array in memory denotes the array of what its items denote.
pub proof fn lemma_array_view(items: Vec<Json>)
    ensures
        Json::Array(items)@ == JsonView::Array(item_views(items@)),
{
    assert(Json::Array(items).item_denotations() =~= item_views(items@));
}

/// An object in memory denotes the map of its members.
pub proof fn lemma_object_view(members: Vec<(String, Json)>)
    ensures
        Json::Object(members)@ == JsonView::Object(members_map(member_views(members@))),
{
    assert(Json::Object(members).member_denotations() =~= member_views(members@));
}

/// Adding a member at the end of a list puts it into the object.
pub proof fn lemma_members_map_push(
    members: Seq<(Seq<char>, JsonView)>,
    key: Seq<char>,
    value: JsonView,
)
    ensures
        members_map(members.push((key, value))) == members_map(members).insert(key, value),
{
    assert(members.push((key, value)).drop_last() =~= members);
}

/// A key that some member has is in the object, with the value of the last
/// member that has it.
pub proof fn lemma_members_map_present(members: Seq<(Seq<char>, JsonView)>, key: Seq<char>, at: int)
    requires
        0 <= at < members.len(),
        members[at].0 == key,
        forall|j: int| at < j < members.len() ==> (#[trigger] members[j]).0 != key,
    ensures
        members_map(members).contains_key(key),
        members_map(members)[key] == members[at].1,
    decreases members.len(),
{
    if at < members.len() - 1 {
        assert(members.last().0 != key);
        lemma_members_map_present(members.drop_last(), key, at);
    }
}

/// A key that no member has is not in the object.
pub proof fn lemma_members_map_absent(members: Seq<(Seq<char>, JsonView)>, key: Seq<char>)
    requires
        forall|j: int| 0 <= j < members.len() ==> (#[trigger] members[j]).0 != key,
    ensures
        !members_map(members).contains_key(key),
    decreases members.len(),
{
    if members.len() > 0 {
        assert(members.last().0 != key);
        lemma_members_map_absent(members.drop_last(), key);
    }
}

impl Json {
    /// A string document.
    pub fn string(text: &str) -> (doc: Json)
        ensures
            doc@ == JsonView::Str(text@),
    {
        Json::Str(owned(text))
    }

    /// A number document that holds an integer.
    pub fn integer(n: i64) -> (doc: Json)
        ensures
            doc@ == JsonView::Number(integer_number(n)),
    {
        Json::Number(number_from_i64(n))
    }

    /// An array document.
    pub fn array(items: Vec<Json>) -> (doc: Json)
        ensures
            doc@ == JsonView::Array(item_views(items@)),
    {
        proof {
            lemma_array_view(items);
        }
        Json::Array(items)
    }

    /// The object with no members.
    pub fn empty_object() -> (doc: Json)
        ensures
            doc@ == JsonView::empty_object(),
    {
        let members: Vec<(String, Json)> = Vec::new();
        proof {
            lemma_object_view(members);
            assert(member_views(members@) =~= Seq::empty());
        }
        Json::Object(members)
    }

    /// `self` with the member `key: value` put in. Anything but an object
    /// counts as the empty object.
    pub fn with(self, key: &str, value: Json) -> (doc: Json)
        ensures
            doc@ == self@.with(key@, value@),
    {
        let mut members: Vec<(String, Json)> = match self {
            Json::Object(members) => members,
            _ => Vec::new(),
        };
        proof {
            lemma_object_view(members);
            if !(self is Object) {
                assert(member_views(members@) =~= Seq::empty());
            }
        }
        let ghost before = members@;
        members.push((owned(key), value));
        proof {
            lemma_object_view(members);
            assert(member_views(members@) =~= member_views(before).push((key@, value@)));
            lemma_members_map_push(member_views(before), key@, value@);
        }
        Json::Object(members)
    }

    /// The member of an object under `key`.
    pub fn get(&self, key: &str) -> (found: Option<&Json>)
        ensures
            match found {
                Some(value) => self@.member(key@) == Some(value@),
                None => self@.member(key@) is None,
            },
    {
        match self {
            Json::Object(members) => {
                proof {
                    lemma_object_view(*members);
                }
                let mut i: usize = members.len();
                while i > 0
                    invariant
                        i <= members@.len(),
                        self@ == JsonView::Object(members_map(member_views(members@))),
                        forall|j: int|
                            i <= j < members@.len() ==> (#[trigger] member_views(members@)[j]).0
                                != key@,
                    decreases i,
                {
                    i -= 1;
                    if str_eq(members[i].0.as_str(), key) {
                        proof {
                            assert(member_views(members@)[i as int].0 == key@);
                            lemma_members_map_present(member_views(members@), key@, i as int);
                        }
                        return Some(&members[i].1);
                    }
                }
                proof {
                    lemma_members_map_absent(member_views(members@), key@);
                }
                None
            },
            _ => None,
        }
    }

    /// The text of a string document.
    pub fn as_str(&self) -> (found: Option<&str>)
        ensures
            match found {
                Some(text) => self@.text() == Some(text@),
                None => self@.text() is None,
            },
    {
        match self {
            Json::Str(s) => Some(s.as_str()),
            _ => None,
        }
    }

    /// Whether the document is an object.
    pub fn is_object(&self) -> (yes: bool)
        ensures
            yes == (self@ is Object),
    {
        match self {
            Json::Object(_) => true,
            _ => false,
        }
    }

    /// Whether the document is `null`.
    pub fn is_null(&self) -> (yes: bool)
        ensures
            yes == (self@ is Null),
    {
        match self {
            Json::Null => true,
            _ => false,
        }
    }

    /// The text of the string member under `key`, or `default` where there is
    /// no such member or it is no string.
    pub fn text_member_or(&self, key: &str, default: &str) -> (text: String)
        ensures
            text@ == self@.text_member_or(key@, default@),
    {
        match self.get(key) {
            Some(value) => match value.as_str() {
                Some(s) => owned(s),
                None => owned(default),
            },
            None => owned(default),
        }
    }
}

impl Clone for Json {
    /// A copy that denotes the same document.
    fn clone(&self) -> (copy: Json)
        ensures
            copy@ == self@,
        decreases self,
    {
        match self {
            Json::Null => Json::Null,
            Json::Bool(b) => Json::Bool(*b),
            Json::Number(n) => Json::Number(n.clone()),
            Json::Str(s) => Json::Str(s.clone()),
            Json::Array(items) => {
                let mut copies: Vec<Json> = Vec::new();
                let mut i: usize = 0;
                while i < items.len()
                    invariant
                        i <= items@.len(),
                        copies@.len() == i,
                        *self == Json::Array(*items),
                        forall|k: int| 0 <= k < i ==> (#[trigger] copies@[k])@ == items@[k]@,
                    decreases items@.len() - i,
                {
                    assert(decreases_to!(*self => self->Array_0@[i as int]));
                    copies.push(items[i].clone());
                    i += 1;
                }
                proof {
                    lemma_array_view(*items);
                    lemma_array_view(copies);
                    assert(item_views(copies@) =~= item_views(items@));
                }
                Json::Array(copies)
            },
            Json::Object(members) => {
                let mut copies: Vec<(String, Json)> = Vec::new();
                let mut i: usize = 0;
                while i < members.len()
                    invariant
                        i <= members@.len(),
                        copies@.len() == i,
                        *self == Json::Object(*members),
                        forall|k: int|
                            0 <= k < i ==> (#[trigger] copies@[k]).0@ == members@[k].0@
                                && copies@[k].1@ == members@[k].1@,
                    decreases members@.len() - i,
                {
                    assert(decreases_to!(*self => self->Object_0@[i as int].1));
                    copies.push((members[i].0.clone(), members[i].1.clone()));
                    i += 1;
                }
                proof {
                    lemma_object_view(*members);
                    lemma_object_view(copies);
                    assert(member_views(copies@) =~= member_views(members@));
                }
                Json::Object(copies)
            },
        }
    }
}

} // verus!

