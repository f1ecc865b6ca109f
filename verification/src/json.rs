//! A JSON document as the chat relay's messages need it: what a message is
//! built from, and what is read out of a reply.

use vstd::prelude::*;

verus! {

/// A JSON value. Of a number only one thing is kept: its value where it is
/// a whole number from 0 to 2^64 - 1, and that it is some other number where
/// it is not.
#[derive(Debug)]
pub enum JsonValue {
    Null,
    Bool(bool),
    Number(Option<u64>),
    Text(String),
    Array(Vec<JsonValue>),
    Object(Vec<(String, JsonValue)>),
}

/// What a [`JsonValue`] is, as a mathematical value.
pub enum JsonView {
    Null,
    Bool(bool),
    Number(Option<u64>),
    Text(Seq<char>),
    Array(Seq<JsonView>),
    Object(Seq<(Seq<char>, JsonView)>),
}

/// The mathematical value of a JSON value.
pub open spec fn json_view(value: JsonValue) -> JsonView
    decreases value,
{
    match value {
        JsonValue::Null => JsonView::Null,
        JsonValue::Bool(flag) => JsonView::Bool(flag),
        JsonValue::Number(number) => JsonView::Number(number),
        JsonValue::Text(text) => JsonView::Text(text@),
        JsonValue::Array(items) => JsonView::Array(
            Seq::new(
                items@.len(),
                |i: int|
                    if 0 <= i < items@.len() {
                        json_view(items@[i])
                    } else {
                        JsonView::Null
                    },
            ),
        ),
        JsonValue::Object(members) => JsonView::Object(
            Seq::new(
                members@.len(),
                |i: int|
                    if 0 <= i < members@.len() {
                        (members@[i].0@, json_view(members@[i].1))
                    } else {
                        (Seq::empty(), JsonView::Null)
                    },
            ),
        ),
    }
}

impl View for JsonValue {
    type V = JsonView;

    open spec fn view(&self) -> JsonView {
        json_view(*self)
    }
}

impl DeepView for JsonValue {
    type V = JsonView;

    open spec fn deep_view(&self) -> JsonView {
        self@
    }
}

/// `at` is the place of the first member of `members` with the name `key`.
pub open spec fn is_member_position(
    members: Seq<(Seq<char>, JsonView)>,
    key: Seq<char>,
    at: int,
) -> bool {
    &&& 0 <= at < members.len()
    &&& members[at].0 == key
    &&& forall|k: int| 0 <= k < at ==> (#[trigger] members[k]).0 != key
}

/// Some member of `members` has the name `key`.
pub open spec fn has_member(members: Seq<(Seq<char>, JsonView)>, key: Seq<char>) -> bool {
    exists|i: int| 0 <= i < members.len() && (#[trigger] members[i]).0 == key
}

/// The first member of `members` with the name `key`, if there is one.
pub open spec fn first_member(members: Seq<(Seq<char>, JsonView)>, key: Seq<char>) -> Option<
    JsonView,
> {
    if has_member(members, key) {
        Some(members[choose|at: int| is_member_position(members, key, at)].1)
    } else {
        None
    }
}

impl JsonView {
    /// The member `key` of an object; nothing for any other value and for an
    /// object without such a member.
    pub open spec fn member(self, key: Seq<char>) -> Option<JsonView> {
        match self {
            JsonView::Object(members) => first_member(members, key),
            _ => None,
        }
    }

    /// The text of a string; nothing for any other value.
    pub open spec fn text(self) -> Option<Seq<char>> {
        match self {
            JsonView::Text(text) => Some(text),
            _ => None,
        }
    }

    /// The items of an array; nothing for any other value.
    pub open spec fn items(self) -> Option<Seq<JsonView>> {
        match self {
            JsonView::Array(items) => Some(items),
            _ => None,
        }
    }

    /// The value of a number that is a whole number from 0 to 2^64 - 1;
    /// nothing for any other value.
    pub open spec fn unsigned(self) -> Option<u64> {
        match self {
            JsonView::Number(value) => value,
            _ => None,
        }
    }

    /// The text of the member `key`, where the object has such a member and
    /// it is a string.
    pub open spec fn member_text(self, key: Seq<char>) -> Option<Seq<char>> {
        match self.member(key) {
            Some(value) => value.text(),
            None => None,
        }
    }
}

/// The view of an optional value.
pub open spec fn found_view(found: Option<&JsonValue>) -> Option<JsonView> {
    match found {
        Some(value) => Some(value@),
        None => None,
    }
}

/// The view of an optional text.
pub open spec fn text_view(text: Option<&str>) -> Option<Seq<char>> {
    match text {
        Some(text) => Some(text@),
        None => None,
    }
}

/// The members of an object's view are the views of the object's members.
pub proof fn lemma_object_view(members: Vec<(String, JsonValue)>)
    ensures
        (JsonValue::Object(members))@ matches JsonView::Object(seen) && seen.len() == members@.len()
            && forall|i: int|
            0 <= i < seen.len() ==> #[trigger] seen[i] == (members@[i].0@, members@[i].1@),
{
}

/// The items of an array's view are the views of the array's items.
pub proof fn lemma_array_view(items: Vec<JsonValue>)
    ensures
        (JsonValue::Array(items))@ == JsonView::Array(items.deep_view()),
{
    assert((JsonValue::Array(items))@->Array_0 =~= items.deep_view());
}

/// The first member with a given name stands in one place only.
pub proof fn lemma_member_position_unique(
    members: Seq<(Seq<char>, JsonView)>,
    key: Seq<char>,
    at: int,
)
    requires
        is_member_position(members, key, at),
    ensures
        first_member(members, key) == Some(members[at].1),
{
}

impl JsonValue {
    /// The member `key` of an object, if it has one.
    pub fn get(&self, key: &str) -> (found: Option<&JsonValue>)
        ensures
            found_view(found) == self@.member(key@),
    {
        match self {
            JsonValue::Object(members) => {
                let name = key.to_owned();
                let ghost seen = self@->Object_0;
                let mut i: usize = 0;
                while i < members.len()
                    invariant
                        0 <= i <= members.len(),
                        self@ == JsonView::Object(seen),
                        seen.len() == members@.len(),
                        forall|k: int|
                            0 <= k < seen.len() ==> #[trigger] seen[k] == (
                                members@[k].0@,
                                members@[k].1@,
                            ),
                        name@ == key@,
                        forall|k: int| 0 <= k < i ==> (#[trigger] seen[k]).0 != key@,
                    decreases members.len() - i,
                {
                    if members[i].0 == name {
                        proof {
                            lemma_member_position_unique(seen, key@, i as int);
                        }
                        return Some(&members[i].1);
                    }
                    i = i + 1;
                }
                None
            },
            _ => None,
        }
    }

    /// The text of a string.
    pub fn as_str(&self) -> (text: Option<&str>)
        ensures
            text_view(text) == self@.text(),
    {
        match self {
            JsonValue::Text(text) => Some(text.as_str()),
            _ => None,
        }
    }

    /// The items of an array.
    pub fn as_array(&self) -> (items: Option<&Vec<JsonValue>>)
        ensures
            match items {
                Some(items) => self@.items() == Some(items.deep_view()),
                None => self@.items() is None,
            },
    {
        match self {
            JsonValue::Array(items) => {
                Some(items)
            },
            _ => None,
        }
    }

    /// The value of a number that is a whole number from 0 to 2^64 - 1.
    pub fn as_u64(&self) -> (value: Option<u64>)
        ensures
            value == self@.unsigned(),
    {
        match self {
            JsonValue::Number(value) => *value,
            _ => None,
        }
    }

    /// The text of the member `key`, where the object has such a member and
    /// it is a string.
    pub fn get_str(&self, key: &str) -> (text: Option<&str>)
        ensures
            text_view(text) == self@.member_text(key@),
    {
        match self.get(key) {
            Some(value) => value.as_str(),
            None => None,
        }
    }

    /// The JSON string of `text`.
    pub fn from_text(text: &str) -> (value: JsonValue)
        ensures
            value@ == JsonView::Text(text@),
    {
        JsonValue::Text(text.to_owned())
    }

    /// The JSON string of a text, or null where there is none.
    pub fn from_optional_text(text: &Option<String>) -> (value: JsonValue)
        ensures
            value@ == match text {
                Some(text) => JsonView::Text(text@),
                None => JsonView::Null,
            },
    {
        match text {
            Some(text) => JsonValue::Text(text.clone()),
            None => JsonValue::Null,
        }
    }

    /// The JSON object of one member.
    pub fn object_of(key: &str, value: JsonValue) -> (object: JsonValue)
        ensures
            object@ == JsonView::Object(seq![(key@, value@)]),
    {
        let mut members: Vec<(String, JsonValue)> = Vec::new();
        members.push((key.to_owned(), value));
        let object = JsonValue::Object(members);
        assert(object@->Object_0 =~= seq![(key@, value@)]);
        object
    }
}

} // verus!
