//! JSON documents as the codecs see them: a tree of plain values, read from
//! text by `serde_json`, and the quoting of a string for a JSON text.

use crate::text::str_equal;
use serde_json::Value;
use vstd::prelude::*;

verus! {

/// `serde_json::Error`, handed on as it comes: nothing of it is read.
#[verifier::external_type_specification]
#[verifier::external_body]
pub struct ExJsonError(serde_json::Error);

/// `serde_json::Value`, the document as the reader holds it. It is copied
/// into a `Json` before anything is read of it.
#[verifier::external_type_specification]
#[verifier::external_body]
pub struct ExJsonDocument(Value);

/// A JSON number: a non-negative integer, a negative integer, or a number
/// that is no integer (its value is not kept).
#[derive(Clone, Copy, Debug, PartialEq, Eq, Structural)]
pub enum JsonNumber {
    Unsigned(u64),
    Negative(i64),
    Real,
}

/// A JSON document. The members of an object keep the order in which the
/// reader handed them out.
#[derive(Debug)]
pub enum Json {
    Null,
    Bool(bool),
    Number(JsonNumber),
    Text(String),
    Array(Vec<Json>),
    Object(Vec<(String, Json)>),
}

/// The mathematical form of a `Json`.
pub enum JsonView {
    Null,
    Bool(bool),
    Number(JsonNumber),
    Text(Seq<char>),
    Array(Seq<JsonView>),
    Object(Seq<(Seq<char>, JsonView)>),
}

/// The mathematical form of `j`, level by level.
pub open spec fn json_view(j: Json) -> JsonView
    decreases j,
{
    match j {
        Json::Null => JsonView::Null,
        Json::Bool(b) => JsonView::Bool(b),
        Json::Number(n) => JsonView::Number(n),
        Json::Text(s) => JsonView::Text(s@),
        Json::Array(items) => JsonView::Array(
            Seq::new(
                items@.len(),
                |i: int|
                    if 0 <= i < items@.len() {
                        json_view(items@[i])
                    } else {
                        JsonView::Null
                    },
            ),
        ),
        Json::Object(members) => JsonView::Object(
            Seq::new(
                members@.len(),
                |i: int|
                    if 0 <= i < members@.len() {
                        (members@[i].0@, json_view(members@[i].1))
                    } else {
                        (Seq::empty(), JsonView::Null)
                    },
            ),
        ),
    }
}

impl View for Json {
    type V = JsonView;

    open spec fn view(&self) -> JsonView {
        json_view(*self)
    }
}

/// The value of the first member named `key` among `members`.
pub open spec fn first_member(members: Seq<(Seq<char>, JsonView)>, key: Seq<char>) -> Option<
    JsonView,
>
    decreases members.len(),
{
    if members.len() == 0 {
        None
    } else if members[0].0 == key {
        Some(members[0].1)
    } else {
        first_member(members.drop_first(), key)
    }
}

impl JsonView {
    /// The member `key` of an object; `None` for anything else.
    pub open spec fn member(self, key: Seq<char>) -> Option<JsonView> {
        match self {
            JsonView::Object(members) => first_member(members, key),
            _ => None,
        }
    }

    /// The characters of a string; `None` for anything else.
    pub open spec fn text(self) -> Option<Seq<char>> {
        match self {
            JsonView::Text(s) => Some(s),
            _ => None,
        }
    }

    /// The items of an array; `None` for anything else.
    pub open spec fn items(self) -> Option<Seq<JsonView>> {
        match self {
            JsonView::Array(items) => Some(items),
            _ => None,
        }
    }

    /// The value of an integer that fits 32 signed bits; `None` for anything
    /// else.
    pub open spec fn small_integer(self) -> Option<int> {
        match self {
            JsonView::Number(JsonNumber::Unsigned(n)) => if n <= i32::MAX {
                Some(n as int)
            } else {
                None
            },
            JsonView::Number(JsonNumber::Negative(n)) => if i32::MIN <= n <= i32::MAX {
                Some(n as int)
            } else {
                None
            },
            _ => None,
        }
    }

    /// The characters of the string member `key` of an object.
    pub open spec fn text_member(self, key: Seq<char>) -> Option<Seq<char>> {
        match self.member(key) {
            Some(v) => v.text(),
            None => None,
        }
    }
}

impl Json {
    /// The member `key` of an object.
    pub fn member(&self, key: &str) -> (r: Option<&Json>)
        ensures
            match r {
                Some(v) => self@.member(key@) == Some(v@),
                None => self@.member(key@) is None,
            },
    {
        match self {
            Json::Object(members) => {
                let ghost all = self@->Object_0;
                let mut i: usize = 0;
                assert(all.subrange(0, all.len() as int) == all);
                while i < members.len()
                    invariant
                        i <= members@.len(),
                        self@ == JsonView::Object(all),
                        all.len() == members@.len(),
                        forall|j: int|
                            0 <= j < members@.len() ==> #[trigger] all[j] == (
                                members@[j].0@,
                                members@[j].1@,
                            ),
                        first_member(all, key@) == first_member(
                            all.subrange(i as int, all.len() as int),
                            key@,
                        ),
                    decreases members@.len() - i,
                {
                    let ghost rest = all.subrange(i as int, all.len() as int);
                    assert(rest.drop_first() == all.subrange(i + 1, all.len() as int));
                    if str_equal(members[i].0.as_str(), key) {
                        return Some(&members[i].1);
                    }
                    i += 1;
                }
                None
            },
            _ => None,
        }
    }

    /// The string that the document is, if it is one.
    pub fn text(&self) -> (r: Option<&String>)
        ensures
            match r {
                Some(s) => self@.text() == Some(s@),
                None => self@.text() is None,
            },
    {
        match self {
            Json::Text(s) => Some(s),
            _ => None,
        }
    }

    /// The items of the array that the document is, if it is one.
    pub fn items(&self) -> (r: Option<&Vec<Json>>)
        ensures
            match r {
                Some(items) => self@.items() == Some(items@.map_values(|j: Json| j@)),
                None => self@.items() is None,
            },
    {
        match self {
            Json::Array(items) => {
                Some(items)
            },
            _ => None,
        }
    }

    /// The integer that the document is, if it is one and fits 32 signed bits.
    pub fn small_integer(&self) -> (r: Option<i32>)
        ensures
            match r {
                Some(n) => self@.small_integer() == Some(n as int),
                None => self@.small_integer() is None,
            },
    {
        match self {
            Json::Number(JsonNumber::Unsigned(n)) => if *n <= 0x7fff_ffff {
                Some(*n as i32)
            } else {
                None
            },
            Json::Number(JsonNumber::Negative(n)) => if -0x8000_0000 <= *n && *n <= 0x7fff_ffff {
                Some(*n as i32)
            } else {
                None
            },
            _ => None,
        }
    }

    /// The string member `key` of an object.
    pub fn text_member(&self, key: &str) -> (r: Option<&String>)
        ensures
            match r {
                Some(s) => self@.text_member(key@) == Some(s@),
                None => self@.text_member(key@) is None,
            },
    {
        match self.member(key) {
            Some(v) => v.text(),
            None => None,
        }
    }
}

/// The document that `serde_json` reads from a text, or `None` where it
/// rejects the text.
pub uninterp spec fn json_of_text(text: Seq<char>) -> Option<JsonView>;

/// What a `serde_json::Value` holds, as a tree of plain values.
pub uninterp spec fn document_view(v: Value) -> JsonView;

/// The JSON string literal that `serde_json` writes for the characters `s`:
/// quoted and escaped.
pub uninterp spec fn json_string(s: Seq<char>) -> Seq<char>;

/// Reads a text with `serde_json::from_str`, asking for a `Value`. Whether
/// the text is accepted, and the document that comes out, depend on the text
/// alone; the contract names that outcome and states nothing else of it.
#[verifier::external_body]
fn read_document(text: &str) -> (r: Result<Value, serde_json::Error>)
    ensures
        match r {
            Ok(v) => json_of_text(text@) == Some(document_view(v)),
            Err(_) => json_of_text(text@) is None,
        },
{
    serde_json::from_str(text)
}

/// Copies a `serde_json::Value` into a `Json`, variant by variant. A number
/// goes by `Number::as_u64` and `Number::as_i64`: the first answers for every
/// integer from zero up, the second for the negative ones, neither for a
/// number that is no integer. The members of an object come in the order of
/// `Map::iter`. The contract says that the copy is what the value holds.
#[verifier::external_body]
fn copy_document(v: &Value) -> (r: Json)
    ensures
        r@ == document_view(*v),
{
    match v {
        Value::Null => Json::Null,
        Value::Bool(b) => Json::Bool(*b),
        Value::Number(n) => Json::Number(match (n.as_u64(), n.as_i64()) {
            (Some(u), _) => JsonNumber::Unsigned(u),
            (None, Some(i)) => JsonNumber::Negative(i),
            (None, None) => JsonNumber::Real,
        }),
        Value::String(s) => Json::Text(s.clone()),
        Value::Array(a) => Json::Array(a.iter().map(copy_document).collect()),
        Value::Object(m) => Json::Object(
            m.iter().map(|(k, x)| (k.clone(), copy_document(x))).collect(),
        ),
    }
}

/// Writes a string as a JSON string literal with `serde_json::to_string`.
/// That function fails only where the value's own serialisation fails or a
/// map has a key that is no string, and neither can happen for a string, so
/// the contract promises `Ok`. The escaping is not restated: the literal is
/// named, as a function of the characters.
#[verifier::external_body]
pub(crate) fn quote(text: &str) -> (r: Result<String, serde_json::Error>)
    ensures
        r is Ok,
        r matches Ok(s) ==> s@ == json_string(text@),
{
    serde_json::to_string(text)
}

/// Makes the error with which a document is refused that is JSON but not of
/// the shape asked for, with `serde::de::Error::custom`, which `serde_json`
/// implements for its error: the error carries `message`. Nothing is claimed
/// of it.
#[verifier::external_body]
pub(crate) fn shape_error(message: &str) -> (e: serde_json::Error) {
    serde::de::Error::custom(message)
}

impl Json {
    /// The document that a `serde_json::Value` holds.
    pub fn from_document(v: &Value) -> (r: Json)
        ensures
            r@ == document_view(*v),
    {
        copy_document(v)
    }
}

/// Reads a JSON text.
pub fn parse_json(text: &str) -> (r: Result<Json, serde_json::Error>)
    ensures
        match r {
            Ok(j) => json_of_text(text@) == Some(j@),
            Err(_) => json_of_text(text@) is None,
        },
{
    match read_document(text) {
        Ok(v) => Ok(Json::from_document(&v)),
        Err(e) => Err(e),
    }
}

impl Clone for Json {
    fn clone(&self) -> (r: Json)
        ensures
            r@ == self@,
        decreases self,
    {
        match self {
            Json::Null => Json::Null,
            Json::Bool(b) => Json::Bool(*b),
            Json::Number(n) => Json::Number(*n),
            Json::Text(s) => Json::Text(s.clone()),
            Json::Array(items) => {
                let mut copy: Vec<Json> = Vec::new();
                let mut i: usize = 0;
                while i < items.len()
                    invariant
                        i <= items@.len(),
                        *self == Json::Array(*items),
                        copy@.len() == i,
                        forall|j: int| 0 <= j < i ==> (#[trigger] copy@[j])@ == items@[j]@,
                    decreases items@.len() - i,
                {
                    proof {
                        vstd::std_specs::vec::axiom_vec_index_decreases(*items, i as int);
                        assert(decreases_to!(*self => self->Array_0));
                    }
                    let item = items[i].clone();
                    copy.push(item);
                    i += 1;
                }
                let r = Json::Array(copy);
                assert(r@->Array_0 =~= self@->Array_0);
                r
            },
            Json::Object(members) => {
                let mut copy: Vec<(String, Json)> = Vec::new();
                let mut i: usize = 0;
                while i < members.len()
                    invariant
                        i <= members@.len(),
                        *self == Json::Object(*members),
                        copy@.len() == i,
                        forall|j: int|
                            0 <= j < i ==> (#[trigger] copy@[j]).0@ == members@[j].0@ && copy@[j].1@
                                == members@[j].1@,
                    decreases members@.len() - i,
                {
                    proof {
                        vstd::std_specs::vec::axiom_vec_index_decreases(*members, i as int);
                        assert(decreases_to!(*self => self->Object_0));
                    }
                    let name = members[i].0.clone();
                    let value = members[i].1.clone();
                    copy.push((name, value));
                    i += 1;
                }
                let r = Json::Object(copy);
                assert(r@->Object_0 =~= self@->Object_0);
                r
            },
        }
    }
}

} // verus!
