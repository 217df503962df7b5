//! JSON values: what `serde_json` reads, holds and writes, and lookups in what it has read.
use vstd::prelude::*;

verus! {

/// The tree that a JSON value stands for. Of a number it keeps the literal in which it is
/// written, and its value where that is an unsigned 64-bit integer.
pub enum JsonView {
    Null,
    Bool(bool),
    Number { literal: Seq<char>, natural: Option<u64> },
    Text(Seq<char>),
    Array(Seq<JsonView>),
    Object(Map<Seq<char>, JsonView>),
}

impl JsonView {
    /// The member of an object under `key`.
    pub open spec fn member(self, key: Seq<char>) -> Option<JsonView> {
        match self {
            JsonView::Object(members) if members.contains_key(key) => Some(members[key]),
            _ => None,
        }
    }

    /// The text under `key`; nothing if the member is missing or is no text.
    pub open spec fn text_member(self, key: Seq<char>) -> Option<Seq<char>> {
        match self.member(key) {
            Some(JsonView::Text(s)) => Some(s),
            _ => None,
        }
    }

    /// The natural number under `key`; nothing if the member is missing or is none.
    pub open spec fn natural_member(self, key: Seq<char>) -> Option<u64> {
        match self.member(key) {
            Some(JsonView::Number { natural, .. }) => natural,
            _ => None,
        }
    }
}

/// The members of an object that is written down as a list.
pub open spec fn object_of(members: Seq<(Seq<char>, JsonView)>) -> Map<Seq<char>, JsonView>
    decreases members.len(),
{
    if members.len() == 0 {
        Map::empty()
    } else {
        object_of(members.drop_last()).insert(members.last().0, members.last().1)
    }
}

/// No two members of the list have the same key.
pub open spec fn distinct_keys(members: Seq<(Seq<char>, JsonView)>) -> bool {
    forall|i: int, j: int|
        #![trigger members[i], members[j]]
        0 <= i < j < members.len() ==> members[i].0 != members[j].0
}

/// The list of members that a vector of keys and values stands for.
pub open spec fn members_view(members: Seq<(String, serde_json::Value)>) -> Seq<
    (Seq<char>, JsonView),
> {
    Seq::new(members.len(), |i: int| (members[i].0@, json_model(members[i].1)))
}

// ---------------------------------------------------------------------------
// serde_json
// ---------------------------------------------------------------------------

/// `serde_json::Value`, a JSON value.
#[verifier::external_type_specification]
#[verifier::external_body]
pub struct ExValue(serde_json::Value);

/// The tree that a `serde_json::Value` holds.
pub uninterp spec fn json_model(v: serde_json::Value) -> JsonView;

/// The tree that `serde_json::from_str` reads in a text; none if the text is no JSON document.
pub uninterp spec fn parsed_json(text: Seq<char>) -> Option<JsonView>;

/// The text in which `serde_json::Value::to_string` writes a tree.
pub uninterp spec fn json_text(v: JsonView) -> Seq<char>;

/// `serde_json::from_str::<Value>`: the value that the text denotes, or nothing where it
/// reports an error. Which texts it reads, and as what, is left to the name `parsed_json`.
#[verifier::external_body]
pub(crate) fn parse_json(text: &str) -> (r: Option<serde_json::Value>)
    ensures
        match r {
            Some(v) => parsed_json(text@) == Some(json_model(v)),
            None => parsed_json(text@) is None,
        },
{
    serde_json::from_str::<serde_json::Value>(text).ok()
}

/// `serde_json::Value::to_string`: the compact form of a value. It depends on the tree alone,
/// and holds no line feed: control characters are escaped, and nothing is put between tokens.
#[verifier::external_body]
pub(crate) fn render_json(v: &serde_json::Value) -> (r: String)
    ensures
        r@ == json_text(json_model(*v)),
        !r@.contains('\n'),
{
    v.to_string()
}

/// `serde_json::Value::get` with a text: the member of an object under that key. A value that
/// is no object has no members.
#[verifier::external_body]
pub(crate) fn json_member<'a>(v: &'a serde_json::Value, key: &str) -> (r: Option<
    &'a serde_json::Value,
>)
    ensures
        match r {
            Some(m) => json_model(*v).member(key@) == Some(json_model(*m)),
            None => json_model(*v).member(key@) is None,
        },
{
    v.get(key)
}

/// `serde_json::Value::as_u64`: the value of a number, if it is an unsigned 64-bit integer.
pub assume_specification[ serde_json::Value::as_u64 ](v: &serde_json::Value) -> (r: Option<u64>)
    ensures
        r == (match json_model(*v) {
            JsonView::Number { natural, .. } => natural,
            _ => None,
        }),
;

/// `serde_json::Value::as_str`: the characters of a text; nothing for any other value.
pub assume_specification<'a>[ serde_json::Value::as_str ](v: &'a serde_json::Value) -> (r: Option<
    &'a str,
>)
    ensures
        match r {
            Some(s) => json_model(*v) == JsonView::Text(s@),
            None => !(json_model(*v) is Text),
        },
;

/// `serde_json::Value::Null`.
#[verifier::external_body]
pub(crate) fn json_null() -> (r: serde_json::Value)
    ensures
        json_model(r) == JsonView::Null,
{
    serde_json::Value::Null
}

/// `serde_json::Value::from` on a `bool`: the JSON boolean.
#[verifier::external_body]
pub(crate) fn json_bool(b: bool) -> (r: serde_json::Value)
    ensures
        json_model(r) == JsonView::Bool(b),
{
    serde_json::Value::from(b)
}

/// `serde_json::Value::from` on a `String`: the JSON text with the same characters.
#[verifier::external_body]
pub(crate) fn json_string(s: String) -> (r: serde_json::Value)
    ensures
        json_model(r) == JsonView::Text(s@),
{
    serde_json::Value::from(s)
}

/// `serde_json::Value::from_iter` on keys with values: the object with these members. Which of
/// two members with one key stays is not claimed.
#[verifier::external_body]
pub(crate) fn json_object(members: Vec<(String, serde_json::Value)>) -> (r: serde_json::Value)
    requires
        distinct_keys(members_view(members@)),
    ensures
        json_model(r) == JsonView::Object(object_of(members_view(members@))),
{
    serde_json::Value::from_iter(members)
}

// ---------------------------------------------------------------------------
// Lookups
// ---------------------------------------------------------------------------

/// The text under `key`.
pub fn text_under(v: &serde_json::Value, key: &str) -> (r: Option<String>)
    ensures
        r.deep_view() == json_model(*v).text_member(key@),
{
    match json_member(v, key) {
        Some(m) => match m.as_str() {
            Some(s) => Some(s.to_string()),
            None => None,
        },
        None => None,
    }
}

/// The natural number under `key`.
pub fn natural_under(v: &serde_json::Value, key: &str) -> (r: Option<u64>)
    ensures
        r == json_model(*v).natural_member(key@),
{
    match json_member(v, key) {
        Some(m) => m.as_u64(),
        None => None,
    }
}

} // verus!
