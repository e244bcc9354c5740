//! JSON objects as lists of members, and their text form.
//!
//! The text itself is written and read by `serde_json`; this module holds the
//! member model that the rest of the crate reasons about.

use vstd::prelude::*;

verus! {

/// The value of one member of a JSON object, as far as a record's schema
/// tells values apart.
#[derive(Clone, Debug, PartialEq, Eq)]
pub enum JsonValue {
    /// A JSON string.
    Text(String),
    /// A JSON number that is an integer in the range of `i64`.
    Integer(i64),
    /// Any other JSON value: `null`, a boolean, another number, an array or
    /// an object.
    Other,
}

/// One `key: value` member of a JSON object.
#[derive(Clone, Debug, PartialEq, Eq)]
pub struct Member {
    pub key: String,
    pub value: JsonValue,
}

/// Mathematical model of a [`JsonValue`].
pub enum JsonValueView {
    Text(Seq<char>),
    Integer(int),
    Other,
}

/// Mathematical model of a [`Member`].
pub struct MemberView {
    pub key: Seq<char>,
    pub value: JsonValueView,
}

impl DeepView for JsonValue {
    type V = JsonValueView;

    open spec fn deep_view(&self) -> JsonValueView {
        match self {
            JsonValue::Text(s) => JsonValueView::Text(s@),
            JsonValue::Integer(i) => JsonValueView::Integer(*i as int),
            JsonValue::Other => JsonValueView::Other,
        }
    }
}

impl DeepView for Member {
    type V = MemberView;

    open spec fn deep_view(&self) -> MemberView {
        MemberView { key: self.key@, value: self.value.deep_view() }
    }
}

/// Whether `members` can be written as one JSON object: no two of them share
/// a key, and each holds a string or an integer.
pub open spec fn writable(members: Seq<MemberView>) -> bool {
    &&& forall|i: int| 0 <= i < members.len() ==> !(#[trigger] members[i].value is Other)
    &&& forall|i: int, j: int|
        0 <= i < j < members.len() ==> (#[trigger] members[i]).key != (#[trigger] members[j]).key
}

/// The compact JSON text that `serde_json` writes for the object with the
/// given members, in their order.
pub uninterp spec fn json_object_text(members: Seq<MemberView>) -> Seq<char>;

/// The members of the JSON object that `serde_json` reads from `text`, each
/// key once; `None` where `text` is not one JSON object.
pub uninterp spec fn json_object_members(text: Seq<char>) -> Option<Seq<MemberView>>;

/// Writes the object with the given members as JSON text.
///
/// Trusted: the body puts the members into a `serde_json::Map` with
/// `Map::insert`, one after the other, and calls `serde_json::to_string` on
/// the map. The keys differ, so the map holds each member as it was given.
/// The contract names the text that comes back, and with that claims two
/// things of the call: that the text depends on the members alone, and that
/// the call does not fail. It cannot, since it writes into a byte vector,
/// every key is a string, and every value is a string or an integer.
#[verifier::external_body]
pub(crate) fn write_object(members: &Vec<Member>) -> (text: String)
    requires
        writable(members.deep_view()),
    ensures
        text@ == json_object_text(members.deep_view()),
{
    let mut object = serde_json::Map::new();
    for member in members.iter() {
        let value = match &member.value {
            JsonValue::Text(s) => serde_json::Value::from(s.as_str()),
            JsonValue::Integer(i) => serde_json::Value::from(*i),
            JsonValue::Other => serde_json::Value::Null,
        };
        object.insert(member.key.clone(), value);
    }
    serde_json::to_string(&object).unwrap_or_default()
}

/// Reads the members of the JSON object in `text`.
///
/// Trusted: the body calls `serde_json::from_str` for a `serde_json::Value`.
/// Where that gives an object, it hands out the object's members: a string as
/// [`JsonValue::Text`], a number for which `Number::as_i64` gives an integer
/// as [`JsonValue::Integer`], anything else as [`JsonValue::Other`]. The
/// contract names what comes back, `None` included, and with that claims only
/// that it depends on the text alone.
#[verifier::external_body]
pub(crate) fn read_object(text: &str) -> (members: Option<Vec<Member>>)
    ensures
        members.deep_view() == json_object_members(text@),
{
    match serde_json::from_str::<serde_json::Value>(text) {
        Ok(serde_json::Value::Object(object)) => Some(
            object.into_iter().map(|(key, value)| Member {
                key,
                value: match value {
                    serde_json::Value::String(s) => JsonValue::Text(s),
                    serde_json::Value::Number(n) => n.as_i64().map_or(JsonValue::Other, JsonValue::Integer),
                    _ => JsonValue::Other,
                },
            }).collect(),
        ),
        _ => None,
    }
}

} // verus!
