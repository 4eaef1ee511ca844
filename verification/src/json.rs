//! Reading values out of a JSON text by JSON Pointer.

use crate::text::opt_text;
use vstd::prelude::*;

verus! {

/// What stands at one place of a JSON text.
#[derive(Clone, Debug, PartialEq, Eq)]
pub enum JsonValue {
    /// The text is not one JSON value.
    Invalid,
    /// The document has no value at that place.
    Absent,
    /// `null`.
    Null,
    /// `true` or `false`.
    Bool(bool),
    /// A string.
    Text(String),
    /// An array: its elements, each as JSON text.
    Items(Vec<String>),
    /// A number or an object.
    Other,
}

/// The mathematical counterpart of [`JsonValue`].
pub enum JsonView {
    Invalid,
    Absent,
    Null,
    Bool(bool),
    Text(Seq<char>),
    Items(Seq<Seq<char>>),
    Other,
}

impl View for JsonValue {
    type V = JsonView;

    open spec fn view(&self) -> JsonView {
        match self {
            JsonValue::Invalid => JsonView::Invalid,
            JsonValue::Absent => JsonView::Absent,
            JsonValue::Null => JsonView::Null,
            JsonValue::Bool(b) => JsonView::Bool(*b),
            JsonValue::Text(s) => JsonView::Text(s@),
            JsonValue::Items(items) => JsonView::Items(items.deep_view()),
            JsonValue::Other => JsonView::Other,
        }
    }
}

/// What the JSON text `body` holds at the JSON Pointer `pointer`.
pub uninterp spec fn json_at(body: Seq<char>, pointer: Seq<char>) -> JsonView;

/// Parses `body` and looks up `pointer` in it.
///
/// Trusted: stands for `serde_json::from_str` into a `serde_json::Value`
/// followed by `Value::pointer`. The result is a function of the two texts
/// alone. Which variant comes back mirrors the variant of the value found;
/// the elements of an array are handed out as the compact JSON text that
/// `Value`'s `Display` writes.
#[verifier::external_body]
pub(crate) fn value_at(body: &str, pointer: &str) -> (found: JsonValue)
    ensures
        found@ == json_at(body@, pointer@),
{
    match serde_json::from_str::<serde_json::Value>(body) {
        Err(_) => JsonValue::Invalid,
        Ok(document) => match document.pointer(pointer) {
            None => JsonValue::Absent,
            Some(serde_json::Value::Null) => JsonValue::Null,
            Some(serde_json::Value::Bool(b)) => JsonValue::Bool(*b),
            Some(serde_json::Value::String(s)) => JsonValue::Text(s.clone()),
            Some(serde_json::Value::Array(a)) => JsonValue::Items(
                a.iter().map(|item| item.to_string()).collect(),
            ),
            Some(serde_json::Value::Number(_)) => JsonValue::Other,
            Some(serde_json::Value::Object(_)) => JsonValue::Other,
        },
    }
}

/// `text` is one JSON value.
pub open spec fn is_json(text: Seq<char>) -> bool {
    !(json_at(text, Seq::empty()) is Invalid)
}

/// Whether `text` is one JSON value.
pub fn check_json(text: &str) -> (ok: bool)
    ensures
        ok == is_json(text@),
{
    proof {
        reveal_strlit("");
        assert(""@ =~= Seq::<char>::empty());
    }
    match value_at(text, "") {
        JsonValue::Invalid => false,
        _ => true,
    }
}

/// The string that `body` holds at `pointer`, if it holds one there.
pub open spec fn text_member(body: Seq<char>, pointer: Seq<char>) -> Option<Seq<char>> {
    match json_at(body, pointer) {
        JsonView::Text(s) => Some(s),
        _ => None,
    }
}

/// Reads the string at `pointer` in the JSON text `body`.
pub fn read_text(body: &str, pointer: &str) -> (found: Option<String>)
    ensures
        opt_text(found) == text_member(body@, pointer@),
{
    match value_at(body, pointer) {
        JsonValue::Text(s) => Some(s),
        _ => None,
    }
}

/// The elements of the array that `body` holds at `pointer`, each as JSON
/// text, if it holds an array there.
pub open spec fn json_items(body: Seq<char>, pointer: Seq<char>) -> Option<Seq<Seq<char>>> {
    match json_at(body, pointer) {
        JsonView::Items(items) => Some(items),
        _ => None,
    }
}

/// Reads the elements of the array at `pointer` in the JSON text `body`.
pub fn read_items(body: &str, pointer: &str) -> (items: Option<Vec<String>>)
    ensures
        items is Some <==> json_items(body@, pointer@) is Some,
        items matches Some(v) ==> v.deep_view() == json_items(body@, pointer@)->0,
{
    match value_at(body, pointer) {
        JsonValue::Items(items) => Some(items),
        _ => None,
    }
}

} // verus!
