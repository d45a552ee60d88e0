//! The model of a parsed configuration document: a tree of plain values.
//!
//! The configuration text is parsed by the `json` crate; the parsed tree is
//! converted, behind a trusted boundary, into [`JsonData`], whose leaves are
//! plain values the verifier can reason about. A numeric leaf keeps no value:
//! the option model deliberately rejects numbers, so nothing ever reads one.

use vstd::prelude::*;

verus! {

/// A parsed configuration tree. Each object node carries, beside its entries
/// in document order, the serialized text of the whole node, because lookups
/// project object values to their serialized form.
#[derive(Debug)]
pub enum JsonData {
    Null,
    Boolean(bool),
    Number,
    Text(String),
    Object(Vec<(String, JsonData)>, String),
    Array(Vec<JsonData>),
}

/// The `json` crate's parsed value, opaque here: only the trusted conversion
/// below looks inside one.
#[verifier::external_type_specification]
#[verifier::external_body]
pub struct ExJsonValue(json::JsonValue);

/// The tree that the configuration text parses to, or `None` when the text is
/// not well-formed. Parsing is a function of the text alone.
pub uninterp spec fn json_of(text: Seq<char>) -> Option<JsonData>;

/// Relies on `json::parse`: turns a configuration text into its parsed tree,
/// a function of the text alone; a malformed text yields no tree.
#[verifier::external_body]
pub fn parse_json_text(text: &str) -> (r: Option<JsonData>)
    ensures
        r == json_of(text@),
{
    match json::parse(text) {
        Ok(value) => Some(from_json_value(&value)),
        Err(_) => None,
    }
}

/// Relies on `json::JsonValue`'s variants, `Short::as_str` and `Object::dump`:
/// converts a parsed node to the model, one arm per variant, keeping entry
/// order and recording each object node's serialized text.
#[verifier::external_body]
fn from_json_value(value: &json::JsonValue) -> (r: JsonData)
{
    match value {
        json::JsonValue::Null => JsonData::Null,
        json::JsonValue::Boolean(b) => JsonData::Boolean(*b),
        json::JsonValue::Number(_) => JsonData::Number,
        json::JsonValue::Short(s) => JsonData::Text(s.as_str().to_string()),
        json::JsonValue::String(s) => JsonData::Text(s.clone()),
        json::JsonValue::Object(o) => JsonData::Object(
            o.iter().map(|(k, v)| (k.to_string(), from_json_value(v))).collect(),
            o.dump(),
        ),
        json::JsonValue::Array(a) => JsonData::Array(a.iter().map(from_json_value).collect()),
    }
}

/// Holds when no numeric leaf stands anywhere in the tree. The option model
/// cannot represent numbers, so a lookup into a subtree with one must not be
/// asked for.
pub open spec fn no_numbers(value: JsonData) -> bool
    decreases value,
{
    match value {
        JsonData::Number => false,
        JsonData::Array(elems) => forall|i: int|
            0 <= i < elems@.len() ==> no_numbers(#[trigger] elems@[i]),
        JsonData::Object(entries, _) => forall|i: int|
            0 <= i < entries@.len() ==> no_numbers(#[trigger] entries@[i].1),
        _ => true,
    }
}

/// Whether the tree is free of numeric leaves; the executable side of
/// [`no_numbers`].
#[verifier::loop_isolation(false)]
pub fn check_no_numbers(value: &JsonData) -> (r: bool)
    ensures
        r == no_numbers(*value),
    decreases *value,
{
    match value {
        JsonData::Number => false,
        JsonData::Array(elems) => {
            let mut i: usize = 0;
            let mut ok: bool = true;
            while i < elems.len() && ok
                invariant
                    0 <= i <= elems@.len(),
                    ok == forall|j: int| 0 <= j < i ==> no_numbers(#[trigger] elems@[j]),
                decreases elems@.len() - i,
            {
                proof {
                    assert(decreases_to!(*value => *elems));
                    assert(decreases_to!(*elems => elems@));
                    assert(decreases_to!(elems@ => elems@[i as int]));
                }
                ok = check_no_numbers(&elems[i]);
                i = i + 1;
            }
            ok
        },
        JsonData::Object(entries, _) => {
            let mut i: usize = 0;
            let mut ok: bool = true;
            while i < entries.len() && ok
                invariant
                    0 <= i <= entries@.len(),
                    ok == forall|j: int| 0 <= j < i ==> no_numbers(#[trigger] entries@[j].1),
                decreases entries@.len() - i,
            {
                proof {
                    assert(decreases_to!(*value => *entries));
                    assert(decreases_to!(*entries => entries@));
                    assert(decreases_to!(entries@ => entries@[i as int]));
                    assert(decreases_to!(entries@[i as int] => entries@[i as int].1));
                }
                ok = check_no_numbers(&entries[i].1);
                i = i + 1;
            }
            ok
        },
        _ => true,
    }
}

} // verus!
