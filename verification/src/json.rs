//! Trusted access to JSON documents.
//!
//! All JSON reading in this crate goes through the six queries below. Each
//! takes the document text and an RFC 6901 pointer, and returns a plain
//! value. What a query returns is a function of the two strings alone, so
//! each result is given a name: an uninterpreted spec function that the
//! query's contract equates the result with.

use vstd::prelude::*;

verus! {

/// The string value at `pointer` in `text`, if `text` is valid JSON and the
/// pointer resolves to a string.
pub uninterp spec fn json_string_at(text: Seq<char>, pointer: Seq<char>) -> Option<Seq<char>>;

/// The unsigned value at `pointer` in `text`, if it resolves to an integer
/// that fits in `u32`.
pub uninterp spec fn json_u32_at(text: Seq<char>, pointer: Seq<char>) -> Option<u32>;

/// The boolean value at `pointer` in `text`, if it resolves to a boolean.
pub uninterp spec fn json_bool_at(text: Seq<char>, pointer: Seq<char>) -> Option<bool>;

/// The keys of the object at `pointer` in `text`, in sorted order, if it
/// resolves to an object.
pub uninterp spec fn json_keys_at(text: Seq<char>, pointer: Seq<char>) -> Option<Seq<Seq<char>>>;

/// The length of the array at `pointer` in `text`, if it resolves to an
/// array.
pub uninterp spec fn json_array_len_at(text: Seq<char>, pointer: Seq<char>) -> Option<usize>;

/// Whether `pointer` resolves to a value other than `null` in `text`.
pub uninterp spec fn json_value_at(text: Seq<char>, pointer: Seq<char>) -> bool;

/// Ghost view of an optional list of owned strings.
pub open spec fn view_opt_strings(o: Option<Vec<String>>) -> Option<Seq<Seq<char>>> {
    match o {
        Some(v) => Some(v@.map_values(|s: String| s@)),
        None => None,
    }
}

/// Relies on serde_json::from_str, Value::pointer and Value::as_str: the
/// value found is a function of the document text and the pointer alone.
#[verifier::external_body]
pub(crate) fn get_string_at(text: &str, pointer: &str) -> (r: Option<String>)
    ensures
        crate::resource::view_opt_string(r) == json_string_at(text@, pointer@),
{
    let v: serde_json::Value = serde_json::from_str(text).ok()?;
    let s = v.pointer(pointer)?.as_str()?;
    Some(s.to_owned())
}

/// Relies on serde_json::from_str, Value::pointer and Value::as_u64: the
/// value found is a function of the document text and the pointer alone.
#[verifier::external_body]
pub(crate) fn get_u32_at(text: &str, pointer: &str) -> (r: Option<u32>)
    ensures
        r == json_u32_at(text@, pointer@),
{
    let v: serde_json::Value = serde_json::from_str(text).ok()?;
    let n = v.pointer(pointer)?.as_u64()?;
    u32::try_from(n).ok()
}

/// Relies on serde_json::from_str, Value::pointer and Value::as_bool: the
/// value found is a function of the document text and the pointer alone.
#[verifier::external_body]
pub(crate) fn get_bool_at(text: &str, pointer: &str) -> (r: Option<bool>)
    ensures
        r == json_bool_at(text@, pointer@),
{
    let v: serde_json::Value = serde_json::from_str(text).ok()?;
    v.pointer(pointer)?.as_bool()
}

/// Relies on serde_json::from_str, Value::pointer and Value::as_object:
/// serde_json's maps are ordered by key, so the key list is a function of
/// the document text and the pointer alone.
#[verifier::external_body]
pub(crate) fn get_keys_at(text: &str, pointer: &str) -> (r: Option<Vec<String>>)
    ensures
        view_opt_strings(r) == json_keys_at(text@, pointer@),
{
    let v: serde_json::Value = serde_json::from_str(text).ok()?;
    let obj = v.pointer(pointer)?.as_object()?;
    Some(obj.keys().cloned().collect())
}

/// Relies on serde_json::from_str, Value::pointer and Value::as_array: the
/// length found is a function of the document text and the pointer alone.
#[verifier::external_body]
pub(crate) fn get_array_len_at(text: &str, pointer: &str) -> (r: Option<usize>)
    ensures
        r == json_array_len_at(text@, pointer@),
{
    let v: serde_json::Value = serde_json::from_str(text).ok()?;
    let arr = v.pointer(pointer)?.as_array()?;
    Some(arr.len())
}

/// Relies on serde_json::from_str, Value::pointer and Value::is_null:
/// whether a non-null value sits at the pointer is a function of the
/// document text and the pointer alone.
#[verifier::external_body]
pub(crate) fn has_value_at(text: &str, pointer: &str) -> (r: bool)
    ensures
        r == json_value_at(text@, pointer@),
{
    match serde_json::from_str::<serde_json::Value>(text) {
        Ok(v) => match v.pointer(pointer) {
            Some(x) => !x.is_null(),
            None => false,
        },
        Err(_) => false,
    }
}

} // verus!
