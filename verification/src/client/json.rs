//! What the library knows of a JSON value.
//!
//! A [`serde_json::Value`] is opaque to the verifier. What the codec reads
//! from one is named here, and the functions of `serde_json` that build or
//! read one are given contracts over those names. None of these contracts
//! is proved: each states what the source of `serde_json` shows.
use vstd::prelude::*;

verus! {

/// `serde_json::Value`, carried through as it is: nothing inside a value is
/// visible to the verifier.
#[verifier::external_type_specification]
#[verifier::external_body]
pub struct ExJsonValue(serde_json::Value);

/// What `Value::as_array` gives for `v`: the elements of `v` if it is an
/// array.
pub uninterp spec fn json_items(v: serde_json::Value) -> Option<Seq<serde_json::Value>>;

/// What `Value::as_u64` gives for `v`: `v` read as an unsigned integer,
/// defined for a non-negative integer number that fits in 64 bits.
pub uninterp spec fn json_u64(v: serde_json::Value) -> Option<u64>;

/// What `Value::as_i64` gives for `v`: `v` read as a signed integer,
/// defined for an integer number that fits in 64 bits with sign.
pub uninterp spec fn json_i64(v: serde_json::Value) -> Option<i64>;

/// What `Value::as_bool` gives for `v`: `v` read as a boolean, defined for
/// `true` and `false`.
pub uninterp spec fn json_bool(v: serde_json::Value) -> Option<bool>;

/// What `Value::as_str` gives for `v`: `v` read as a string, defined for a
/// JSON string.
pub uninterp spec fn json_text(v: serde_json::Value) -> Option<Seq<char>>;

/// `Value::as_array`: the elements of an array, nothing for any other value.
pub assume_specification<'a>[ serde_json::Value::as_array ](v: &'a serde_json::Value) -> (r: Option<
    &'a Vec<serde_json::Value>,
>)
    ensures
        match r {
            Some(items) => json_items(*v) == Some(items@),
            None => json_items(*v).is_none(),
        },
;

/// `Value::as_u64`: the number if the value is a non-negative integer.
pub assume_specification[ serde_json::Value::as_u64 ](v: &serde_json::Value) -> (r: Option<u64>)
    ensures
        r == json_u64(*v),
;

/// `Value::as_i64`: the number if the value is an integer within `i64`.
pub assume_specification[ serde_json::Value::as_i64 ](v: &serde_json::Value) -> (r: Option<i64>)
    ensures
        r == json_i64(*v),
;

/// `Value::as_bool`: the boolean if the value is one.
pub assume_specification[ serde_json::Value::as_bool ](v: &serde_json::Value) -> (r: Option<bool>)
    ensures
        r == json_bool(*v),
;

/// `Value::as_str`: the text if the value is a string.
pub assume_specification<'a>[ serde_json::Value::as_str ](v: &'a serde_json::Value) -> (r: Option<
    &'a str,
>)
    ensures
        match r {
            Some(s) => json_text(*v) == Some(s@),
            None => json_text(*v).is_none(),
        },
;

/// `Value::clone`: an equal value.
pub assume_specification[ <serde_json::Value as Clone>::clone ](
    v: &serde_json::Value,
) -> (r: serde_json::Value)
    ensures
        r == *v,
;

/// `serde_json::to_value` on a vector of unsigned integers: an array of the
/// same length whose elements read back as those numbers, in order. Such a
/// vector always serialises.
#[verifier::external_body]
pub(crate) fn json_of_unsigned(v: &Vec<u64>) -> (r: serde_json::Value)
    ensures
        json_items(r).is_some(),
        json_items(r).unwrap().len() == v@.len(),
        forall|i: int|
            0 <= i < v@.len() ==> json_u64(#[trigger] json_items(r).unwrap()[i]) == Some(v@[i]),
{
    serde_json::to_value(v).unwrap_or(serde_json::Value::Null)
}

/// `serde_json::to_value` on a vector of signed integers: an array of the
/// same length whose elements read back as those numbers, in order. Such a
/// vector always serialises.
#[verifier::external_body]
pub(crate) fn json_of_signed(v: &Vec<i64>) -> (r: serde_json::Value)
    ensures
        json_items(r).is_some(),
        json_items(r).unwrap().len() == v@.len(),
        forall|i: int|
            0 <= i < v@.len() ==> json_i64(#[trigger] json_items(r).unwrap()[i]) == Some(v@[i]),
{
    serde_json::to_value(v).unwrap_or(serde_json::Value::Null)
}

/// `serde_json::to_value` on a vector of booleans: an array of the same
/// length whose elements read back as those booleans, in order. Such a
/// vector always serialises.
#[verifier::external_body]
pub(crate) fn json_of_bools(v: &Vec<bool>) -> (r: serde_json::Value)
    ensures
        json_items(r).is_some(),
        json_items(r).unwrap().len() == v@.len(),
        forall|i: int|
            0 <= i < v@.len() ==> json_bool(#[trigger] json_items(r).unwrap()[i]) == Some(v@[i]),
{
    serde_json::to_value(v).unwrap_or(serde_json::Value::Null)
}

/// `serde_json::to_value` on a vector of strings: an array of the same
/// length whose elements read back as those strings, in order. Such a
/// vector always serialises.
#[verifier::external_body]
pub(crate) fn json_of_texts(v: &Vec<String>) -> (r: serde_json::Value)
    ensures
        json_items(r).is_some(),
        json_items(r).unwrap().len() == v@.len(),
        forall|i: int|
            0 <= i < v@.len() ==> json_text(#[trigger] json_items(r).unwrap()[i]) == Some(v@[i]@),
{
    serde_json::to_value(v).unwrap_or(serde_json::Value::Null)
}

} // verus!
