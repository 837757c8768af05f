//! The view into a message's JSON text, drawn through `serde_json`.
//!
//! Each accessor parses the text and reads one field. What it returns
//! is a function of the text alone, so each accessor's result bears a
//! name, and the contracts of the collectors speak of those names.
use vstd::prelude::*;

verus! {

/// Whether `t` parses as JSON.
pub uninterp spec fn j_parses(t: Seq<char>) -> bool;

/// Whether the top-level object of `t` has the field `key`.
pub uninterp spec fn j_has(t: Seq<char>, key: Seq<char>) -> bool;

/// Whether the field `key` of the top-level object of `t` is itself an
/// object.
pub uninterp spec fn j_is_obj(t: Seq<char>, key: Seq<char>) -> bool;

/// Whether the object at `k1` of the top level of `t` has the field
/// `k2`.
pub uninterp spec fn j_has2(t: Seq<char>, k1: Seq<char>, k2: Seq<char>) -> bool;

/// The string at `key` of the top-level object of `t`, when there is
/// one.
pub uninterp spec fn j_str1(t: Seq<char>, key: Seq<char>) -> Option<Seq<char>>;

/// The string at `k2` inside the object at `k1` of `t`, when there is
/// one.
pub uninterp spec fn j_str2(t: Seq<char>, k1: Seq<char>, k2: Seq<char>) -> Option<Seq<char>>;

/// The integer at `k2` inside the object at `k1` of `t`, when that
/// field holds a number representable as an `i64`.
pub uninterp spec fn j_i64_2(t: Seq<char>, k1: Seq<char>, k2: Seq<char>) -> Option<i64>;

/// The length of the array at the top-level field `data` of `t`, when
/// that field holds an array.
pub uninterp spec fn j_data_len(t: Seq<char>) -> Option<int>;

/// The string at `key` of the `i`-th element of the `data` array of
/// `t`, when there is one.
pub uninterp spec fn j_elem_str(t: Seq<char>, i: int, key: Seq<char>) -> Option<Seq<char>>;

/// The length of the array at `key` of the `i`-th element of the
/// `data` array of `t`, when that field holds an array.
pub uninterp spec fn j_elem_arr_len(t: Seq<char>, i: int, key: Seq<char>) -> Option<int>;

/// The `k`-th price level under `key` of the `i`-th element of the
/// `data` array of `t`: its first two entries, when both are strings.
pub uninterp spec fn j_elem_pair(t: Seq<char>, i: int, key: Seq<char>, k: int)
    -> Option<(Seq<char>, Seq<char>)>;

/// Relies on `serde_json::from_str::<Value>`: whether the text is
/// well-formed JSON.
#[verifier::external_body]
pub(crate) fn json_parses(text: &str) -> (r: bool)
    ensures
        r == j_parses(text@),
{
    serde_json::from_str::<serde_json::Value>(text).is_ok()
}

/// Relies on `serde_json::from_str` and `Value::get`: whether the
/// top-level object has the field.
#[verifier::external_body]
pub(crate) fn json_has(text: &str, key: &str) -> (r: bool)
    ensures
        r == j_has(text@, key@),
{
    match serde_json::from_str::<serde_json::Value>(text) {
        Ok(v) => v.get(key).is_some(),
        Err(_) => false,
    }
}

/// Relies on `serde_json::from_str`, `Value::get` and
/// `Value::is_object`: whether the named top-level field is an object.
#[verifier::external_body]
pub(crate) fn json_is_obj(text: &str, key: &str) -> (r: bool)
    ensures
        r == j_is_obj(text@, key@),
{
    match serde_json::from_str::<serde_json::Value>(text) {
        Ok(v) => match v.get(key) {
            Some(d) => d.is_object(),
            None => false,
        },
        Err(_) => false,
    }
}

/// Relies on `serde_json::from_str` and `Value::get` twice: whether
/// the object at `k1` has the field `k2`.
#[verifier::external_body]
pub(crate) fn json_has2(text: &str, k1: &str, k2: &str) -> (r: bool)
    ensures
        r == j_has2(text@, k1@, k2@),
{
    serde_json::from_str::<serde_json::Value>(text)
        .ok()
        .and_then(|v| v.get(k1).and_then(|o| o.get(k2).map(|_| ())))
        .is_some()
}

/// Relies on `serde_json::from_str`, `Value::get` and `Value::as_str`:
/// the string at a top-level field.
#[verifier::external_body]
pub(crate) fn json_str1(text: &str, key: &str) -> (r: Option<String>)
    ensures
        r is Some <==> j_str1(text@, key@) is Some,
        r matches Some(s) ==> j_str1(text@, key@) == Some(s@),
{
    serde_json::from_str::<serde_json::Value>(text)
        .ok()
        .and_then(|v| v.get(key).and_then(|f| f.as_str()).map(|s| s.to_string()))
}

/// Relies on `serde_json::from_str`, `Value::get` and `Value::as_str`:
/// the string at a field nested one object down.
#[verifier::external_body]
pub(crate) fn json_str2(text: &str, k1: &str, k2: &str) -> (r: Option<String>)
    ensures
        r is Some <==> j_str2(text@, k1@, k2@) is Some,
        r matches Some(s) ==> j_str2(text@, k1@, k2@) == Some(s@),
{
    serde_json::from_str::<serde_json::Value>(text)
        .ok()
        .and_then(|v| v.get(k1).and_then(|o| o.get(k2)).and_then(|f| f.as_str()).map(|s| s.to_string()))
}

/// Relies on `serde_json::from_str`, `Value::get` and `Value::as_i64`:
/// the integer at a field nested one object down.
#[verifier::external_body]
pub(crate) fn json_i64_2(text: &str, k1: &str, k2: &str) -> (r: Option<i64>)
    ensures
        r == j_i64_2(text@, k1@, k2@),
{
    serde_json::from_str::<serde_json::Value>(text)
        .ok()
        .and_then(|v| v.get(k1).and_then(|o| o.get(k2)).and_then(|f| f.as_i64()))
}

/// Relies on `serde_json::from_str`, `Value::get`, `Value::as_array`
/// and `Vec::len`: how many elements the `data` array has.
#[verifier::external_body]
pub(crate) fn json_data_len(text: &str) -> (r: Option<usize>)
    ensures
        r is Some <==> j_data_len(text@) is Some,
        r matches Some(n) ==> j_data_len(text@) == Some(n as int),
{
    serde_json::from_str::<serde_json::Value>(text)
        .ok()
        .and_then(|v| v.get("data").and_then(|d| d.as_array()).map(|a| a.len()))
}

/// Relies on `serde_json::from_str`, `Value::get` (by key and by
/// index) and `Value::as_str`: the string at `key` of one element of
/// the `data` array.
#[verifier::external_body]
pub(crate) fn json_elem_str(text: &str, i: usize, key: &str) -> (r: Option<String>)
    ensures
        r is Some <==> j_elem_str(text@, i as int, key@) is Some,
        r matches Some(s) ==> j_elem_str(text@, i as int, key@) == Some(s@),
{
    serde_json::from_str::<serde_json::Value>(text)
        .ok()
        .and_then(|v| v.get("data").and_then(|d| d.get(i)).and_then(|e| e.get(key))
            .and_then(|f| f.as_str()).map(|s| s.to_string()))
}

/// Relies on `serde_json::from_str`, `Value::get`, `Value::as_array`
/// and `Vec::len`: how many levels the side `key` of one element of
/// the `data` array has.
#[verifier::external_body]
pub(crate) fn json_elem_arr_len(text: &str, i: usize, key: &str) -> (r: Option<usize>)
    ensures
        r is Some <==> j_elem_arr_len(text@, i as int, key@) is Some,
        r matches Some(n) ==> j_elem_arr_len(text@, i as int, key@) == Some(n as int),
{
    serde_json::from_str::<serde_json::Value>(text)
        .ok()
        .and_then(|v| v.get("data").and_then(|d| d.get(i)).and_then(|e| e.get(key))
            .and_then(|f| f.as_array()).map(|a| a.len()))
}

/// Relies on `serde_json::from_str`, `Value::get` (by key and by
/// index) and `Value::as_str`: the first two entries of one price
/// level, when both are strings.
#[verifier::external_body]
pub(crate) fn json_elem_pair(text: &str, i: usize, key: &str, k: usize)
    -> (r: Option<(String, String)>)
    ensures
        r is Some <==> j_elem_pair(text@, i as int, key@, k as int) is Some,
        r matches Some(p) ==> j_elem_pair(text@, i as int, key@, k as int)
            == Some((p.0@, p.1@)),
{
    serde_json::from_str::<serde_json::Value>(text)
        .ok()
        .and_then(|v| v.get("data").and_then(|d| d.get(i)).and_then(|e| e.get(key))
            .and_then(|s| s.get(k))
            .and_then(|l| match (l.get(0).and_then(|x| x.as_str()), l.get(1).and_then(|x| x.as_str())) {
                (Some(p), Some(q)) => Some((p.to_string(), q.to_string())),
                _ => None,
            }))
}

} // verus!
