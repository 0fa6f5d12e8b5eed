//! Field readers shared by every typed payload decoder.
//!
//! Each payload type owns its field-presence contract; these readers are
//! the vocabulary those contracts are written in. A mandatory field must
//! be present with the expected shape; an optional field may be absent
//! or null, and then reads as absent — never as a default standing in
//! for missing telemetry.

use vstd::prelude::*;
use crate::error::DecodeError;
use crate::json::{get_field, spec_field, spec_int_of, JsonNumber, JsonValue, JsonView};

verus! {

/// The character content of a string value.
pub open spec fn spec_str_of(w: JsonView) -> Option<Seq<char>> {
    match w {
        JsonView::Str(s) => Some(s),
        _ => None,
    }
}

/// The token of a number value.
pub open spec fn spec_num_of(w: JsonView) -> Option<Seq<char>> {
    match w {
        JsonView::Num(t) => Some(t),
        _ => None,
    }
}

/// The token of a number value, with null reading as absent.
pub open spec fn spec_opt_num_of(w: JsonView) -> Option<Option<Seq<char>>> {
    match w {
        JsonView::Num(t) => Some(Some(t)),
        JsonView::Null => Some(None),
        _ => None,
    }
}

/// A mandatory string field.
pub open spec fn spec_req_str(v: JsonView, key: Seq<char>) -> Option<Seq<char>> {
    match spec_field(v, key) {
        Some(w) => spec_str_of(w),
        None => None,
    }
}

/// A mandatory number field, as its token.
pub open spec fn spec_req_num(v: JsonView, key: Seq<char>) -> Option<Seq<char>> {
    match spec_field(v, key) {
        Some(w) => spec_num_of(w),
        None => None,
    }
}

/// An optional number field: absent or null reads as absent.
pub open spec fn spec_opt_num(v: JsonView, key: Seq<char>) -> Option<Option<Seq<char>>> {
    match spec_field(v, key) {
        None => Some(None),
        Some(JsonView::Null) => Some(None),
        Some(JsonView::Num(t)) => Some(Some(t)),
        Some(_) => None,
    }
}

/// An optional string field: absent or null reads as absent.
pub open spec fn spec_opt_str(v: JsonView, key: Seq<char>) -> Option<Option<Seq<char>>> {
    match spec_field(v, key) {
        None => Some(None),
        Some(JsonView::Null) => Some(None),
        Some(JsonView::Str(s)) => Some(Some(s)),
        Some(_) => None,
    }
}

/// An optional boolean field: absent or null reads as absent.
pub open spec fn spec_opt_bool(v: JsonView, key: Seq<char>) -> Option<Option<bool>> {
    match spec_field(v, key) {
        None => Some(None),
        Some(JsonView::Null) => Some(None),
        Some(JsonView::Bool(b)) => Some(Some(b)),
        Some(_) => None,
    }
}

/// The value of an integer token within the given bounds.
pub open spec fn spec_int_in(t: Seq<char>, lo: int, hi: int) -> Option<int> {
    match spec_int_of(t) {
        Some(n) => if lo <= n <= hi {
            Some(n)
        } else {
            None
        },
        None => None,
    }
}

/// A mandatory integer field read as `u64`.
pub open spec fn spec_req_u64(v: JsonView, key: Seq<char>) -> Option<u64> {
    match spec_req_num(v, key) {
        Some(t) => match spec_int_in(t, 0, u64::MAX as int) {
            Some(n) => Some(n as u64),
            None => None,
        },
        None => None,
    }
}

/// A mandatory integer field read as `i64`.
pub open spec fn spec_req_i64(v: JsonView, key: Seq<char>) -> Option<i64> {
    match spec_req_num(v, key) {
        Some(t) => match spec_int_in(t, i64::MIN as int, i64::MAX as int) {
            Some(n) => Some(n as i64),
            None => None,
        },
        None => None,
    }
}

/// A mandatory integer field read as `u8`.
pub open spec fn spec_req_u8(v: JsonView, key: Seq<char>) -> Option<u8> {
    match spec_req_num(v, key) {
        Some(t) => match spec_int_in(t, 0, u8::MAX as int) {
            Some(n) => Some(n as u8),
            None => None,
        },
        None => None,
    }
}

/// An optional integer field read as `i64`.
pub open spec fn spec_opt_i64(v: JsonView, key: Seq<char>) -> Option<Option<i64>> {
    match spec_opt_num(v, key) {
        Some(None) => Some(None),
        Some(Some(t)) => match spec_int_in(t, i64::MIN as int, i64::MAX as int) {
            Some(n) => Some(Some(n as i64)),
            None => None,
        },
        None => None,
    }
}

/// An optional integer field read as `u64`.
pub open spec fn spec_opt_u64(v: JsonView, key: Seq<char>) -> Option<Option<u64>> {
    match spec_opt_num(v, key) {
        Some(None) => Some(None),
        Some(Some(t)) => match spec_int_in(t, 0, u64::MAX as int) {
            Some(n) => Some(Some(n as u64)),
            None => None,
        },
        None => None,
    }
}

/// An optional integer field read as `u32`.
pub open spec fn spec_opt_u32(v: JsonView, key: Seq<char>) -> Option<Option<u32>> {
    match spec_opt_num(v, key) {
        Some(None) => Some(None),
        Some(Some(t)) => match spec_int_in(t, 0, u32::MAX as int) {
            Some(n) => Some(Some(n as u32)),
            None => None,
        },
        None => None,
    }
}

/// An optional integer field read as `u8`.
pub open spec fn spec_opt_u8(v: JsonView, key: Seq<char>) -> Option<Option<u8>> {
    match spec_opt_num(v, key) {
        Some(None) => Some(None),
        Some(Some(t)) => match spec_int_in(t, 0, u8::MAX as int) {
            Some(n) => Some(Some(n as u8)),
            None => None,
        },
        None => None,
    }
}

/// View of an optionally absent string.
pub open spec fn opt_str_view(o: Option<String>) -> Option<Seq<char>> {
    match o {
        Some(s) => Some(s@),
        None => None,
    }
}

/// Reads a mandatory string field.
pub fn req_str(v: &JsonValue, key: &str) -> (r: Result<String, DecodeError>)
    ensures
        match r {
            Ok(s) => spec_req_str(v@, key@) == Some(s@),
            Err(_) => spec_req_str(v@, key@) is None,
        },
{
    match get_field(v, key) {
        Some(JsonValue::Str(s)) => Ok(s.clone()),
        Some(_) => Err(DecodeError::WrongType { field: key.to_owned() }),
        None => Err(DecodeError::MissingField { field: key.to_owned() }),
    }
}

/// Reads a mandatory number field.
pub fn req_num(v: &JsonValue, key: &str) -> (r: Result<JsonNumber, DecodeError>)
    ensures
        match r {
            Ok(num) => spec_req_num(v@, key@) == Some(num@),
            Err(_) => spec_req_num(v@, key@) is None,
        },
{
    match get_field(v, key) {
        Some(JsonValue::Num(num)) => Ok(num.clone()),
        Some(_) => Err(DecodeError::WrongType { field: key.to_owned() }),
        None => Err(DecodeError::MissingField { field: key.to_owned() }),
    }
}

/// Reads an optional number field.
pub fn opt_num(v: &JsonValue, key: &str) -> (r: Result<Option<JsonNumber>, DecodeError>)
    ensures
        match r {
            Ok(Some(num)) => spec_opt_num(v@, key@) == Some(Some(num@)),
            Ok(None) => spec_opt_num(v@, key@) == Some(None::<Seq<char>>),
            Err(_) => spec_opt_num(v@, key@) is None,
        },
{
    match get_field(v, key) {
        None => Ok(None),
        Some(JsonValue::Null) => Ok(None),
        Some(JsonValue::Num(num)) => Ok(Some(num.clone())),
        Some(_) => Err(DecodeError::WrongType { field: key.to_owned() }),
    }
}

/// Reads an optional string field.
pub fn opt_str(v: &JsonValue, key: &str) -> (r: Result<Option<String>, DecodeError>)
    ensures
        match r {
            Ok(Some(s)) => spec_opt_str(v@, key@) == Some(Some(s@)),
            Ok(None) => spec_opt_str(v@, key@) == Some(None::<Seq<char>>),
            Err(_) => spec_opt_str(v@, key@) is None,
        },
{
    match get_field(v, key) {
        None => Ok(None),
        Some(JsonValue::Null) => Ok(None),
        Some(JsonValue::Str(s)) => Ok(Some(s.clone())),
        Some(_) => Err(DecodeError::WrongType { field: key.to_owned() }),
    }
}

/// Reads an optional boolean field.
pub fn opt_bool(v: &JsonValue, key: &str) -> (r: Result<Option<bool>, DecodeError>)
    ensures
        match r {
            Ok(ob) => spec_opt_bool(v@, key@) == Some(ob),
            Err(_) => spec_opt_bool(v@, key@) is None,
        },
{
    match get_field(v, key) {
        None => Ok(None),
        Some(JsonValue::Null) => Ok(None),
        Some(JsonValue::Bool(b)) => Ok(Some(*b)),
        Some(_) => Err(DecodeError::WrongType { field: key.to_owned() }),
    }
}

/// Reads a mandatory integer field as `u64`.
pub fn req_u64(v: &JsonValue, key: &str) -> (r: Result<u64, DecodeError>)
    ensures
        match r {
            Ok(x) => spec_req_u64(v@, key@) == Some(x),
            Err(_) => spec_req_u64(v@, key@) is None,
        },
{
    let num = req_num(v, key)?;
    match num.as_u64() {
        Some(x) => Ok(x),
        None => Err(DecodeError::WrongType { field: key.to_owned() }),
    }
}

/// Reads a mandatory integer field as `i64`.
pub fn req_i64(v: &JsonValue, key: &str) -> (r: Result<i64, DecodeError>)
    ensures
        match r {
            Ok(x) => spec_req_i64(v@, key@) == Some(x),
            Err(_) => spec_req_i64(v@, key@) is None,
        },
{
    let num = req_num(v, key)?;
    match num.as_i64() {
        Some(x) => Ok(x),
        None => Err(DecodeError::WrongType { field: key.to_owned() }),
    }
}

/// Reads a mandatory integer field as `u8`.
pub fn req_u8(v: &JsonValue, key: &str) -> (r: Result<u8, DecodeError>)
    ensures
        match r {
            Ok(x) => spec_req_u8(v@, key@) == Some(x),
            Err(_) => spec_req_u8(v@, key@) is None,
        },
{
    let num = req_num(v, key)?;
    match num.as_u8() {
        Some(x) => Ok(x),
        None => Err(DecodeError::WrongType { field: key.to_owned() }),
    }
}

/// Reads an optional integer field as `i64`.
pub fn opt_i64(v: &JsonValue, key: &str) -> (r: Result<Option<i64>, DecodeError>)
    ensures
        match r {
            Ok(ox) => spec_opt_i64(v@, key@) == Some(ox),
            Err(_) => spec_opt_i64(v@, key@) is None,
        },
{
    match opt_num(v, key)? {
        None => Ok(None),
        Some(num) => match num.as_i64() {
            Some(x) => Ok(Some(x)),
            None => Err(DecodeError::WrongType { field: key.to_owned() }),
        },
    }
}

/// Reads an optional integer field as `u64`.
pub fn opt_u64(v: &JsonValue, key: &str) -> (r: Result<Option<u64>, DecodeError>)
    ensures
        match r {
            Ok(ox) => spec_opt_u64(v@, key@) == Some(ox),
            Err(_) => spec_opt_u64(v@, key@) is None,
        },
{
    match opt_num(v, key)? {
        None => Ok(None),
        Some(num) => match num.as_u64() {
            Some(x) => Ok(Some(x)),
            None => Err(DecodeError::WrongType { field: key.to_owned() }),
        },
    }
}

/// Reads an optional integer field as `u32`.
pub fn opt_u32(v: &JsonValue, key: &str) -> (r: Result<Option<u32>, DecodeError>)
    ensures
        match r {
            Ok(ox) => spec_opt_u32(v@, key@) == Some(ox),
            Err(_) => spec_opt_u32(v@, key@) is None,
        },
{
    match opt_num(v, key)? {
        None => Ok(None),
        Some(num) => match num.as_u32() {
            Some(x) => Ok(Some(x)),
            None => Err(DecodeError::WrongType { field: key.to_owned() }),
        },
    }
}

/// Reads an optional integer field as `u8`.
pub fn opt_u8(v: &JsonValue, key: &str) -> (r: Result<Option<u8>, DecodeError>)
    ensures
        match r {
            Ok(ox) => spec_opt_u8(v@, key@) == Some(ox),
            Err(_) => spec_opt_u8(v@, key@) is None,
        },
{
    match opt_num(v, key)? {
        None => Ok(None),
        Some(num) => match num.as_u8() {
            Some(x) => Ok(Some(x)),
            None => Err(DecodeError::WrongType { field: key.to_owned() }),
        },
    }
}

} // verus!
