//! Field extraction from decoded JSON trees.
//!
//! Every numeric field of the wire format arrives as a JSON string. Strict
//! getters (depth, rune-pool, earnings payloads) demand the field present
//! and parsable; lenient getters (swap payloads) let an absent field, a
//! JSON null, or an empty string default to zero. Either way a present,
//! non-empty, malformed value fails the decode and names the field.

use vstd::prelude::*;

use crate::errors::DecErrV;
use crate::errors::DecodeError;
use crate::errors::TooLargeV;
use crate::errors::dec_res_view;
use crate::json::Json;
use crate::json::spec_get;
use crate::json::obj_find;
use crate::normalize::FixedDec;
use crate::normalize::dec_value;
use crate::normalize::fixed_of;
use crate::normalize::is_dec_string;
use crate::normalize::parse_fixed;
use crate::normalize::parse_magnitude;

verus! {

/// Strict magnitude: the field must be present as a decimal string whose
/// value fits 128 bits.
pub open spec fn spec_mag_strict(j: Json, key: Seq<char>) -> Result<u128, DecErrV> {
    match spec_get(j, key) {
        None => Err(DecErrV::Missing { field: key }),
        Some(v) => match v {
            Json::Str(t) => if is_dec_string(t@) && dec_value(t@) <= u128::MAX {
                Ok((dec_value(t@) as u128))
            } else {
                Err(DecErrV::Malformed { field: key, value: t@ })
            },
            _ => Err(DecErrV::NotString { field: key }),
        },
    }
}

/// Lenient magnitude: an absent field, a JSON null, or an empty string is
/// zero; a non-empty value is parsed as strictly as ever.
pub open spec fn spec_mag_lenient(j: Json, key: Seq<char>) -> Result<u128, DecErrV> {
    match spec_get(j, key) {
        None => Ok(0u128),
        Some(v) => match v {
            Json::Null => Ok(0u128),
            Json::Str(t) => if t@.len() == 0 {
                Ok(0u128)
            } else if is_dec_string(t@) && dec_value(t@) <= u128::MAX {
                Ok((dec_value(t@) as u128))
            } else {
                Err(DecErrV::Malformed { field: key, value: t@ })
            },
            _ => Err(DecErrV::NotString { field: key }),
        },
    }
}

/// Strict fractional field, as a fixed-precision decimal.
pub open spec fn spec_fixed_strict(j: Json, key: Seq<char>) -> Result<FixedDec, DecErrV> {
    match spec_get(j, key) {
        None => Err(DecErrV::Missing { field: key }),
        Some(v) => match v {
            Json::Str(t) => match fixed_of(t@) {
                Some(f) => Ok(f),
                None => Err(DecErrV::Malformed { field: key, value: t@ }),
            },
            _ => Err(DecErrV::NotString { field: key }),
        },
    }
}

/// Lenient fractional field: absent, null, or empty defaults to zero.
pub open spec fn spec_fixed_lenient(j: Json, key: Seq<char>) -> Result<FixedDec, DecErrV> {
    match spec_get(j, key) {
        None => Ok(FixedDec { scaled: 0 }),
        Some(v) => match v {
            Json::Null => Ok(FixedDec { scaled: 0 }),
            Json::Str(t) => if t@.len() == 0 {
                Ok(FixedDec { scaled: 0 })
            } else {
                match fixed_of(t@) {
                    Some(f) => Ok(f),
                    None => Err(DecErrV::Malformed { field: key, value: t@ }),
                }
            },
            _ => Err(DecErrV::NotString { field: key }),
        },
    }
}

/// A plain string field.
pub open spec fn spec_str_field(j: Json, key: Seq<char>) -> Result<String, DecErrV> {
    match spec_get(j, key) {
        None => Err(DecErrV::Missing { field: key }),
        Some(v) => match v {
            Json::Str(t) => Ok(t),
            _ => Err(DecErrV::NotString { field: key }),
        },
    }
}

/// An array-valued field, as the sequence of its elements.
pub open spec fn spec_arr_field(j: Json, key: Seq<char>) -> Result<Seq<Json>, DecErrV> {
    match spec_get(j, key) {
        None => Err(DecErrV::Missing { field: key }),
        Some(v) => match v {
            Json::Arr(a) => Ok(a@),
            _ => Err(DecErrV::NotArray { field: key }),
        },
    }
}

/// Prefixes already-decoded records onto the outcome of decoding the rest
/// of an array: an error downstream stays an error.
pub open spec fn prepend_res<T>(p: Seq<T>, r: Result<Seq<T>, DecErrV>) -> Result<
    Seq<T>,
    DecErrV,
> {
    match r {
        Ok(s) => Ok(p + s),
        Err(e) => Err(e),
    }
}

/// Law: strict-mode normalization of a decimal-string field is exact.
/// A field present as a non-empty digit string denoting at most
/// `i64::MAX` comes through as exactly that integer; one denoting more
/// (up to 128 bits) decodes, and then narrowing reports too-large with
/// the field's name and the offending value.
pub proof fn lemma_strict_normalization(j: Json, key: Seq<char>, t: String)
    requires
        spec_get(j, key) == Some(Json::Str(t)),
        is_dec_string(t@),
        dec_value(t@) <= u128::MAX,
    ensures
        spec_mag_strict(j, key) == Ok::<u128, DecErrV>((dec_value(t@) as u128)),
        dec_value(t@) <= i64::MAX ==> crate::normalize::spec_narrow((dec_value(t@) as u128), key)
            == Ok::<i64, TooLargeV>((dec_value(t@) as i64)),
        dec_value(t@) > i64::MAX ==> crate::normalize::spec_narrow((dec_value(t@) as u128), key)
            == Err::<i64, TooLargeV>(
            (TooLargeV { field: key, value: (dec_value(t@) as u128) }),
        ),
{
}

/// Law: lenient-mode normalization defaults exactly the empty cases to
/// zero — an absent field, a JSON null, or an empty string — for integer
/// and fractional fields alike; a present, non-empty, malformed value
/// still fails, naming the field and the value.
pub proof fn lemma_lenient_defaults(j: Json, key: Seq<char>)
    ensures
        spec_get(j, key) is None ==> spec_mag_lenient(j, key) == Ok::<u128, DecErrV>(0u128)
            && spec_fixed_lenient(j, key) == Ok::<FixedDec, DecErrV>((FixedDec { scaled: 0 })),
        spec_get(j, key) == Some(Json::Null) ==> spec_mag_lenient(j, key) == Ok::<u128, DecErrV>(
            0u128,
        ) && spec_fixed_lenient(j, key) == Ok::<FixedDec, DecErrV>((FixedDec { scaled: 0 })),
        match spec_get(j, key) {
            Some(Json::Str(t)) => {
                &&& t@.len() == 0 ==> spec_mag_lenient(j, key) == Ok::<u128, DecErrV>(0u128)
                    && spec_fixed_lenient(j, key) == Ok::<FixedDec, DecErrV>(
                    (FixedDec { scaled: 0 }),
                )
                &&& t@.len() > 0 && !is_dec_string(t@) ==> spec_mag_lenient(j, key) == Err::<
                    u128,
                    DecErrV,
                >((DecErrV::Malformed { field: key, value: t@ }))
            },
            _ => true,
        },
{
}

pub fn get_mag_strict(j: &Json, key: &str) -> (r: Result<u128, DecodeError>)
    ensures
        dec_res_view(r) == spec_mag_strict(*j, key@),
{
    match j {
        Json::Obj(fs) => match obj_find(fs, key) {
            Some(i) => match &fs[i].val {
                Json::Str(t) => match parse_magnitude(t.as_str()) {
                    Some(v) => Ok(v),
                    None => Err(
                        DecodeError::Malformed { field: key.to_owned(), value: t.clone() },
                    ),
                },
                _ => Err(DecodeError::NotString { field: key.to_owned() }),
            },
            None => Err(DecodeError::Missing { field: key.to_owned() }),
        },
        _ => Err(DecodeError::Missing { field: key.to_owned() }),
    }
}

pub fn get_mag_lenient(j: &Json, key: &str) -> (r: Result<u128, DecodeError>)
    ensures
        dec_res_view(r) == spec_mag_lenient(*j, key@),
{
    match j {
        Json::Obj(fs) => match obj_find(fs, key) {
            Some(i) => match &fs[i].val {
                Json::Null => Ok(0),
                Json::Str(t) => if t.as_str().is_empty() {
                    Ok(0)
                } else {
                    match parse_magnitude(t.as_str()) {
                        Some(v) => Ok(v),
                        None => Err(
                            DecodeError::Malformed { field: key.to_owned(), value: t.clone() },
                        ),
                    }
                },
                _ => Err(DecodeError::NotString { field: key.to_owned() }),
            },
            None => Ok(0),
        },
        _ => Ok(0),
    }
}

pub fn get_fixed_strict(j: &Json, key: &str) -> (r: Result<FixedDec, DecodeError>)
    ensures
        dec_res_view(r) == spec_fixed_strict(*j, key@),
{
    match j {
        Json::Obj(fs) => match obj_find(fs, key) {
            Some(i) => match &fs[i].val {
                Json::Str(t) => match parse_fixed(t.as_str()) {
                    Some(f) => Ok(f),
                    None => Err(
                        DecodeError::Malformed { field: key.to_owned(), value: t.clone() },
                    ),
                },
                _ => Err(DecodeError::NotString { field: key.to_owned() }),
            },
            None => Err(DecodeError::Missing { field: key.to_owned() }),
        },
        _ => Err(DecodeError::Missing { field: key.to_owned() }),
    }
}

pub fn get_fixed_lenient(j: &Json, key: &str) -> (r: Result<FixedDec, DecodeError>)
    ensures
        dec_res_view(r) == spec_fixed_lenient(*j, key@),
{
    match j {
        Json::Obj(fs) => match obj_find(fs, key) {
            Some(i) => match &fs[i].val {
                Json::Null => Ok(FixedDec { scaled: 0 }),
                Json::Str(t) => if t.as_str().is_empty() {
                    Ok(FixedDec { scaled: 0 })
                } else {
                    match parse_fixed(t.as_str()) {
                        Some(f) => Ok(f),
                        None => Err(
                            DecodeError::Malformed { field: key.to_owned(), value: t.clone() },
                        ),
                    }
                },
                _ => Err(DecodeError::NotString { field: key.to_owned() }),
            },
            None => Ok(FixedDec { scaled: 0 }),
        },
        _ => Ok(FixedDec { scaled: 0 }),
    }
}

pub fn get_str_field(j: &Json, key: &str) -> (r: Result<String, DecodeError>)
    ensures
        dec_res_view(r) == spec_str_field(*j, key@),
{
    match j {
        Json::Obj(fs) => match obj_find(fs, key) {
            Some(i) => match &fs[i].val {
                Json::Str(t) => Ok(t.clone()),
                _ => Err(DecodeError::NotString { field: key.to_owned() }),
            },
            None => Err(DecodeError::Missing { field: key.to_owned() }),
        },
        _ => Err(DecodeError::Missing { field: key.to_owned() }),
    }
}

pub fn get_arr_field<'a>(j: &'a Json, key: &str) -> (r: Result<&'a Vec<Json>, DecodeError>)
    ensures
        match (r, spec_arr_field(*j, key@)) {
            (Ok(a), Ok(sa)) => a@ == sa,
            (Err(e), Err(se)) => e@ == se,
            _ => false,
        },
{
    match j {
        Json::Obj(fs) => match obj_find(fs, key) {
            Some(i) => match &fs[i].val {
                Json::Arr(a) => Ok(a),
                _ => Err(DecodeError::NotArray { field: key.to_owned() }),
            },
            None => Err(DecodeError::Missing { field: key.to_owned() }),
        },
        _ => Err(DecodeError::Missing { field: key.to_owned() }),
    }
}

} // verus!
