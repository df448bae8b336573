//! The negative result codes the host returns, and the helpers that turn a raw result code into a
//! `Result`.

use vstd::prelude::*;
use crate::host::Error;

verus! {

pub const INTERNAL_ERROR: i32 = -1;
pub const FIELD_NOT_FOUND: i32 = -2;
pub const BUFFER_TOO_SMALL: i32 = -3;
pub const NO_ARRAY: i32 = -4;
pub const NOT_LEAF_FIELD: i32 = -5;
pub const LOCATOR_MALFORMED: i32 = -6;
pub const SLOT_OUT_RANGE: i32 = -7;
pub const SLOTS_FULL: i32 = -8;
pub const EMPTY_SLOT: i32 = -9;
pub const LEDGER_OBJ_NOT_FOUND: i32 = -10;
pub const INVALID_DECODING: i32 = -11;
pub const DATA_FIELD_TOO_LARGE: i32 = -12;
pub const POINTER_OUT_OF_BOUNDS: i32 = -13;
pub const NO_MEM_EXPORTED: i32 = -14;
pub const INVALID_PARAMS: i32 = -15;
pub const INVALID_ACCOUNT: i32 = -16;
pub const INVALID_FIELD: i32 = -17;
pub const INDEX_OUT_OF_BOUNDS: i32 = -18;
pub const FLOAT_INPUT_MALFORMED: i32 = -19;
pub const FLOAT_COMPUTATION_ERROR: i32 = -20;

/// What [`match_result_code`] makes of a result code: a negative code is the host's error, any
/// other code is success.
pub open spec fn spec_match_result_code<T>(code: i32, value: T) -> Result<T, Error> {
    if code < 0 {
        Err(Error::spec_from_code(code))
    } else {
        Ok(value)
    }
}

/// Turns a host result code into `Ok(value)` for a non-negative code and into the host's error
/// for a negative one.
pub fn match_result_code<T>(code: i32, value: T) -> (r: Result<T, Error>)
    ensures
        r == spec_match_result_code(code, value),
{
    if code < 0 {
        Err(Error::from_code(code))
    } else {
        Ok(value)
    }
}

/// What [`match_result_code_optional`] makes of a result code: `FIELD_NOT_FOUND` is an absent
/// value, any other negative code the host's error.
pub open spec fn spec_match_result_code_optional<T>(code: i32, value: Option<T>) -> Result<
    Option<T>,
    Error,
> {
    if code == FIELD_NOT_FOUND {
        Ok(None)
    } else if code < 0 {
        Err(Error::spec_from_code(code))
    } else {
        Ok(value)
    }
}

/// Like [`match_result_code`], but reports `FIELD_NOT_FOUND` as `Ok(None)`.
pub fn match_result_code_optional<T>(code: i32, value: Option<T>) -> (r: Result<
    Option<T>,
    Error,
>)
    ensures
        r == spec_match_result_code_optional(code, value),
{
    if code == FIELD_NOT_FOUND {
        Ok(None)
    } else if code < 0 {
        Err(Error::from_code(code))
    } else {
        Ok(value)
    }
}

/// Whether `code` is an answer a host call that must write exactly `expected` bytes can give: an
/// error, or the full count. Any other count means the host broke its interface.
pub open spec fn is_expected_bytes_answer(code: i32, expected: usize) -> bool {
    code < 0 || code as int == expected as int
}

/// What [`match_result_code_with_expected_bytes`] makes of a result code.
pub open spec fn spec_match_result_code_with_expected_bytes<T>(
    code: i32,
    expected: usize,
    value: T,
) -> Result<T, Error> {
    if code < 0 {
        Err(Error::spec_from_code(code))
    } else {
        Ok(value)
    }
}

/// Turns the result code of a host call that must write exactly `expected` bytes into a
/// `Result`.
pub fn match_result_code_with_expected_bytes<T>(code: i32, expected: usize, value: T) -> (r:
    Result<T, Error>)
    requires
        is_expected_bytes_answer(code, expected),
    ensures
        r == spec_match_result_code_with_expected_bytes(code, expected, value),
{
    if code < 0 {
        Err(Error::from_code(code))
    } else {
        Ok(value)
    }
}

/// What [`match_result_code_with_expected_bytes_optional`] makes of a result code.
pub open spec fn spec_match_result_code_with_expected_bytes_optional<T>(
    code: i32,
    expected: usize,
    value: Option<T>,
) -> Result<Option<T>, Error> {
    if code == FIELD_NOT_FOUND {
        Ok(None)
    } else {
        spec_match_result_code_with_expected_bytes(code, expected, value)
    }
}

/// Like [`match_result_code_with_expected_bytes`], but reports `FIELD_NOT_FOUND` as `Ok(None)`.
pub fn match_result_code_with_expected_bytes_optional<T>(
    code: i32,
    expected: usize,
    value: Option<T>,
) -> (r: Result<Option<T>, Error>)
    requires
        is_expected_bytes_answer(code, expected),
    ensures
        r == spec_match_result_code_with_expected_bytes_optional(code, expected, value),
{
    if code == FIELD_NOT_FOUND {
        Ok(None)
    } else {
        match_result_code_with_expected_bytes(code, expected, value)
    }
}

} // verus!
