//! Information about the ledger being built: its index, its parent's close time and hash, its
//! base fee, and whether an amendment is enabled.
//!
//! The host fills the buffer of each of these queries or answers an error; a query whose host
//! may answer otherwise is out of these functions' contracts.

use vstd::prelude::*;
use crate::host::calls::{Host, HostCall, made_calls};
use crate::bytes::{
    lemma_u32_from_le_roundtrip, lemma_u32_from_le_value, u32_from_le, u32_le, zero_bytes,
    zeroed_array,
};
use crate::host::error_codes::{
    is_expected_bytes_answer, match_result_code_with_expected_bytes,
    spec_match_result_code_with_expected_bytes,
};
use crate::host::{Error, HostBindings};

verus! {

/// What [`u32_from_host_answer`] makes of a result code and the four bytes the host filled.
pub open spec fn spec_u32_answer(code: i32, bytes: [u8; 4]) -> Result<u32, Error> {
    spec_match_result_code_with_expected_bytes(code, 4, u32_from_le(bytes@))
}

/// A four-byte ledger value the host writes in full (the ledger index, the parent close time,
/// the base fee) reads as the number its bytes spell little-endian: the value whose
/// little-endian bytes are exactly the bytes written, the first byte the least significant.
pub proof fn lemma_u32_answer_is_little_endian(bytes: [u8; 4])
    ensures
        spec_u32_answer(4, bytes) matches Ok(v) && u32_le(v) == bytes@ && v as int == bytes@[0]
            + 256 * bytes@[1] + 65536 * bytes@[2] + 16777216 * bytes@[3],
{
    lemma_u32_from_le_roundtrip(bytes@);
    lemma_u32_from_le_value(bytes@);
}

/// Reads the little-endian `u32` the host wrote, or its error.
pub fn u32_from_host_answer(code: i32, bytes: [u8; 4]) -> (r: Result<u32, Error>)
    requires
        is_expected_bytes_answer(code, 4),
    ensures
        r == spec_u32_answer(code, bytes),
        code == 4 ==> (r matches Ok(v) && u32_le(v) == bytes@),
{
    let value = ((bytes[0] as u32) | ((bytes[1] as u32) << 8u32) | ((bytes[2] as u32) << 16u32) | ((
    bytes[3] as u32) << 24u32)) as u32;
    proof {
        lemma_u32_answer_is_little_endian(bytes);
    }
    match_result_code_with_expected_bytes(code, 4, value)
}

/// The index of the ledger being built.
pub fn ledger_sqn<H: HostBindings>(host: &mut Host<H>) -> (r: Result<u32, Error>)
    requires
        forall|code: i32, w: Seq<u8>|
            #[trigger] old(host).bindings().ldgr_index_answers(zero_bytes(4), code, w) ==> is_expected_bytes_answer(
                code,
                4,
            ),
    ensures
        made_calls(*old(host), *final(host), seq![HostCall::LdgrIndex]),
        exists|code: i32, bytes: [u8; 4]|
            #[trigger] old(host).bindings().ldgr_index_answers(zero_bytes(4), code, bytes@) && r
                == spec_u32_answer(code, bytes) && (r matches Ok(v) ==> u32_le(v) == bytes@),
{
    let mut bytes = zeroed_array::<4>();
    let code = host.ldgr_index(&mut bytes);
    u32_from_host_answer(code, bytes)
}

/// The close time of the parent ledger.
pub fn parent_ledger_time<H: HostBindings>(host: &mut Host<H>) -> (r: Result<u32, Error>)
    requires
        forall|code: i32, w: Seq<u8>|
            #[trigger] old(host).bindings().parent_ldgr_time_answers(zero_bytes(4), code, w)
                ==> is_expected_bytes_answer(code, 4),
    ensures
        made_calls(*old(host), *final(host), seq![HostCall::ParentLdgrTime]),
        exists|code: i32, bytes: [u8; 4]|
            #[trigger] old(host).bindings().parent_ldgr_time_answers(zero_bytes(4), code, bytes@) && r
                == spec_u32_answer(code, bytes) && (r matches Ok(v) ==> u32_le(v) == bytes@),
{
    let mut bytes = zeroed_array::<4>();
    let code = host.parent_ldgr_time(&mut bytes);
    u32_from_host_answer(code, bytes)
}

/// The hash of the parent ledger.
pub fn parent_ledger_hash<H: HostBindings>(host: &mut Host<H>) -> (r: Result<[u8; 32], Error>)
    requires
        forall|code: i32, w: Seq<u8>|
            #[trigger] old(host).bindings().parent_ldgr_hash_answers(zero_bytes(32), code, w)
                ==> is_expected_bytes_answer(code, 32),
    ensures
        made_calls(*old(host), *final(host), seq![HostCall::ParentLdgrHash]),
        exists|code: i32, bytes: [u8; 32]|
            #[trigger] old(host).bindings().parent_ldgr_hash_answers(zero_bytes(32), code, bytes@) && r
                == spec_match_result_code_with_expected_bytes(code, 32, bytes),
{
    let mut bytes = zeroed_array::<32>();
    let code = host.parent_ldgr_hash(&mut bytes);
    match_result_code_with_expected_bytes(code, 32, bytes)
}

/// The base fee of the ledger being built.
pub fn base_fee<H: HostBindings>(host: &mut Host<H>) -> (r: Result<u32, Error>)
    requires
        forall|code: i32, w: Seq<u8>|
            #[trigger] old(host).bindings().base_fee_answers(zero_bytes(4), code, w) ==> is_expected_bytes_answer(
                code,
                4,
            ),
    ensures
        made_calls(*old(host), *final(host), seq![HostCall::BaseFee]),
        exists|code: i32, bytes: [u8; 4]|
            #[trigger] old(host).bindings().base_fee_answers(zero_bytes(4), code, bytes@) && r == spec_u32_answer(
                code,
                bytes,
            ) && (r matches Ok(v) ==> u32_le(v) == bytes@),
{
    let mut bytes = zeroed_array::<4>();
    let code = host.base_fee(&mut bytes);
    u32_from_host_answer(code, bytes)
}

/// What [`amendment_from_host_answer`] makes of the host's answer.
pub open spec fn spec_amendment_answer(code: i32) -> Result<bool, Error> {
    if code == 0 {
        Ok(false)
    } else if code == 1 {
        Ok(true)
    } else {
        Err(Error::spec_from_code(code))
    }
}

/// Reads the host's answer to an amendment query: 1 is enabled, 0 is not, and any other code
/// is an error.
pub fn amendment_from_host_answer(code: i32) -> (r: Result<bool, Error>)
    ensures
        r == spec_amendment_answer(code),
{
    if code == 0 {
        Ok(false)
    } else if code == 1 {
        Ok(true)
    } else {
        Err(Error::from_code(code))
    }
}

/// Whether the amendment with ID `hash` is enabled.
pub fn amendment_enabled<H: HostBindings>(host: &mut Host<H>, hash: &[u8; 32]) -> (r: Result<bool, Error>)
    ensures
        made_calls(*old(host), *final(host), seq![HostCall::AmendmentEnabled]),
        exists|code: i32|
            #[trigger] old(host).bindings().amendment_enabled_answers(hash@, code) && r == spec_amendment_answer(code),
{
    let code = host.amendment_enabled(hash);
    amendment_from_host_answer(code)
}

} // verus!
