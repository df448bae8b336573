//! Hashing and signature checks, computed by the host.

use vstd::prelude::*;
use crate::host::calls::{Host, HostCall, made_calls};
use crate::bytes::{zero_bytes, zeroed_array};
use crate::host::error_codes::{
    is_expected_bytes_answer, match_result_code_with_expected_bytes,
    spec_match_result_code_with_expected_bytes,
};
use crate::host::{Error, HostBindings};
use crate::types::public_key::PublicKey;

verus! {

/// The first half of the SHA-512 digest of `data`.
pub fn sha512_half<H: HostBindings>(host: &mut Host<H>, data: &[u8]) -> (r: Result<[u8; 32], Error>)
    requires
        forall|code: i32, w: Seq<u8>|
            #[trigger] old(host).bindings().sha512_half_answers(data@, zero_bytes(32), code, w)
                ==> is_expected_bytes_answer(code, 32),
    ensures
        made_calls(*old(host), *final(host), seq![HostCall::Sha512Half]),
        exists|code: i32, digest: [u8; 32]|
            #[trigger] old(host).bindings().sha512_half_answers(data@, zero_bytes(32), code, digest@) && r
                == spec_match_result_code_with_expected_bytes(code, 32, digest),
{
    let mut out = zeroed_array::<32>();
    let code = host.sha512_half(data, &mut out);
    match_result_code_with_expected_bytes(code, 32, out)
}

/// What [`signature_check_from_host_answer`] makes of the host's answer.
pub open spec fn spec_signature_answer(code: i32) -> Result<bool, Error> {
    if code == 0 {
        Ok(false)
    } else if code == 1 {
        Ok(true)
    } else {
        Err(Error::spec_from_code(code))
    }
}

/// Reads the host's answer to a signature check: 1 is valid, 0 is not, a negative code is the
/// host's error. The host answers nothing else.
pub fn signature_check_from_host_answer(code: i32) -> (r: Result<bool, Error>)
    requires
        code < 2,
    ensures
        r == spec_signature_answer(code),
{
    if code == 0 {
        Ok(false)
    } else if code == 1 {
        Ok(true)
    } else {
        Err(Error::from_code(code))
    }
}

/// Whether `sig` is a valid signature of `msg` by `key`.
pub fn check_sig<H: HostBindings>(host: &mut Host<H>, msg: &[u8], sig: &[u8], key: &PublicKey) -> (r: Result<
    bool,
    Error,
>)
    requires
        forall|code: i32| #[trigger] old(host).bindings().check_sig_answers(msg@, sig@, key.0@, code) ==> code < 2,
    ensures
        made_calls(*old(host), *final(host), seq![HostCall::CheckSig]),
        exists|code: i32|
            #[trigger] old(host).bindings().check_sig_answers(msg@, sig@, key.0@, code) && r == spec_signature_answer(
                code,
            ),
{
    let code = host.check_sig(msg, sig, &key.0);
    signature_check_from_host_answer(code)
}

} // verus!
