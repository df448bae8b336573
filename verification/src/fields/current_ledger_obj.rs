//! Typed reads of top-level fields of the current ledger object (the one the contract is
//! attached to), with no slot.
//!
//! - **Required** (`get_field`): a missing field is an error.
//! - **Optional** (`get_field_optional`): a missing field is `Ok(None)`.
//!
//! The `get_blob_field` variants read a variable-length field into a [`Blob`]; the `raw`
//! variants read a field whose serialized type has no Rust counterpart as raw bytes.
//!
//! What the host answers is not known here: the contract of each read says which field was asked
//! for, into how large a zeroed buffer, and that the result is what [`decode_result`] makes of
//! some answer of the host to that call. That the host writes no byte past the count it returns
//! is an assumption about the host, stated on `HostBindings`.

use vstd::prelude::*;
use crate::host::calls::{Host, HostCall, made_calls};
use crate::host::bindings::writes_within;
use crate::fields::decoder::{
    FieldDecoder, FromLedger, decode_result, optional, spec_decode_result, spec_optional,
};
use crate::fields::ledger_obj::spec_raw_optional;
use crate::host::error_codes::{match_result_code, match_result_code_optional, spec_match_result_code};
use crate::bytes::{zero_bytes, zeroed_array};
use crate::host::{Error, HostBindings};
use crate::sfield::SField;
use crate::types::blob::Blob;

verus! {

/// Whether `r` is the decoding of some answer of the host to a read of `field` of the current
/// ledger object into an `N`-byte buffer.
///
/// `post` is the handle `pre` after exactly that one host call.
pub open spec fn home_read<'a, H: HostBindings, T: FieldDecoder<N>, const N: usize>(
    pre: Host<'a, H>,
    post: Host<'a, H>,
    field: i32,
    r: Result<T, Error>,
) -> bool {
    &&& made_calls(pre, post, seq![HostCall::HomeLeField])
    &&& exists|code: i32, buf: [u8; N]|
        #[trigger] pre.bindings().home_le_field_answers(field, zero_bytes(N as nat), code, buf@)
            && writes_within(zero_bytes(N as nat), code, buf@)
            && r == spec_decode_result::<T, N>(buf, code)
}

/// Whether `r` is some outcome of a read of `field` of the current ledger object into an `N`-byte
/// buffer, with a missing field made `None`.
pub open spec fn home_read_optional<'a, H: HostBindings, T: FieldDecoder<N>, const N: usize>(
    pre: Host<'a, H>,
    post: Host<'a, H>,
    field: i32,
    r: Result<Option<T>, Error>,
) -> bool {
    exists|v: Result<T, Error>|
        home_read::<H, T, N>(pre, post, field, v) && r == #[trigger] spec_optional(v)
}

/// Whether `r` is what a raw read makes of some answer of the host to a read of `field` of the
/// current ledger object into a 512-byte buffer: the buffer, or the host's error.
///
/// `post` is the handle `pre` after exactly that one host call.
pub open spec fn home_raw_read<'a, H: HostBindings>(
    pre: Host<'a, H>,
    post: Host<'a, H>,
    field: i32,
    r: Result<[u8; 512], Error>,
) -> bool {
    &&& made_calls(pre, post, seq![HostCall::HomeLeField])
    &&& exists|code: i32, buf: [u8; 512]|
        #[trigger] pre.bindings().home_le_field_answers(field, zero_bytes(512), code, buf@)
            && writes_within(zero_bytes(512), code, buf@)
            && r == spec_match_result_code(code, buf)
}

/// Whether `r` is what an optional raw read makes of some answer of the host to a read of `field`
/// of the current ledger object into a 512-byte buffer.
///
/// `post` is the handle `pre` after exactly that one host call.
pub open spec fn home_raw_read_optional<'a, H: HostBindings>(
    pre: Host<'a, H>,
    post: Host<'a, H>,
    field: i32,
    r: Result<Option<[u8; 512]>, Error>,
) -> bool {
    &&& made_calls(pre, post, seq![HostCall::HomeLeField])
    &&& exists|code: i32, buf: [u8; 512]|
        #[trigger] pre.bindings().home_le_field_answers(field, zero_bytes(512), code, buf@)
            && writes_within(zero_bytes(512), code, buf@)
            && r == spec_raw_optional(code, buf)
}

/// Reads a field of the current ledger object and decodes it as the field's value type.
pub fn get_field<H: HostBindings, F: SField, const N: usize>(
    host: &mut Host<H>,
    field: F,
) -> (r: Result<F::Value, Error>) where F::Value: FromLedger<N>
    ensures
        home_read::<H, F::Value, N>(*old(host), *final(host), F::spec_code(), r),
{
    let mut buf = <F::Value as FieldDecoder<N>>::empty_buffer();
    let n = host.home_le_field(field.code(), &mut buf);
    decode_result::<F::Value, N>(&buf, n)
}

/// Like [`get_field`], but a missing field is `Ok(None)`.
pub fn get_field_optional<H: HostBindings, F: SField, const N: usize>(
    host: &mut Host<H>,
    field: F,
) -> (r: Result<Option<F::Value>, Error>) where F::Value: FromLedger<N>
    ensures
        home_read_optional::<H, F::Value, N>(*old(host), *final(host), F::spec_code(), r),
{
    let v = get_field::<H, F, N>(host, field);
    optional(v)
}

/// Reads a variable-length field of the current ledger object straight into a [`Blob`]: the bytes
/// the host wrote and their count. The buffer is zeroed before the host writes, so every byte past
/// the count is zero.
pub fn get_blob_field<H: HostBindings, F: SField<Value = Blob<N>>, const N: usize>(
    host: &mut Host<H>,
    field: F,
) -> (r: Result<Blob<N>, Error>)
    ensures
        home_read::<H, Blob<N>, N>(*old(host), *final(host), F::spec_code(), r),
        r matches Ok(b) ==> forall|i: int| b.len <= i < N ==> #[trigger] b.data@[i] == 0,
{
    let mut data = zeroed_array::<N>();
    let n = host.home_le_field(field.code(), &mut data);
    decode_result::<Blob<N>, N>(&data, n)
}

/// Like [`get_blob_field`], but a missing field is `Ok(None)`.
pub fn get_blob_field_optional<H: HostBindings, F: SField<Value = Blob<N>>, const N: usize>(
    host: &mut Host<H>,
    field: F,
) -> (r: Result<Option<Blob<N>>, Error>)
    ensures
        home_read_optional::<H, Blob<N>, N>(*old(host), *final(host), F::spec_code(), r),
        r matches Ok(Some(b)) ==> forall|i: int| b.len <= i < N ==> #[trigger] b.data@[i] == 0,
{
    let v = get_blob_field::<H, F, N>(host, field);
    optional(v)
}

/// Reads a field of the current ledger object as the raw bytes the host writes into a 512-byte buffer.
pub fn get_raw_field<H: HostBindings, F: SField>(
    host: &mut Host<H>,
    field: F,
) -> (r: Result<[u8; 512], Error>)
    ensures
        home_raw_read(*old(host), *final(host), F::spec_code(), r),
{
    let mut buf = zeroed_array::<512>();
    let code = host.home_le_field(field.code(), &mut buf);
    match_result_code(code, buf)
}

/// Like [`get_raw_field`], but a missing field, or one the host reports as empty, is `Ok(None)`.
pub fn get_raw_field_optional<H: HostBindings, F: SField>(
    host: &mut Host<H>,
    field: F,
) -> (r: Result<Option<[u8; 512]>, Error>)
    ensures
        home_raw_read_optional(*old(host), *final(host), F::spec_code(), r),
{
    let mut buf = zeroed_array::<512>();
    let code = host.home_le_field(field.code(), &mut buf);
    let value = if code > 0 {
        Some(buf)
    } else {
        None
    };
    let r = match_result_code_optional(code, value);
    assert(r == spec_raw_optional(code, buf));
    r
}

} // verus!
