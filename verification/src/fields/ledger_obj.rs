//! Typed reads of top-level fields of a ledger object cached in a slot.
//!
//! - **Required** (`get_field`): a missing field is an error.
//! - **Optional** (`get_field_optional`): a missing field is `Ok(None)`.
//!
//! The `get_blob_field` variants read a variable-length field into a [`Blob`]; the `raw`
//! variants read a field whose serialized type has no Rust counterpart as raw bytes.
//!
//! What the host answers is not known here: the contract of each read says which field was asked
//! for, into how large a zeroed buffer, and that the result is what [`decode_result`] makes of
//! some answer of the host to that call. That the host writes no byte past the count it returns
//! is an assumption about the host, stated on `HostBindings`.

use vstd::prelude::*;
use crate::host::calls::{Host, HostCall, made_calls};
use crate::host::bindings::writes_within;
use crate::fields::decoder::{
    FieldDecoder, FromLedger, decode_result, optional, spec_decode_result, spec_optional,
};
use crate::host::error_codes::{
    match_result_code, match_result_code_optional, spec_match_result_code,
    spec_match_result_code_optional,
};
use crate::bytes::{zero_bytes, zeroed_array};
use crate::host::{Error, HostBindings};
use crate::sfield::SField;
use crate::types::blob::Blob;

verus! {

/// The size of the buffer a field is read into when its serialized type has no Rust counterpart.
pub const RAW_UNMAPPED_FIELD_SIZE: usize = 512;

/// Whether `r` is the decoding of some answer of the host to a read of `field` of the object in
/// `slot` into an `N`-byte buffer.
///
/// `post` is the handle `pre` after exactly that one host call.
pub open spec fn slot_read<'a, H: HostBindings, T: FieldDecoder<N>, const N: usize>(
    pre: Host<'a, H>,
    post: Host<'a, H>,
    slot: i32,
    field: i32,
    r: Result<T, Error>,
) -> bool {
    &&& made_calls(pre, post, seq![HostCall::LeField])
    &&& exists|code: i32, buf: [u8; N]|
        #[trigger] pre.bindings().le_field_answers(slot, field, zero_bytes(N as nat), code, buf@)
            && writes_within(zero_bytes(N as nat), code, buf@)
            && r == spec_decode_result::<T, N>(buf, code)
}

/// Whether `r` is some outcome of a read of `field` of the object in `slot` into an `N`-byte
/// buffer, with a missing field made `None`.
pub open spec fn slot_read_optional<'a, H: HostBindings, T: FieldDecoder<N>, const N: usize>(
    pre: Host<'a, H>,
    post: Host<'a, H>,
    slot: i32,
    field: i32,
    r: Result<Option<T>, Error>,
) -> bool {
    exists|v: Result<T, Error>|
        slot_read::<H, T, N>(pre, post, slot, field, v) && r == #[trigger] spec_optional(v)
}

/// Whether `r` is what a raw read makes of some answer of the host to a read of `field` of the
/// object in `slot` into a 512-byte buffer: the buffer, or the host's error.
///
/// `post` is the handle `pre` after exactly that one host call.
pub open spec fn slot_raw_read<'a, H: HostBindings>(
    pre: Host<'a, H>,
    post: Host<'a, H>,
    slot: i32,
    field: i32,
    r: Result<[u8; 512], Error>,
) -> bool {
    &&& made_calls(pre, post, seq![HostCall::LeField])
    &&& exists|code: i32, buf: [u8; 512]|
        #[trigger] pre.bindings().le_field_answers(slot, field, zero_bytes(512), code, buf@)
            && writes_within(zero_bytes(512), code, buf@)
            && r == spec_match_result_code(code, buf)
}

/// What an optional raw read makes of the host's answer `code` and the buffer `buf` it filled: a
/// missing field, or an empty one, is `None`.
pub open spec fn spec_raw_optional(code: i32, buf: [u8; 512]) -> Result<Option<[u8; 512]>, Error> {
    spec_match_result_code_optional(
        code,
        if code > 0 {
            Some(buf)
        } else {
            None
        },
    )
}

/// Whether `r` is what an optional raw read makes of some answer of the host to a read of `field`
/// of the object in `slot` into a 512-byte buffer.
///
/// `post` is the handle `pre` after exactly that one host call.
pub open spec fn slot_raw_read_optional<'a, H: HostBindings>(
    pre: Host<'a, H>,
    post: Host<'a, H>,
    slot: i32,
    field: i32,
    r: Result<Option<[u8; 512]>, Error>,
) -> bool {
    &&& made_calls(pre, post, seq![HostCall::LeField])
    &&& exists|code: i32, buf: [u8; 512]|
        #[trigger] pre.bindings().le_field_answers(slot, field, zero_bytes(512), code, buf@)
            && writes_within(zero_bytes(512), code, buf@)
            && r == spec_raw_optional(code, buf)
}

/// Reads a field of the ledger object cached in `slot` and decodes it as the field's value type.
pub fn get_field<H: HostBindings, F: SField, const N: usize>(
    host: &mut Host<H>,
    slot: i32,
    field: F,
) -> (r: Result<F::Value, Error>) where F::Value: FromLedger<N>
    ensures
        slot_read::<H, F::Value, N>(*old(host), *final(host), slot, F::spec_code(), r),
{
    let mut buf = <F::Value as FieldDecoder<N>>::empty_buffer();
    let n = host.le_field(slot, field.code(), &mut buf);
    decode_result::<F::Value, N>(&buf, n)
}

/// Like [`get_field`], but a missing field is `Ok(None)`.
pub fn get_field_optional<H: HostBindings, F: SField, const N: usize>(
    host: &mut Host<H>,
    slot: i32,
    field: F,
) -> (r: Result<Option<F::Value>, Error>) where F::Value: FromLedger<N>
    ensures
        slot_read_optional::<H, F::Value, N>(*old(host), *final(host), slot, F::spec_code(), r),
{
    let v = get_field::<H, F, N>(host, slot, field);
    optional(v)
}

/// Reads a variable-length field of the ledger object cached in `slot` straight into a [`Blob`]:
/// the bytes the host wrote and their count. The buffer is zeroed before the host writes, so every
/// byte past the count is zero.
pub fn get_blob_field<H: HostBindings, F: SField<Value = Blob<N>>, const N: usize>(
    host: &mut Host<H>,
    slot: i32,
    field: F,
) -> (r: Result<Blob<N>, Error>)
    ensures
        slot_read::<H, Blob<N>, N>(*old(host), *final(host), slot, F::spec_code(), r),
        r matches Ok(b) ==> forall|i: int| b.len <= i < N ==> #[trigger] b.data@[i] == 0,
{
    let mut data = zeroed_array::<N>();
    let n = host.le_field(slot, field.code(), &mut data);
    decode_result::<Blob<N>, N>(&data, n)
}

/// Like [`get_blob_field`], but a missing field is `Ok(None)`.
pub fn get_blob_field_optional<H: HostBindings, F: SField<Value = Blob<N>>, const N: usize>(
    host: &mut Host<H>,
    slot: i32,
    field: F,
) -> (r: Result<Option<Blob<N>>, Error>)
    ensures
        slot_read_optional::<H, Blob<N>, N>(*old(host), *final(host), slot, F::spec_code(), r),
        r matches Ok(Some(b)) ==> forall|i: int| b.len <= i < N ==> #[trigger] b.data@[i] == 0,
{
    let v = get_blob_field::<H, F, N>(host, slot, field);
    optional(v)
}

/// Reads a field of the ledger object cached in `slot` as the raw bytes the host writes into a 512-byte buffer.
pub fn get_raw_field<H: HostBindings, F: SField>(
    host: &mut Host<H>,
    slot: i32,
    field: F,
) -> (r: Result<[u8; 512], Error>)
    ensures
        slot_raw_read(*old(host), *final(host), slot, F::spec_code(), r),
{
    let mut buf = zeroed_array::<512>();
    let code = host.le_field(slot, field.code(), &mut buf);
    match_result_code(code, buf)
}

/// Like [`get_raw_field`], but a missing field, or one the host reports as empty, is `Ok(None)`.
pub fn get_raw_field_optional<H: HostBindings, F: SField>(
    host: &mut Host<H>,
    slot: i32,
    field: F,
) -> (r: Result<Option<[u8; 512]>, Error>)
    ensures
        slot_raw_read_optional(*old(host), *final(host), slot, F::spec_code(), r),
{
    let mut buf = zeroed_array::<512>();
    let code = host.le_field(slot, field.code(), &mut buf);
    let value = if code > 0 {
        Some(buf)
    } else {
        None
    };
    let r = match_result_code_optional(code, value);
    assert(r == spec_raw_optional(code, buf));
    r
}

} // verus!
