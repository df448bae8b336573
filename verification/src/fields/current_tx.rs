//! Typed reads of top-level fields of the current transaction.
//!
//! - **Required** (`get_field`): a missing field is an error.
//! - **Optional** (`get_field_optional`): a missing field is `Ok(None)`.
//!
//! What the host answers is not known here: the contract of each read says which field was asked
//! for, into how large a zeroed buffer, and that the result is what [`decode_result`] makes of
//! some answer of the host to that call. That the host writes no byte past the count it returns
//! is an assumption about the host, stated on `HostBindings`.

use vstd::prelude::*;
use crate::host::calls::{Host, HostCall, made_calls};
use crate::host::bindings::writes_within;
use crate::fields::decoder::{
    FieldDecoder, FromCurrentTx, decode_result, optional, spec_decode_result, spec_optional,
};
use crate::bytes::zero_bytes;
use crate::host::{Error, HostBindings};
use crate::sfield::SField;

verus! {

/// Whether `r` is the decoding of some answer of the host to a read of `field` of the current
/// transaction into an `N`-byte buffer.
///
/// `post` is the handle `pre` after exactly that one host call.
pub open spec fn tx_read<'a, H: HostBindings, T: FieldDecoder<N>, const N: usize>(
    pre: Host<'a, H>,
    post: Host<'a, H>,
    field: i32,
    r: Result<T, Error>,
) -> bool {
    &&& made_calls(pre, post, seq![HostCall::TxField])
    &&& exists|code: i32, buf: [u8; N]|
        #[trigger] pre.bindings().tx_field_answers(field, zero_bytes(N as nat), code, buf@)
            && writes_within(zero_bytes(N as nat), code, buf@)
            && r == spec_decode_result::<T, N>(buf, code)
}

/// Whether `r` is some outcome of a read of `field` of the current transaction into an `N`-byte
/// buffer, with a missing field made `None`.
pub open spec fn tx_read_optional<'a, H: HostBindings, T: FieldDecoder<N>, const N: usize>(
    pre: Host<'a, H>,
    post: Host<'a, H>,
    field: i32,
    r: Result<Option<T>, Error>,
) -> bool {
    exists|v: Result<T, Error>|
        tx_read::<H, T, N>(pre, post, field, v) && r == #[trigger] spec_optional(v)
}

/// Reads a field of the current transaction and decodes it as the field's value type.
pub fn get_field<H: HostBindings, F: SField, const N: usize>(
    host: &mut Host<H>,
    field: F,
) -> (r: Result<F::Value, Error>) where F::Value: FromCurrentTx<N>
    ensures
        tx_read::<H, F::Value, N>(*old(host), *final(host), F::spec_code(), r),
{
    let mut buf = <F::Value as FieldDecoder<N>>::empty_buffer();
    let n = host.tx_field(field.code(), &mut buf);
    decode_result::<F::Value, N>(&buf, n)
}

/// Like [`get_field`], but a missing field is `Ok(None)`.
pub fn get_field_optional<H: HostBindings, F: SField, const N: usize>(
    host: &mut Host<H>,
    field: F,
) -> (r: Result<Option<F::Value>, Error>) where F::Value: FromCurrentTx<N>
    ensures
        tx_read_optional::<H, F::Value, N>(*old(host), *final(host), F::spec_code(), r),
{
    let v = get_field::<H, F, N>(host, field);
    optional(v)
}

} // verus!
