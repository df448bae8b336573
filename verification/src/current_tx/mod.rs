//! Typed reads of fields of the current transaction.
//!
//! [`CurrentTxFieldGetter`] gives every type that can be read from a transaction a
//! `get_from_current_tx` constructor; [`get_field`] and [`get_field_optional`] are the free-function
//! forms. A required read of a missing field is an error; an optional one is `Ok(None)`.

pub mod traits;

use vstd::prelude::*;
use crate::host::calls::Host;
use crate::bytes::zero_bytes;
use crate::fields::decoder::FieldDecoder;
use crate::host::error_codes::is_expected_bytes_answer;
use crate::fields::current_tx;
use crate::fields::current_tx::{tx_read, tx_read_optional};
use crate::fields::decoder::FromCurrentTx;
use crate::host::{Error, HostBindings};
use crate::sfield::SField;

verus! {

/// Whether the host, asked for `field` of the current transaction into a zeroed `N`-byte buffer,
/// answers an error or exactly `N` bytes whenever `T` is a fixed-size integer. The getters of
/// [`CurrentTxFieldGetter`] have no answer for a fixed-size integer of another length.
pub open spec fn tx_fixed_size_answers<H: HostBindings, T: FieldDecoder<N>, const N: usize>(
    bindings: &H,
    field: i32,
) -> bool {
    T::spec_fixed_size() ==> forall|code: i32, w: Seq<u8>|
        #[trigger] bindings.tx_field_answers(field, zero_bytes(N as nat), code, w)
            ==> is_expected_bytes_answer(code, N)
}

/// A type whose values can be read from fields of the current transaction.
pub trait CurrentTxFieldGetter<const N: usize>: FromCurrentTx<N> {
    /// Reads `field` of the current transaction.
    fn get_from_current_tx<H: HostBindings, F: SField<Value = Self>>(host: &mut Host<H>, field: F) -> (r:
        Result<Self, Error>)
        requires
            tx_fixed_size_answers::<H, Self, N>(old(host).bindings(), F::spec_code()),
        ensures
            tx_read::<H, Self, N>(*old(host), *final(host), F::spec_code(), r),
    {
        current_tx::get_field::<H, F, N>(host, field)
    }

    /// Reads `field` of the current transaction; a missing field is `Ok(None)`.
    fn get_from_current_tx_optional<H: HostBindings, F: SField<Value = Self>>(
        host: &mut Host<H>,
        field: F,
    ) -> (r: Result<Option<Self>, Error>)
        requires
            tx_fixed_size_answers::<H, Self, N>(old(host).bindings(), F::spec_code()),
        ensures
            tx_read_optional::<H, Self, N>(*old(host), *final(host), F::spec_code(), r),
    {
        current_tx::get_field_optional::<H, F, N>(host, field)
    }
}

impl<T: FromCurrentTx<N>, const N: usize> CurrentTxFieldGetter<N> for T {

}

/// Reads a field of the current transaction as the field's value type.
pub fn get_field<H: HostBindings, F: SField, const N: usize>(host: &mut Host<H>, field: F) -> (r: Result<
    F::Value,
    Error,
>) where F::Value: CurrentTxFieldGetter<N>
    requires
        tx_fixed_size_answers::<H, F::Value, N>(old(host).bindings(), F::spec_code()),
    ensures
        tx_read::<H, F::Value, N>(*old(host), *final(host), F::spec_code(), r),
{
    <F::Value as CurrentTxFieldGetter<N>>::get_from_current_tx(host, field)
}

/// Reads a field of the current transaction; a missing field is `Ok(None)`.
pub fn get_field_optional<H: HostBindings, F: SField, const N: usize>(host: &mut Host<H>, field: F) -> (r:
    Result<Option<F::Value>, Error>) where F::Value: CurrentTxFieldGetter<N>
    requires
        tx_fixed_size_answers::<H, F::Value, N>(old(host).bindings(), F::spec_code()),
    ensures
        tx_read_optional::<H, F::Value, N>(*old(host), *final(host), F::spec_code(), r),
{
    <F::Value as CurrentTxFieldGetter<N>>::get_from_current_tx_optional(host, field)
}

} // verus!
