//! Context-independent decode logic for typed field values.
//!
//! Reading a field always looks the same: call a host function into a buffer, then turn the
//! bytes it wrote into a typed value. [`FieldDecoder`] captures only that second step, so a type
//! implements it once regardless of how many contexts (current transaction, ledger object, ...)
//! can produce those bytes. The marker traits [`FromCurrentTx`] and [`FromLedger`] record which
//! contexts are valid for a given type; the context-specific `get_field` functions require the
//! matching marker.
//!
//! A decoder is parameterised by the size `N` of the buffer the host writes into.

use vstd::prelude::*;
use crate::bytes::{
    lemma_u16_from_le_value, lemma_u32_from_le_value, lemma_u64_from_le_value, u16_from_le,
    u32_from_le, u64_from_le, zero_bytes, zeroed_array,
};
use crate::host::Error;
use crate::types::decode_error::DecodeError;

verus! {

/// Decodes a typed value from the raw bytes a host function wrote into an `N`-byte buffer.
pub trait FieldDecoder<const N: usize>: Sized {
    /// The value (or the error) that `decode` produces from the buffer contents `buf` of which
    /// the host reported writing `bytes_written` bytes.
    ///
    /// A type that does not say leaves it unspecified.
    closed spec fn spec_decode(buf: [u8; N], bytes_written: nat) -> Result<Self, DecodeError> {
        vstd::pervasive::arbitrary()
    }

    /// Whether this is a fixed-size integer, which the getters of [`CurrentTxFieldGetter`] read
    /// only from a host that answers an error or exactly `N` bytes.
    ///
    /// [`CurrentTxFieldGetter`]: crate::current_tx::CurrentTxFieldGetter
    open spec fn spec_fixed_size() -> bool {
        false
    }

    /// Returns a zero-initialized buffer of `N` bytes.
    fn empty_buffer() -> (r: [u8; N])
        ensures
            r@ == zero_bytes(N as nat),
    {
        zeroed_array::<N>()
    }

    /// Decodes `Self` from the full buffer (as written by the host, then zero-padded), given
    /// `bytes_written`, the number of bytes the host actually wrote.
    fn decode(buf: &[u8; N], bytes_written: usize) -> (r: Result<Self, DecodeError>)
        ensures
            r == Self::spec_decode(*buf, bytes_written as nat),
    ;
}

/// Marker: this type can be read from the current transaction.
pub trait FromCurrentTx<const N: usize>: FieldDecoder<N> {

}

/// Marker: this type can be read from a ledger object.
pub trait FromLedger<const N: usize>: FieldDecoder<N> {

}

/// What [`decode_result`] makes of a host result code `n` and the buffer `buf` it filled.
pub open spec fn spec_decode_result<T: FieldDecoder<N>, const N: usize>(buf: [u8; N], n: i32) -> Result<
    T,
    Error,
> {
    if n < 0 {
        Err(Error::spec_from_code(n))
    } else if n as int > N as int {
        Err(Error::PointerOutOfBounds)
    } else {
        match T::spec_decode(buf, n as nat) {
            Ok(value) => Ok(value),
            Err(_) => Err(Error::InvalidDecoding),
        }
    }
}

/// Turns an absent field into `Ok(None)` and keeps every other outcome.
pub open spec fn spec_optional<T>(r: Result<T, Error>) -> Result<Option<T>, Error> {
    match r {
        Ok(value) => Ok(Some(value)),
        Err(Error::FieldNotFound) => Ok(None),
        Err(e) => Err(e),
    }
}

/// Making a read optional turns exactly the missing field into `Ok(None)`: a value becomes
/// `Some` of itself, and every other error is kept.
pub proof fn lemma_optional<T>(r: Result<T, Error>)
    ensures
        (spec_optional(r) == Ok::<Option<T>, Error>(None)) <==> (r == Err::<T, Error>(
            Error::FieldNotFound,
        )),
        r is Ok ==> spec_optional(r) == Ok::<Option<T>, Error>(Some(r->Ok_0)),
        (r is Err && r->Err_0 != Error::FieldNotFound) ==> spec_optional(r) == Err::<
            Option<T>,
            Error,
        >(r->Err_0),
{
}

/// Turns an absent field into `Ok(None)` and keeps every other outcome.
pub fn optional<T>(r: Result<T, Error>) -> (o: Result<Option<T>, Error>)
    ensures
        o == spec_optional(r),
{
    match r {
        Ok(value) => Ok(Some(value)),
        Err(Error::FieldNotFound) => Ok(None),
        Err(e) => Err(e),
    }
}

/// Shared step behind every `get_field`/`get_field_optional`: turn a host result code and the
/// buffer it (partially) filled into a typed value.
///
/// A negative code is the host's error. A conformant host never reports writing more bytes than
/// the buffer holds; a count past the buffer means it described memory outside the allowed
/// region (`PointerOutOfBounds`). A decoder that rejects the bytes gives `InvalidDecoding`.
pub fn decode_result<T: FieldDecoder<N>, const N: usize>(buf: &[u8; N], n: i32) -> (r: Result<
    T,
    Error,
>)
    ensures
        r == spec_decode_result::<T, N>(*buf, n),
{
    if n < 0 {
        return Err(Error::from_code(n));
    }
    let n = n as usize;
    if n > N {
        return Err(Error::PointerOutOfBounds);
    }
    match T::decode(buf, n) {
        Ok(value) => Ok(value),
        Err(_) => Err(Error::InvalidDecoding),
    }
}

impl FieldDecoder<1> for u8 {
    open spec fn spec_fixed_size() -> bool {
        true
    }

    open spec fn spec_decode(buf: [u8; 1], bytes_written: nat) -> Result<u8, DecodeError> {
        if bytes_written != 1 {
            Err(DecodeError)
        } else {
            Ok(buf@[0])
        }
    }

    fn decode(buf: &[u8; 1], bytes_written: usize) -> (r: Result<u8, DecodeError>) {
        if bytes_written != 1 {
            return Err(DecodeError);
        }
        Ok(buf[0])
    }
}

impl FromCurrentTx<1> for u8 {

}

impl FromLedger<1> for u8 {

}

impl FieldDecoder<2> for u16 {
    open spec fn spec_fixed_size() -> bool {
        true
    }

    open spec fn spec_decode(buf: [u8; 2], bytes_written: nat) -> Result<u16, DecodeError> {
        if bytes_written != 2 {
            Err(DecodeError)
        } else {
            Ok(u16_from_le(buf@))
        }
    }

    fn decode(buf: &[u8; 2], bytes_written: usize) -> (r: Result<u16, DecodeError>) {
        if bytes_written != 2 {
            return Err(DecodeError);
        }
        Ok(((buf[0] as u16) | ((buf[1] as u16) << 8u16)) as u16)
    }
}

impl FromCurrentTx<2> for u16 {

}

impl FromLedger<2> for u16 {

}

impl FieldDecoder<4> for u32 {
    open spec fn spec_fixed_size() -> bool {
        true
    }

    open spec fn spec_decode(buf: [u8; 4], bytes_written: nat) -> Result<u32, DecodeError> {
        if bytes_written != 4 {
            Err(DecodeError)
        } else {
            Ok(u32_from_le(buf@))
        }
    }

    fn decode(buf: &[u8; 4], bytes_written: usize) -> (r: Result<u32, DecodeError>) {
        if bytes_written != 4 {
            return Err(DecodeError);
        }
        Ok(
            ((buf[0] as u32) | ((buf[1] as u32) << 8u32) | ((buf[2] as u32) << 16u32) | ((
            buf[3] as u32) << 24u32)) as u32,
        )
    }
}

impl FromCurrentTx<4> for u32 {

}

impl FromLedger<4> for u32 {

}

impl FieldDecoder<8> for u64 {
    open spec fn spec_fixed_size() -> bool {
        true
    }

    open spec fn spec_decode(buf: [u8; 8], bytes_written: nat) -> Result<u64, DecodeError> {
        if bytes_written != 8 {
            Err(DecodeError)
        } else {
            Ok(u64_from_le(buf@))
        }
    }

    fn decode(buf: &[u8; 8], bytes_written: usize) -> (r: Result<u64, DecodeError>) {
        if bytes_written != 8 {
            return Err(DecodeError);
        }
        Ok(
            ((buf[0] as u64) | ((buf[1] as u64) << 8u64) | ((buf[2] as u64) << 16u64) | ((
            buf[3] as u64) << 24u64) | ((buf[4] as u64) << 32u64) | ((buf[5] as u64) << 40u64)
                | ((buf[6] as u64) << 48u64) | ((buf[7] as u64) << 56u64)) as u64,
        )
    }
}

impl FromCurrentTx<8> for u64 {

}

impl FromLedger<8> for u64 {

}

/// A fixed-size integer field is read little-endian from the bytes the host wrote, the first byte
/// the least significant, and only a write that fills its buffer is such an integer.
pub proof fn lemma_integer_fields_are_little_endian(
    b1: [u8; 1],
    b2: [u8; 2],
    b4: [u8; 4],
    b8: [u8; 8],
    n: nat,
)
    ensures
        <u8 as FieldDecoder<1>>::spec_decode(b1, 1) matches Ok(v) && v == b1@[0],
        <u16 as FieldDecoder<2>>::spec_decode(b2, 2) matches Ok(v) && v as int == b2@[0] + 256
            * b2@[1],
        <u32 as FieldDecoder<4>>::spec_decode(b4, 4) matches Ok(v) && v as int == b4@[0] + 256
            * b4@[1] + 65536 * b4@[2] + 16777216 * b4@[3],
        <u64 as FieldDecoder<8>>::spec_decode(b8, 8) matches Ok(v) && v as int == b8@[0] + 0x100
            * b8@[1] + 0x1_0000 * b8@[2] + 0x100_0000 * b8@[3] + 0x1_0000_0000 * b8@[4]
            + 0x100_0000_0000 * b8@[5] + 0x1_0000_0000_0000 * b8@[6] + 0x100_0000_0000_0000
            * b8@[7],
        n != 1 ==> <u8 as FieldDecoder<1>>::spec_decode(b1, n) is Err,
        n != 2 ==> <u16 as FieldDecoder<2>>::spec_decode(b2, n) is Err,
        n != 4 ==> <u32 as FieldDecoder<4>>::spec_decode(b4, n) is Err,
        n != 8 ==> <u64 as FieldDecoder<8>>::spec_decode(b8, n) is Err,
{
    lemma_u16_from_le_value(b2@);
    lemma_u32_from_le_value(b4@);
    lemma_u64_from_le_value(b8@);
}

} // verus!
