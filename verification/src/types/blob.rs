//! Variable-length binary fields, held in a fixed-capacity buffer.

use vstd::prelude::*;
use crate::fields::decoder::{FieldDecoder, FromCurrentTx, FromLedger};
use crate::types::decode_error::DecodeError;

verus! {

pub const DEFAULT_BLOB_SIZE: usize = 1024;
pub const CONDITION_BLOB_SIZE: usize = 128;
pub const PUBLIC_KEY_BLOB_SIZE: usize = 33;
pub const SIGNATURE_BLOB_SIZE: usize = 72;
pub const URI_BLOB_SIZE: usize = 256;
pub const WASM_BLOB_SIZE: usize = 4096;

/// Up to `N` bytes of binary data: the first `len` bytes of `data` are the value, the rest of
/// `data` is zero padding.
#[derive(Debug, Clone, Copy, PartialEq, Eq)]
pub struct Blob<const N: usize> {
    pub data: [u8; N],
    pub len: usize,
}

/// A blob for general variable-length fields.
pub type StandardBlob = Blob<1024>;

/// A blob for crypto-condition fields.
pub type ConditionBlob = Blob<128>;

/// A blob for a public key (empty, or 33 bytes).
pub type PublicKeyBlob = Blob<33>;

/// A blob for a transaction signature.
pub type SignatureBlob = Blob<72>;

/// A blob for URI and domain fields.
pub type UriBlob = Blob<256>;

/// A blob for contract code.
pub type WasmBlob = Blob<4096>;

impl<const N: usize> Blob<N> {
    /// The bytes of the value.
    pub open spec fn spec_bytes(self) -> Seq<u8> {
        self.data@.subrange(0, self.len as int)
    }

    /// An empty blob.
    pub fn new() -> (r: Blob<N>)
        ensures
            r.len == 0,
    {
        Blob { data: [0u8; N], len: 0 }
    }

    /// The number of bytes of the value.
    pub fn len(&self) -> (r: usize)
        ensures
            r == self.len,
    {
        self.len
    }

    /// Whether the value is empty.
    pub fn is_empty(&self) -> (r: bool)
        ensures
            r == (self.len == 0),
    {
        self.len == 0
    }

    /// The bytes of the value.
    pub fn as_slice(&self) -> (r: &[u8])
        requires
            self.len <= N,
        ensures
            r@ == self.spec_bytes(),
    {
        vstd::slice::slice_subrange(vstd::array::array_as_slice(&self.data), 0, self.len)
    }
}

impl<const N: usize> FieldDecoder<N> for Blob<N> {
    /// Any write that fits the buffer is a blob of that many bytes.
    open spec fn spec_decode(buf: [u8; N], bytes_written: nat) -> Result<Blob<N>, DecodeError> {
        if bytes_written > N {
            Err(DecodeError)
        } else {
            Ok(Blob { data: buf, len: bytes_written as usize })
        }
    }

    fn decode(buf: &[u8; N], bytes_written: usize) -> (r: Result<Blob<N>, DecodeError>) {
        if bytes_written > N {
            return Err(DecodeError);
        }
        Ok(Blob { data: *buf, len: bytes_written })
    }
}

impl<const N: usize> FromCurrentTx<N> for Blob<N> {

}

impl<const N: usize> FromLedger<N> for Blob<N> {

}

/// A blob field is the buffer as the host left it, with the length the host reported; a
/// reported length past the buffer is no blob.
pub proof fn lemma_blob_is_the_written_bytes<const N: usize>(buf: [u8; N], n: nat)
    ensures
        n <= N ==> (Blob::<N>::spec_decode(buf, n) matches Ok(b) && b.data@ == buf@ && b.len == n),
        n > N ==> Blob::<N>::spec_decode(buf, n) is Err,
{
}

} // verus!
