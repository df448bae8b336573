//! Fixed-width opaque byte strings (hashes and similar identifiers), and the array helpers the
//! other fixed-layout types share.

use vstd::prelude::*;
use crate::fields::decoder::{FieldDecoder, FromCurrentTx, FromLedger};
use crate::types::decode_error::DecodeError;

verus! {

broadcast use vstd::array::group_array_axioms;

pub const HASH128_SIZE: usize = 16;
pub const HASH160_SIZE: usize = 20;
pub const HASH192_SIZE: usize = 24;
pub const HASH256_SIZE: usize = 32;

/// The `M`-byte array whose contents are `s` (meaningful when `s` has `M` bytes).
pub open spec fn array_of<const M: usize>(s: Seq<u8>) -> [u8; M] {
    choose|a: [u8; M]| a@ == s
}

/// An array is the array of its own contents.
pub proof fn lemma_array_of<const M: usize>(a: [u8; M])
    ensures
        array_of::<M>(a@) == a,
{
    let c = array_of::<M>(a@);
    assert(c@ == a@);
    assert(c@ =~= a@);
}

/// The array of `M` bytes whose first `k` bytes are those of `s` and whose others are zero.
spec fn array_prefix<const M: usize>(s: Seq<u8>, k: nat) -> [u8; M]
    decreases k,
{
    if k == 0 {
        vstd::array::spec_array_fill_for_copy_type::<u8, M>(0u8)
    } else {
        vstd::array::spec_array_update(array_prefix::<M>(s, (k - 1) as nat), k - 1, s[k - 1])
    }
}

proof fn lemma_array_prefix<const M: usize>(s: Seq<u8>, k: nat)
    requires
        k <= M,
        s.len() == M,
    ensures
        array_prefix::<M>(s, k)@.len() == M,
        forall|i: int| 0 <= i < k ==> #[trigger] array_prefix::<M>(s, k)@[i] == s[i],
    decreases k,
{
    if k > 0 {
        lemma_array_prefix::<M>(s, (k - 1) as nat);
    }
}

/// Any `M` bytes are the contents of an array: the array of them holds exactly them.
pub proof fn lemma_array_of_seq<const M: usize>(s: Seq<u8>)
    requires
        s.len() == M,
    ensures
        array_of::<M>(s)@ == s,
{
    lemma_array_prefix::<M>(s, M as nat);
    let a = array_prefix::<M>(s, M as nat);
    assert(a@ =~= s);
}

/// Copies the `M` bytes of `src` that start at `start`.
pub fn sub_array<const N: usize, const M: usize>(src: &[u8; N], start: usize) -> (r: [u8; M])
    requires
        start + M <= N,
    ensures
        r@ == src@.subrange(start as int, start + M),
{
    let mut r = [0u8; M];
    let mut i: usize = 0;
    while i < M
        invariant
            i <= M,
            start + M <= N,
            r@.len() == M,
            forall|j: int| 0 <= j < i ==> #[trigger] r@[j] == src@[start + j],
        decreases M - i,
    {
        r[i] = src[start + i];
        i = i + 1;
    }
    assert(r@ =~= src@.subrange(start as int, start + M));
    r
}

/// An `N`-byte opaque value, such as a hash.
#[derive(Debug, Clone, Copy, PartialEq, Eq)]
pub struct UInt<const N: usize>(pub [u8; N]);

/// A 128-bit opaque value.
pub type Hash128 = UInt<16>;

/// A 160-bit opaque value.
pub type Hash160 = UInt<20>;

/// A 192-bit opaque value.
pub type Hash192 = UInt<24>;

/// A 256-bit opaque value, such as a transaction or ledger-entry ID.
pub type Hash256 = UInt<32>;

impl<const N: usize> From<[u8; N]> for UInt<N> {
    fn from(bytes: [u8; N]) -> (r: UInt<N>) {
        UInt(bytes)
    }
}

impl<const N: usize> vstd::std_specs::convert::FromSpecImpl<[u8; N]> for UInt<N> {
    open spec fn obeys_from_spec() -> bool {
        true
    }

    open spec fn from_spec(bytes: [u8; N]) -> UInt<N> {
        UInt(bytes)
    }
}

impl<const N: usize> FieldDecoder<N> for UInt<N> {
    /// The value must fill the buffer exactly.
    open spec fn spec_decode(buf: [u8; N], bytes_written: nat) -> Result<UInt<N>, DecodeError> {
        if bytes_written != N {
            Err(DecodeError)
        } else {
            Ok(UInt(buf))
        }
    }

    fn decode(buf: &[u8; N], bytes_written: usize) -> (r: Result<UInt<N>, DecodeError>) {
        if bytes_written != N {
            return Err(DecodeError);
        }
        Ok(UInt(*buf))
    }
}

impl<const N: usize> FromCurrentTx<N> for UInt<N> {

}

impl<const N: usize> FromLedger<N> for UInt<N> {

}

/// A hash or other opaque field is exactly the `N` bytes the host wrote, and nothing shorter is
/// one.
pub proof fn lemma_uint_is_the_written_bytes<const N: usize>(buf: [u8; N], n: nat)
    ensures
        UInt::<N>::spec_decode(buf, N as nat) matches Ok(h) && h.0@ == buf@,
        n != N ==> UInt::<N>::spec_decode(buf, n) is Err,
{
}

} // verus!
