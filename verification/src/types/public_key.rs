//! 33-byte public keys.

use vstd::prelude::*;

verus! {

/// The size of a public key in bytes.
pub const PUBLIC_KEY_BUFFER_SIZE: usize = 33;

/// A 33-byte public key: `0x02`/`0x03` followed by a compressed secp256k1 key, or `0xED`
/// followed by an Ed25519 key.
#[derive(Debug, Clone, Copy, PartialEq, Eq)]
pub struct PublicKey(pub [u8; 33]);

impl From<[u8; 33]> for PublicKey {
    fn from(bytes: [u8; 33]) -> (r: PublicKey) {
        PublicKey(bytes)
    }
}

impl vstd::std_specs::convert::FromSpecImpl<[u8; 33]> for PublicKey {
    open spec fn obeys_from_spec() -> bool {
        true
    }

    open spec fn from_spec(bytes: [u8; 33]) -> PublicKey {
        PublicKey(bytes)
    }
}

} // verus!
