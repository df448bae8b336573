//! 24-byte multi-purpose-token issuance identifiers.

use vstd::prelude::*;
use crate::bytes::u32_be;
use crate::types::account_id::AccountID;

verus! {

/// The size of an MPT issuance identifier in bytes.
pub const MPT_ID_SIZE: usize = 24;

/// An MPT issuance identifier: the big-endian sequence number of the issuance followed by the
/// issuer's account.
#[derive(Debug, Clone, Copy, PartialEq, Eq)]
pub struct MptId(pub [u8; 24]);

impl MptId {
    /// The identifier of the issuance `sequence` of `issuer`.
    pub open spec fn spec_new(sequence: u32, issuer: AccountID) -> Seq<u8> {
        u32_be(sequence) + issuer.0@
    }

    /// Builds the identifier of the issuance `sequence` of `issuer`.
    pub fn new(sequence: u32, issuer: AccountID) -> (r: MptId)
        ensures
            r.0@ == MptId::spec_new(sequence, issuer),
    {
        let mut bytes = [0u8; 24];
        bytes[0] = ((sequence >> 24u32) & 0xff) as u8;
        bytes[1] = ((sequence >> 16u32) & 0xff) as u8;
        bytes[2] = ((sequence >> 8u32) & 0xff) as u8;
        bytes[3] = (sequence & 0xff) as u8;
        let mut i: usize = 0;
        while i < 20
            invariant
                i <= 20,
                bytes@.len() == 24,
                bytes@.subrange(0, 4) == u32_be(sequence),
                forall|j: int| 0 <= j < i ==> bytes@[4 + j] == #[trigger] issuer.0@[j],
            decreases 20 - i,
        {
            bytes[4 + i] = issuer.0[i];
            i = i + 1;
        }
        assert(bytes@ =~= MptId::spec_new(sequence, issuer));
        MptId(bytes)
    }

    /// The raw bytes of the identifier.
    pub fn as_bytes(&self) -> (r: &[u8; 24])
        ensures
            *r == self.0,
    {
        &self.0
    }
}

} // verus!
