//! Transaction type codes.

use vstd::prelude::*;
use crate::bytes::{lemma_u16_from_le_value, u16_from_le};
use crate::fields::decoder::{FieldDecoder, FromCurrentTx, FromLedger};
use crate::types::decode_error::DecodeError;

verus! {

/// The numeric code of a transaction type (0 is Payment, 1 is EscrowCreate, 2 EscrowFinish, ...).
#[derive(Debug, Clone, Copy, PartialEq, Eq, Structural)]
pub struct TransactionType(pub u16);

impl FieldDecoder<2> for TransactionType {
    /// A transaction type must fill its two bytes.
    open spec fn spec_decode(buf: [u8; 2], bytes_written: nat) -> Result<TransactionType, DecodeError> {
        if bytes_written != 2 {
            Err(DecodeError)
        } else {
            Ok(TransactionType(u16_from_le(buf@)))
        }
    }

    fn decode(buf: &[u8; 2], bytes_written: usize) -> (r: Result<TransactionType, DecodeError>) {
        if bytes_written != 2 {
            return Err(DecodeError);
        }
        Ok(TransactionType(((buf[0] as u16) | ((buf[1] as u16) << 8u16)) as u16))
    }
}

impl FromCurrentTx<2> for TransactionType {

}

impl FromLedger<2> for TransactionType {

}

/// A transaction type is read like every other 16-bit field: little-endian, the first byte the
/// least significant (EscrowFinish, 2, is written as `02 00`), and only from a two-byte write.
pub proof fn lemma_transaction_type_is_little_endian(buf: [u8; 2], n: nat)
    ensures
        TransactionType::spec_decode(buf, 2) matches Ok(t) && t.0 as int == buf@[0] + 256
            * buf@[1],
        n != 2 ==> TransactionType::spec_decode(buf, n) is Err,
{
    lemma_u16_from_le_value(buf@);
}

} // verus!
