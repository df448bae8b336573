//! 20-byte account identifiers.

use vstd::prelude::*;
use crate::fields::decoder::{FieldDecoder, FromCurrentTx, FromLedger};
use crate::types::decode_error::DecodeError;

verus! {

/// The size of an account identifier in bytes.
pub const ACCOUNT_ID_SIZE: usize = 20;

/// A 20-byte account identifier.
#[derive(Debug, Clone, Copy, PartialEq, Eq)]
pub struct AccountID(pub [u8; 20]);

impl From<[u8; 20]> for AccountID {
    fn from(bytes: [u8; 20]) -> (r: AccountID) {
        AccountID(bytes)
    }
}

impl vstd::std_specs::convert::FromSpecImpl<[u8; 20]> for AccountID {
    open spec fn obeys_from_spec() -> bool {
        true
    }

    open spec fn from_spec(bytes: [u8; 20]) -> AccountID {
        AccountID(bytes)
    }
}

impl FieldDecoder<20> for AccountID {
    /// An account identifier must fill the buffer exactly.
    open spec fn spec_decode(buf: [u8; 20], bytes_written: nat) -> Result<AccountID, DecodeError> {
        if bytes_written != 20 {
            Err(DecodeError)
        } else {
            Ok(AccountID(buf))
        }
    }

    fn decode(buf: &[u8; 20], bytes_written: usize) -> (r: Result<AccountID, DecodeError>) {
        if bytes_written != 20 {
            return Err(DecodeError);
        }
        Ok(AccountID(*buf))
    }
}

impl FromCurrentTx<20> for AccountID {

}

impl FromLedger<20> for AccountID {

}

/// An account field is exactly the 20 bytes the host wrote, and nothing shorter is an account.
pub proof fn lemma_account_id_is_the_written_bytes(buf: [u8; 20], n: nat)
    ensures
        AccountID::spec_decode(buf, 20) matches Ok(a) && a.0@ == buf@,
        n != 20 ==> AccountID::spec_decode(buf, n) is Err,
{
}

} // verus!
