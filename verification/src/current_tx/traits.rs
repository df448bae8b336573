//! The fields every transaction has.
//!
//! Mandatory fields return `Result<T>` and are an error when missing; optional ones return
//! `Result<Option<T>>` and are `None` when missing.

use vstd::prelude::*;
use crate::host::calls::Host;
use crate::bytes::zero_bytes;
use crate::fields::current_tx::{get_field, get_field_optional, tx_read, tx_read_optional};
use crate::fields::locator::TxPathBuilder;
use crate::host::{Error, HostBindings};
use crate::sfield;
use crate::sfield::SField;
use crate::types::account_id::AccountID;
use crate::types::amount::Amount;
use crate::types::blob::{PublicKeyBlob, SignatureBlob};
use crate::types::public_key::PublicKey;
use crate::types::transaction_type::TransactionType;
use crate::types::uint::Hash256;

verus! {

/// What [`signing_pub_key_from_blob`] makes of a read of `SigningPubKey`: an empty key marks a
/// multi-signed transaction, a 33-byte key a single-signed one.
pub open spec fn spec_signing_pub_key(r: Result<PublicKeyBlob, Error>) -> Result<
    Option<PublicKey>,
    Error,
> {
    match r {
        Ok(blob) => if blob.len == 0 {
            Ok(None)
        } else {
            Ok(Some(PublicKey(blob.data)))
        },
        Err(e) => Err(e),
    }
}

/// Turns a read of `SigningPubKey` into the key of a single-signed transaction, or `None` for a
/// multi-signed one. The ledger admits no key of another length than 0 or 33 bytes.
pub fn signing_pub_key_from_blob(r: Result<PublicKeyBlob, Error>) -> (k: Result<
    Option<PublicKey>,
    Error,
>)
    requires
        r matches Ok(blob) ==> (blob.len == 0 || blob.len == 33),
    ensures
        k == spec_signing_pub_key(r),
{
    match r {
        Ok(blob) => if blob.len == 0 {
            Ok(None)
        } else {
            Ok(Some(PublicKey::from(blob.data)))
        },
        Err(e) => Err(e),
    }
}

/// The fields common to every transaction, read from the current transaction.
pub trait TransactionCommonFields {
    /// The account that sent the transaction.
    fn get_account<H: HostBindings>(&self, host: &mut Host<H>) -> (r: Result<AccountID, Error>)
        ensures
            tx_read::<H, AccountID, 20>(*old(host), *final(host), sfield::Account::spec_code(), r),
    {
        get_field(host, sfield::Account)
    }

    /// The type of the transaction.
    fn get_transaction_type<H: HostBindings>(&self, host: &mut Host<H>) -> (r: Result<TransactionType, Error>)
        ensures
            tx_read::<H, TransactionType, 2>(*old(host), *final(host), sfield::TransactionType::spec_code(), r),
    {
        get_field(host, sfield::TransactionType)
    }

    /// The computation the transaction allows.
    fn get_computation_allowance<H: HostBindings>(&self, host: &mut Host<H>) -> (r: Result<u32, Error>)
        ensures
            tx_read::<H, u32, 4>(*old(host), *final(host), sfield::ComputationAllowance::spec_code(), r),
    {
        get_field(host, sfield::ComputationAllowance)
    }

    /// The fee the transaction pays.
    fn get_fee<H: HostBindings>(&self, host: &mut Host<H>) -> (r: Result<Amount, Error>)
        ensures
            tx_read::<H, Amount, 48>(*old(host), *final(host), sfield::Fee::spec_code(), r),
    {
        get_field(host, sfield::Fee)
    }

    /// The sequence number of the transaction.
    fn get_sequence<H: HostBindings>(&self, host: &mut Host<H>) -> (r: Result<u32, Error>)
        ensures
            tx_read::<H, u32, 4>(*old(host), *final(host), sfield::Sequence::spec_code(), r),
    {
        get_field(host, sfield::Sequence)
    }

    /// The hash of the previous transaction the sender sent, when required.
    fn get_account_txn_id<H: HostBindings>(&self, host: &mut Host<H>) -> (r: Result<Option<Hash256>, Error>)
        ensures
            tx_read_optional::<H, Hash256, 32>(*old(host), *final(host), sfield::AccountTxnID::spec_code(), r),
    {
        get_field_optional(host, sfield::AccountTxnID)
    }

    /// The transaction's flags.
    fn get_flags<H: HostBindings>(&self, host: &mut Host<H>) -> (r: Result<Option<u32>, Error>)
        ensures
            tx_read_optional::<H, u32, 4>(*old(host), *final(host), sfield::Flags::spec_code(), r),
    {
        get_field_optional(host, sfield::Flags)
    }

    /// The last ledger the transaction can be included in.
    fn get_last_ledger_sequence<H: HostBindings>(&self, host: &mut Host<H>) -> (r: Result<Option<u32>, Error>)
        ensures
            tx_read_optional::<H, u32, 4>(*old(host), *final(host), sfield::LastLedgerSequence::spec_code(), r),
    {
        get_field_optional(host, sfield::LastLedgerSequence)
    }

    /// The network the transaction is meant for.
    fn get_network_id<H: HostBindings>(&self, host: &mut Host<H>) -> (r: Result<Option<u32>, Error>)
        ensures
            tx_read_optional::<H, u32, 4>(*old(host), *final(host), sfield::NetworkID::spec_code(), r),
    {
        get_field_optional(host, sfield::NetworkID)
    }

    /// The sender's source tag.
    fn get_source_tag<H: HostBindings>(&self, host: &mut Host<H>) -> (r: Result<Option<u32>, Error>)
        ensures
            tx_read_optional::<H, u32, 4>(*old(host), *final(host), sfield::SourceTag::spec_code(), r),
    {
        get_field_optional(host, sfield::SourceTag)
    }

    /// The public key that signed a single-signed transaction; `None` for a multi-signed one.
    fn get_signing_pub_key<H: HostBindings>(&self, host: &mut Host<H>) -> (r: Result<Option<PublicKey>, Error>)
        requires
            forall|code: i32, w: Seq<u8>|
                #[trigger] old(host).bindings().tx_field_answers(sfield::SigningPubKey::spec_code(), zero_bytes(33), code, w)
                    ==> code < 0 || code == 0 || code == 33,
        ensures
            exists|blob: Result<PublicKeyBlob, Error>|
                tx_read::<H, PublicKeyBlob, 33>(*old(host), *final(host), sfield::SigningPubKey::spec_code(), blob) && r == #[trigger] spec_signing_pub_key(
                    blob,
                ),
    {
        let blob = get_field(host, sfield::SigningPubKey);
        signing_pub_key_from_blob(blob)
    }

    /// The ticket the transaction uses in place of a sequence number.
    fn get_ticket_sequence<H: HostBindings>(&self, host: &mut Host<H>) -> (r: Result<Option<u32>, Error>)
        ensures
            tx_read_optional::<H, u32, 4>(*old(host), *final(host), sfield::TicketSequence::spec_code(), r),
    {
        get_field_optional(host, sfield::TicketSequence)
    }

    /// The signature of a single-signed transaction.
    fn get_txn_signature<H: HostBindings>(&self, host: &mut Host<H>) -> (r: Result<SignatureBlob, Error>)
        ensures
            tx_read::<H, SignatureBlob, 72>(*old(host), *final(host), sfield::TxnSignature::spec_code(), r),
    {
        get_field(host, sfield::TxnSignature)
    }

    /// A new, empty path to an inner field of the current transaction.
    fn path(&self) -> (r: TxPathBuilder)
        ensures
            r.spec_segments() == Seq::<i32>::empty(),
            !r.spec_malformed(),
    {
        TxPathBuilder::for_current_tx()
    }
}

} // verus!
