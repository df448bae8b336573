//! The `PayChannel` ledger object: typed accessors for its fields.

use vstd::prelude::*;
use crate::host::calls::Host;
use crate::fields::{current_ledger_obj, ledger_obj};
use crate::host::{Error, HostBindings};
use crate::objects::traits::{CurrentLedgerObjectCommonFields, LedgerObjectCommonFields};
use crate::sfield;
use crate::sfield::SField;
use crate::types::account_id::AccountID;
use crate::types::amount::Amount;
use crate::types::blob::PublicKeyBlob;
use crate::types::uint::Hash256;

verus! {

/// Trait providing access to fields specific to PayChannel objects in any ledger.
pub trait PayChannelFields: LedgerObjectCommonFields {
    /// The Account field (Required).
    fn get_account<H: HostBindings>(&self, host: &mut Host<H>) -> (r: Result<AccountID, Error>)
        ensures
            ledger_obj::slot_read::<H, AccountID, 20>(
                *old(host),
                *final(host),
                self.spec_slot_num(),
                sfield::Account::spec_code(),
                r,
            ),
    {
        ledger_obj::get_field(host, self.get_slot_num(), sfield::Account)
    }

    /// The Destination field (Required).
    fn get_destination<H: HostBindings>(&self, host: &mut Host<H>) -> (r: Result<AccountID, Error>)
        ensures
            ledger_obj::slot_read::<H, AccountID, 20>(
                *old(host),
                *final(host),
                self.spec_slot_num(),
                sfield::Destination::spec_code(),
                r,
            ),
    {
        ledger_obj::get_field(host, self.get_slot_num(), sfield::Destination)
    }

    /// The Sequence field (Optional).
    fn get_sequence<H: HostBindings>(&self, host: &mut Host<H>) -> (r: Result<Option<u32>, Error>)
        ensures
            ledger_obj::slot_read_optional::<H, u32, 4>(
                *old(host),
                *final(host),
                self.spec_slot_num(),
                sfield::Sequence::spec_code(),
                r,
            ),
    {
        ledger_obj::get_field_optional(host, self.get_slot_num(), sfield::Sequence)
    }

    /// The Amount field (Required).
    fn get_amount<H: HostBindings>(&self, host: &mut Host<H>) -> (r: Result<Amount, Error>)
        ensures
            ledger_obj::slot_read::<H, Amount, 48>(
                *old(host),
                *final(host),
                self.spec_slot_num(),
                sfield::Amount::spec_code(),
                r,
            ),
    {
        ledger_obj::get_field(host, self.get_slot_num(), sfield::Amount)
    }

    /// The Balance field (Required).
    fn get_balance<H: HostBindings>(&self, host: &mut Host<H>) -> (r: Result<Amount, Error>)
        ensures
            ledger_obj::slot_read::<H, Amount, 48>(
                *old(host),
                *final(host),
                self.spec_slot_num(),
                sfield::Balance::spec_code(),
                r,
            ),
    {
        ledger_obj::get_field(host, self.get_slot_num(), sfield::Balance)
    }

    /// The PublicKey field (Required).
    fn get_public_key<H: HostBindings>(&self, host: &mut Host<H>) -> (r: Result<PublicKeyBlob, Error>)
        ensures
            ledger_obj::slot_read::<H, PublicKeyBlob, 33>(
                *old(host),
                *final(host),
                self.spec_slot_num(),
                sfield::PublicKey::spec_code(),
                r,
            ),
    {
        ledger_obj::get_field(host, self.get_slot_num(), sfield::PublicKey)
    }

    /// The SettleDelay field (Required).
    fn get_settle_delay<H: HostBindings>(&self, host: &mut Host<H>) -> (r: Result<u32, Error>)
        ensures
            ledger_obj::slot_read::<H, u32, 4>(
                *old(host),
                *final(host),
                self.spec_slot_num(),
                sfield::SettleDelay::spec_code(),
                r,
            ),
    {
        ledger_obj::get_field(host, self.get_slot_num(), sfield::SettleDelay)
    }

    /// The Expiration field (Optional).
    fn get_expiration<H: HostBindings>(&self, host: &mut Host<H>) -> (r: Result<Option<u32>, Error>)
        ensures
            ledger_obj::slot_read_optional::<H, u32, 4>(
                *old(host),
                *final(host),
                self.spec_slot_num(),
                sfield::Expiration::spec_code(),
                r,
            ),
    {
        ledger_obj::get_field_optional(host, self.get_slot_num(), sfield::Expiration)
    }

    /// The CancelAfter field (Optional).
    fn get_cancel_after<H: HostBindings>(&self, host: &mut Host<H>) -> (r: Result<Option<u32>, Error>)
        ensures
            ledger_obj::slot_read_optional::<H, u32, 4>(
                *old(host),
                *final(host),
                self.spec_slot_num(),
                sfield::CancelAfter::spec_code(),
                r,
            ),
    {
        ledger_obj::get_field_optional(host, self.get_slot_num(), sfield::CancelAfter)
    }

    /// The SourceTag field (Optional).
    fn get_source_tag<H: HostBindings>(&self, host: &mut Host<H>) -> (r: Result<Option<u32>, Error>)
        ensures
            ledger_obj::slot_read_optional::<H, u32, 4>(
                *old(host),
                *final(host),
                self.spec_slot_num(),
                sfield::SourceTag::spec_code(),
                r,
            ),
    {
        ledger_obj::get_field_optional(host, self.get_slot_num(), sfield::SourceTag)
    }

    /// The DestinationTag field (Optional).
    fn get_destination_tag<H: HostBindings>(&self, host: &mut Host<H>) -> (r: Result<Option<u32>, Error>)
        ensures
            ledger_obj::slot_read_optional::<H, u32, 4>(
                *old(host),
                *final(host),
                self.spec_slot_num(),
                sfield::DestinationTag::spec_code(),
                r,
            ),
    {
        ledger_obj::get_field_optional(host, self.get_slot_num(), sfield::DestinationTag)
    }

    /// A hint indicating which page of the owner's directory links to this entry, in case the
    /// directory consists of multiple pages.
    fn get_owner_node<H: HostBindings>(&self, host: &mut Host<H>) -> (r: Result<u64, Error>)
        ensures
            ledger_obj::slot_read::<H, u64, 8>(
                *old(host),
                *final(host),
                self.spec_slot_num(),
                sfield::OwnerNode::spec_code(),
                r,
            ),
    {
        ledger_obj::get_field(host, self.get_slot_num(), sfield::OwnerNode)
    }

    /// The identifying hash of the transaction that most recently modified this entry.
    fn get_previous_txn_id<H: HostBindings>(&self, host: &mut Host<H>) -> (r: Result<Hash256, Error>)
        ensures
            ledger_obj::slot_read::<H, Hash256, 32>(
                *old(host),
                *final(host),
                self.spec_slot_num(),
                sfield::PreviousTxnID::spec_code(),
                r,
            ),
    {
        ledger_obj::get_field(host, self.get_slot_num(), sfield::PreviousTxnID)
    }

    /// The index of the ledger that contains the transaction that most recently modified this
    /// entry.
    fn get_previous_txn_lgr_seq<H: HostBindings>(&self, host: &mut Host<H>) -> (r: Result<u32, Error>)
        ensures
            ledger_obj::slot_read::<H, u32, 4>(
                *old(host),
                *final(host),
                self.spec_slot_num(),
                sfield::PreviousTxnLgrSeq::spec_code(),
                r,
            ),
    {
        ledger_obj::get_field(host, self.get_slot_num(), sfield::PreviousTxnLgrSeq)
    }

    /// The DestinationNode field (Optional).
    fn get_destination_node<H: HostBindings>(&self, host: &mut Host<H>) -> (r: Result<Option<u64>, Error>)
        ensures
            ledger_obj::slot_read_optional::<H, u64, 8>(
                *old(host),
                *final(host),
                self.spec_slot_num(),
                sfield::DestinationNode::spec_code(),
                r,
            ),
    {
        ledger_obj::get_field_optional(host, self.get_slot_num(), sfield::DestinationNode)
    }
}

/// Trait providing access to fields specific to the current PayChannel object.
pub trait CurrentPayChannelFields: CurrentLedgerObjectCommonFields {
    /// The Account field (Required).
    fn get_account<H: HostBindings>(&self, host: &mut Host<H>) -> (r: Result<AccountID, Error>)
        ensures
            current_ledger_obj::home_read::<H, AccountID, 20>(
                *old(host),
                *final(host),
                sfield::Account::spec_code(),
                r,
            ),
    {
        current_ledger_obj::get_field(host, sfield::Account)
    }

    /// The Destination field (Required).
    fn get_destination<H: HostBindings>(&self, host: &mut Host<H>) -> (r: Result<AccountID, Error>)
        ensures
            current_ledger_obj::home_read::<H, AccountID, 20>(
                *old(host),
                *final(host),
                sfield::Destination::spec_code(),
                r,
            ),
    {
        current_ledger_obj::get_field(host, sfield::Destination)
    }

    /// The Sequence field (Optional).
    fn get_sequence<H: HostBindings>(&self, host: &mut Host<H>) -> (r: Result<Option<u32>, Error>)
        ensures
            current_ledger_obj::home_read_optional::<H, u32, 4>(
                *old(host),
                *final(host),
                sfield::Sequence::spec_code(),
                r,
            ),
    {
        current_ledger_obj::get_field_optional(host, sfield::Sequence)
    }

    /// The Amount field (Required).
    fn get_amount<H: HostBindings>(&self, host: &mut Host<H>) -> (r: Result<Amount, Error>)
        ensures
            current_ledger_obj::home_read::<H, Amount, 48>(*old(host), *final(host), sfield::Amount::spec_code(), r),
    {
        current_ledger_obj::get_field(host, sfield::Amount)
    }

    /// The Balance field (Required).
    fn get_balance<H: HostBindings>(&self, host: &mut Host<H>) -> (r: Result<Amount, Error>)
        ensures
            current_ledger_obj::home_read::<H, Amount, 48>(*old(host), *final(host), sfield::Balance::spec_code(), r),
    {
        current_ledger_obj::get_field(host, sfield::Balance)
    }

    /// The PublicKey field (Required).
    fn get_public_key<H: HostBindings>(&self, host: &mut Host<H>) -> (r: Result<PublicKeyBlob, Error>)
        ensures
            current_ledger_obj::home_read::<H, PublicKeyBlob, 33>(
                *old(host),
                *final(host),
                sfield::PublicKey::spec_code(),
                r,
            ),
    {
        current_ledger_obj::get_field(host, sfield::PublicKey)
    }

    /// The SettleDelay field (Required).
    fn get_settle_delay<H: HostBindings>(&self, host: &mut Host<H>) -> (r: Result<u32, Error>)
        ensures
            current_ledger_obj::home_read::<H, u32, 4>(*old(host), *final(host), sfield::SettleDelay::spec_code(), r),
    {
        current_ledger_obj::get_field(host, sfield::SettleDelay)
    }

    /// The Expiration field (Optional).
    fn get_expiration<H: HostBindings>(&self, host: &mut Host<H>) -> (r: Result<Option<u32>, Error>)
        ensures
            current_ledger_obj::home_read_optional::<H, u32, 4>(
                *old(host),
                *final(host),
                sfield::Expiration::spec_code(),
                r,
            ),
    {
        current_ledger_obj::get_field_optional(host, sfield::Expiration)
    }

    /// The CancelAfter field (Optional).
    fn get_cancel_after<H: HostBindings>(&self, host: &mut Host<H>) -> (r: Result<Option<u32>, Error>)
        ensures
            current_ledger_obj::home_read_optional::<H, u32, 4>(
                *old(host),
                *final(host),
                sfield::CancelAfter::spec_code(),
                r,
            ),
    {
        current_ledger_obj::get_field_optional(host, sfield::CancelAfter)
    }

    /// The SourceTag field (Optional).
    fn get_source_tag<H: HostBindings>(&self, host: &mut Host<H>) -> (r: Result<Option<u32>, Error>)
        ensures
            current_ledger_obj::home_read_optional::<H, u32, 4>(
                *old(host),
                *final(host),
                sfield::SourceTag::spec_code(),
                r,
            ),
    {
        current_ledger_obj::get_field_optional(host, sfield::SourceTag)
    }

    /// The DestinationTag field (Optional).
    fn get_destination_tag<H: HostBindings>(&self, host: &mut Host<H>) -> (r: Result<Option<u32>, Error>)
        ensures
            current_ledger_obj::home_read_optional::<H, u32, 4>(
                *old(host),
                *final(host),
                sfield::DestinationTag::spec_code(),
                r,
            ),
    {
        current_ledger_obj::get_field_optional(host, sfield::DestinationTag)
    }

    /// A hint indicating which page of the owner's directory links to this entry, in case the
    /// directory consists of multiple pages.
    fn get_owner_node<H: HostBindings>(&self, host: &mut Host<H>) -> (r: Result<u64, Error>)
        ensures
            current_ledger_obj::home_read::<H, u64, 8>(*old(host), *final(host), sfield::OwnerNode::spec_code(), r),
    {
        current_ledger_obj::get_field(host, sfield::OwnerNode)
    }

    /// The identifying hash of the transaction that most recently modified this entry.
    fn get_previous_txn_id<H: HostBindings>(&self, host: &mut Host<H>) -> (r: Result<Hash256, Error>)
        ensures
            current_ledger_obj::home_read::<H, Hash256, 32>(
                *old(host),
                *final(host),
                sfield::PreviousTxnID::spec_code(),
                r,
            ),
    {
        current_ledger_obj::get_field(host, sfield::PreviousTxnID)
    }

    /// The index of the ledger that contains the transaction that most recently modified this
    /// entry.
    fn get_previous_txn_lgr_seq<H: HostBindings>(&self, host: &mut Host<H>) -> (r: Result<u32, Error>)
        ensures
            current_ledger_obj::home_read::<H, u32, 4>(
                *old(host),
                *final(host),
                sfield::PreviousTxnLgrSeq::spec_code(),
                r,
            ),
    {
        current_ledger_obj::get_field(host, sfield::PreviousTxnLgrSeq)
    }

    /// The DestinationNode field (Optional).
    fn get_destination_node<H: HostBindings>(&self, host: &mut Host<H>) -> (r: Result<Option<u64>, Error>)
        ensures
            current_ledger_obj::home_read_optional::<H, u64, 8>(
                *old(host),
                *final(host),
                sfield::DestinationNode::spec_code(),
                r,
            ),
    {
        current_ledger_obj::get_field_optional(host, sfield::DestinationNode)
    }
}

/// A handle to a PayChannel object cached in a host slot.
#[derive(Debug, Clone, Copy, PartialEq, Eq, Structural)]
pub struct PayChannel {
    pub slot_num: i32,
}

impl PayChannel {
    /// Wraps the slot a PayChannel object is cached in.
    pub fn new(slot_num: i32) -> (r: PayChannel)
        ensures
            r.slot_num == slot_num,
    {
        PayChannel { slot_num }
    }
}

impl LedgerObjectCommonFields for PayChannel {
    open spec fn spec_slot_num(&self) -> i32 {
        self.slot_num
    }

    fn get_slot_num(&self) -> (r: i32) {
        assert(self.spec_slot_num() == self.slot_num);
        self.slot_num
    }
}

impl PayChannelFields for PayChannel {

}

} // verus!
