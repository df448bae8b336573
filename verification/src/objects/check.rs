//! The `Check` ledger object: typed accessors for its fields.

use vstd::prelude::*;
use crate::host::calls::Host;
use crate::fields::{current_ledger_obj, ledger_obj};
use crate::host::{Error, HostBindings};
use crate::objects::traits::{CurrentLedgerObjectCommonFields, LedgerObjectCommonFields};
use crate::sfield;
use crate::sfield::SField;
use crate::types::account_id::AccountID;
use crate::types::amount::Amount;
use crate::types::uint::Hash256;

verus! {

/// Trait providing access to fields specific to Check objects in any ledger.
pub trait CheckFields: LedgerObjectCommonFields {
    /// The sender of the Check. Cashing the Check debits this address's balance.
    fn account<H: HostBindings>(&self, host: &mut Host<H>) -> (r: Result<AccountID, Error>)
        ensures
            ledger_obj::slot_read::<H, AccountID, 20>(
                *old(host),
                *final(host),
                self.spec_slot_num(),
                sfield::Account::spec_code(),
                r,
            ),
    {
        ledger_obj::get_field(host, self.get_slot_num(), sfield::Account)
    }

    /// The intended recipient of the Check. Only this address can cash the Check, using a [CheckCash transaction][].
    fn destination<H: HostBindings>(&self, host: &mut Host<H>) -> (r: Result<AccountID, Error>)
        ensures
            ledger_obj::slot_read::<H, AccountID, 20>(
                *old(host),
                *final(host),
                self.spec_slot_num(),
                sfield::Destination::spec_code(),
                r,
            ),
    {
        ledger_obj::get_field(host, self.get_slot_num(), sfield::Destination)
    }

    /// The maximum amount of currency this Check can debit the sender. If the Check is successfully cashed, the destination is credited in the same currency for up to this amount.
    fn send_max<H: HostBindings>(&self, host: &mut Host<H>) -> (r: Result<Amount, Error>)
        ensures
            ledger_obj::slot_read::<H, Amount, 48>(
                *old(host),
                *final(host),
                self.spec_slot_num(),
                sfield::SendMax::spec_code(),
                r,
            ),
    {
        ledger_obj::get_field(host, self.get_slot_num(), sfield::SendMax)
    }

    /// The sequence number of the [CheckCreate transaction][] that created this check.
    fn sequence<H: HostBindings>(&self, host: &mut Host<H>) -> (r: Result<u32, Error>)
        ensures
            ledger_obj::slot_read::<H, u32, 4>(
                *old(host),
                *final(host),
                self.spec_slot_num(),
                sfield::Sequence::spec_code(),
                r,
            ),
    {
        ledger_obj::get_field(host, self.get_slot_num(), sfield::Sequence)
    }

    /// A hint indicating which page of the sender's owner directory links to this object, in case the directory consists of multiple pages.
    fn owner_node<H: HostBindings>(&self, host: &mut Host<H>) -> (r: Result<u64, Error>)
        ensures
            ledger_obj::slot_read::<H, u64, 8>(
                *old(host),
                *final(host),
                self.spec_slot_num(),
                sfield::OwnerNode::spec_code(),
                r,
            ),
    {
        ledger_obj::get_field(host, self.get_slot_num(), sfield::OwnerNode)
    }

    /// A hint indicating which page of the destination's owner directory links to this object, in case the directory consists of multiple pages.
    fn destination_node<H: HostBindings>(&self, host: &mut Host<H>) -> (r: Result<u64, Error>)
        ensures
            ledger_obj::slot_read::<H, u64, 8>(
                *old(host),
                *final(host),
                self.spec_slot_num(),
                sfield::DestinationNode::spec_code(),
                r,
            ),
    {
        ledger_obj::get_field(host, self.get_slot_num(), sfield::DestinationNode)
    }

    /// Indicates the time after which this Check is considered expired. See [Specifying Time][] for details.
    fn expiration<H: HostBindings>(&self, host: &mut Host<H>) -> (r: Result<Option<u32>, Error>)
        ensures
            ledger_obj::slot_read_optional::<H, u32, 4>(
                *old(host),
                *final(host),
                self.spec_slot_num(),
                sfield::Expiration::spec_code(),
                r,
            ),
    {
        ledger_obj::get_field_optional(host, self.get_slot_num(), sfield::Expiration)
    }

    /// Arbitrary 256-bit hash provided by the sender as a specific reason or identifier for this Check.
    fn invoice_id<H: HostBindings>(&self, host: &mut Host<H>) -> (r: Result<Option<Hash256>, Error>)
        ensures
            ledger_obj::slot_read_optional::<H, Hash256, 32>(
                *old(host),
                *final(host),
                self.spec_slot_num(),
                sfield::InvoiceID::spec_code(),
                r,
            ),
    {
        ledger_obj::get_field_optional(host, self.get_slot_num(), sfield::InvoiceID)
    }

    /// An arbitrary tag to further specify the source for this Check, such as a hosted recipient at the sender's address.
    fn source_tag<H: HostBindings>(&self, host: &mut Host<H>) -> (r: Result<Option<u32>, Error>)
        ensures
            ledger_obj::slot_read_optional::<H, u32, 4>(
                *old(host),
                *final(host),
                self.spec_slot_num(),
                sfield::SourceTag::spec_code(),
                r,
            ),
    {
        ledger_obj::get_field_optional(host, self.get_slot_num(), sfield::SourceTag)
    }

    /// An arbitrary tag to further specify the destination for this Check, such as a hosted recipient at the destination address.
    fn destination_tag<H: HostBindings>(&self, host: &mut Host<H>) -> (r: Result<Option<u32>, Error>)
        ensures
            ledger_obj::slot_read_optional::<H, u32, 4>(
                *old(host),
                *final(host),
                self.spec_slot_num(),
                sfield::DestinationTag::spec_code(),
                r,
            ),
    {
        ledger_obj::get_field_optional(host, self.get_slot_num(), sfield::DestinationTag)
    }

    /// The identifying hash of the transaction that most recently modified this object.
    fn previous_txn_id<H: HostBindings>(&self, host: &mut Host<H>) -> (r: Result<Hash256, Error>)
        ensures
            ledger_obj::slot_read::<H, Hash256, 32>(
                *old(host),
                *final(host),
                self.spec_slot_num(),
                sfield::PreviousTxnID::spec_code(),
                r,
            ),
    {
        ledger_obj::get_field(host, self.get_slot_num(), sfield::PreviousTxnID)
    }

    /// The [index of the ledger][Ledger Index] that contains the transaction that most recently modified this object.
    fn previous_txn_lgr_seq<H: HostBindings>(&self, host: &mut Host<H>) -> (r: Result<u32, Error>)
        ensures
            ledger_obj::slot_read::<H, u32, 4>(
                *old(host),
                *final(host),
                self.spec_slot_num(),
                sfield::PreviousTxnLgrSeq::spec_code(),
                r,
            ),
    {
        ledger_obj::get_field(host, self.get_slot_num(), sfield::PreviousTxnLgrSeq)
    }
}

/// Trait providing access to fields specific to the current Check object.
pub trait CurrentCheckFields: CurrentLedgerObjectCommonFields {
    /// The sender of the Check. Cashing the Check debits this address's balance.
    fn account<H: HostBindings>(&self, host: &mut Host<H>) -> (r: Result<AccountID, Error>)
        ensures
            current_ledger_obj::home_read::<H, AccountID, 20>(
                *old(host),
                *final(host),
                sfield::Account::spec_code(),
                r,
            ),
    {
        current_ledger_obj::get_field(host, sfield::Account)
    }

    /// The intended recipient of the Check. Only this address can cash the Check, using a [CheckCash transaction][].
    fn destination<H: HostBindings>(&self, host: &mut Host<H>) -> (r: Result<AccountID, Error>)
        ensures
            current_ledger_obj::home_read::<H, AccountID, 20>(
                *old(host),
                *final(host),
                sfield::Destination::spec_code(),
                r,
            ),
    {
        current_ledger_obj::get_field(host, sfield::Destination)
    }

    /// The maximum amount of currency this Check can debit the sender. If the Check is successfully cashed, the destination is credited in the same currency for up to this amount.
    fn send_max<H: HostBindings>(&self, host: &mut Host<H>) -> (r: Result<Amount, Error>)
        ensures
            current_ledger_obj::home_read::<H, Amount, 48>(*old(host), *final(host), sfield::SendMax::spec_code(), r),
    {
        current_ledger_obj::get_field(host, sfield::SendMax)
    }

    /// The sequence number of the [CheckCreate transaction][] that created this check.
    fn sequence<H: HostBindings>(&self, host: &mut Host<H>) -> (r: Result<u32, Error>)
        ensures
            current_ledger_obj::home_read::<H, u32, 4>(*old(host), *final(host), sfield::Sequence::spec_code(), r),
    {
        current_ledger_obj::get_field(host, sfield::Sequence)
    }

    /// A hint indicating which page of the sender's owner directory links to this object, in case the directory consists of multiple pages.
    fn owner_node<H: HostBindings>(&self, host: &mut Host<H>) -> (r: Result<u64, Error>)
        ensures
            current_ledger_obj::home_read::<H, u64, 8>(*old(host), *final(host), sfield::OwnerNode::spec_code(), r),
    {
        current_ledger_obj::get_field(host, sfield::OwnerNode)
    }

    /// A hint indicating which page of the destination's owner directory links to this object, in case the directory consists of multiple pages.
    fn destination_node<H: HostBindings>(&self, host: &mut Host<H>) -> (r: Result<u64, Error>)
        ensures
            current_ledger_obj::home_read::<H, u64, 8>(
                *old(host),
                *final(host),
                sfield::DestinationNode::spec_code(),
                r,
            ),
    {
        current_ledger_obj::get_field(host, sfield::DestinationNode)
    }

    /// Indicates the time after which this Check is considered expired. See [Specifying Time][] for details.
    fn expiration<H: HostBindings>(&self, host: &mut Host<H>) -> (r: Result<Option<u32>, Error>)
        ensures
            current_ledger_obj::home_read_optional::<H, u32, 4>(
                *old(host),
                *final(host),
                sfield::Expiration::spec_code(),
                r,
            ),
    {
        current_ledger_obj::get_field_optional(host, sfield::Expiration)
    }

    /// Arbitrary 256-bit hash provided by the sender as a specific reason or identifier for this Check.
    fn invoice_id<H: HostBindings>(&self, host: &mut Host<H>) -> (r: Result<Option<Hash256>, Error>)
        ensures
            current_ledger_obj::home_read_optional::<H, Hash256, 32>(
                *old(host),
                *final(host),
                sfield::InvoiceID::spec_code(),
                r,
            ),
    {
        current_ledger_obj::get_field_optional(host, sfield::InvoiceID)
    }

    /// An arbitrary tag to further specify the source for this Check, such as a hosted recipient at the sender's address.
    fn source_tag<H: HostBindings>(&self, host: &mut Host<H>) -> (r: Result<Option<u32>, Error>)
        ensures
            current_ledger_obj::home_read_optional::<H, u32, 4>(
                *old(host),
                *final(host),
                sfield::SourceTag::spec_code(),
                r,
            ),
    {
        current_ledger_obj::get_field_optional(host, sfield::SourceTag)
    }

    /// An arbitrary tag to further specify the destination for this Check, such as a hosted recipient at the destination address.
    fn destination_tag<H: HostBindings>(&self, host: &mut Host<H>) -> (r: Result<Option<u32>, Error>)
        ensures
            current_ledger_obj::home_read_optional::<H, u32, 4>(
                *old(host),
                *final(host),
                sfield::DestinationTag::spec_code(),
                r,
            ),
    {
        current_ledger_obj::get_field_optional(host, sfield::DestinationTag)
    }

    /// The identifying hash of the transaction that most recently modified this object.
    fn previous_txn_id<H: HostBindings>(&self, host: &mut Host<H>) -> (r: Result<Hash256, Error>)
        ensures
            current_ledger_obj::home_read::<H, Hash256, 32>(
                *old(host),
                *final(host),
                sfield::PreviousTxnID::spec_code(),
                r,
            ),
    {
        current_ledger_obj::get_field(host, sfield::PreviousTxnID)
    }

    /// The [index of the ledger][Ledger Index] that contains the transaction that most recently modified this object.
    fn previous_txn_lgr_seq<H: HostBindings>(&self, host: &mut Host<H>) -> (r: Result<u32, Error>)
        ensures
            current_ledger_obj::home_read::<H, u32, 4>(
                *old(host),
                *final(host),
                sfield::PreviousTxnLgrSeq::spec_code(),
                r,
            ),
    {
        current_ledger_obj::get_field(host, sfield::PreviousTxnLgrSeq)
    }
}

/// A handle to a Check object cached in a host slot.
#[derive(Debug, Clone, Copy, PartialEq, Eq, Structural)]
pub struct Check {
    pub slot_num: i32,
}

impl Check {
    /// Wraps the slot a Check object is cached in.
    pub fn new(slot_num: i32) -> (r: Check)
        ensures
            r.slot_num == slot_num,
    {
        Check { slot_num }
    }
}

impl LedgerObjectCommonFields for Check {
    open spec fn spec_slot_num(&self) -> i32 {
        self.slot_num
    }

    fn get_slot_num(&self) -> (r: i32) {
        assert(self.spec_slot_num() == self.slot_num);
        self.slot_num
    }
}

impl CheckFields for Check {

}

} // verus!
