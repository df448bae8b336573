//! The `Delegate` ledger object: typed accessors for its fields.

use vstd::prelude::*;
use crate::host::calls::Host;
use crate::fields::{current_ledger_obj, ledger_obj};
use crate::host::{Error, HostBindings};
use crate::objects::traits::{CurrentLedgerObjectCommonFields, LedgerObjectCommonFields};
use crate::sfield;
use crate::sfield::SField;
use crate::types::account_id::AccountID;
use crate::types::uint::Hash256;

verus! {

/// Trait providing access to fields specific to Delegate objects in any ledger.
pub trait DelegateFields: LedgerObjectCommonFields {
    /// The account delegating permissions to another, also called the _delegating account_.
    fn account<H: HostBindings>(&self, host: &mut Host<H>) -> (r: Result<AccountID, Error>)
        ensures
            ledger_obj::slot_read::<H, AccountID, 20>(
                *old(host),
                *final(host),
                self.spec_slot_num(),
                sfield::Account::spec_code(),
                r,
            ),
    {
        ledger_obj::get_field(host, self.get_slot_num(), sfield::Account)
    }

    /// The account receiving permissions, also called the _delegate_.
    fn authorize<H: HostBindings>(&self, host: &mut Host<H>) -> (r: Result<AccountID, Error>)
        ensures
            ledger_obj::slot_read::<H, AccountID, 20>(
                *old(host),
                *final(host),
                self.spec_slot_num(),
                sfield::Authorize::spec_code(),
                r,
            ),
    {
        ledger_obj::get_field(host, self.get_slot_num(), sfield::Authorize)
    }

    /// A hint indicating which page of the delegating account's owner directory links to this
    /// object, in case the directory consists of multiple pages.
    fn owner_node<H: HostBindings>(&self, host: &mut Host<H>) -> (r: Result<u64, Error>)
        ensures
            ledger_obj::slot_read::<H, u64, 8>(
                *old(host),
                *final(host),
                self.spec_slot_num(),
                sfield::OwnerNode::spec_code(),
                r,
            ),
    {
        ledger_obj::get_field(host, self.get_slot_num(), sfield::OwnerNode)
    }

    /// A hint indicating which page of the delegate's owner directory links to this object, in case
    /// the directory consists of multiple pages.
    fn destination_node<H: HostBindings>(&self, host: &mut Host<H>) -> (r: Result<Option<u64>, Error>)
        ensures
            ledger_obj::slot_read_optional::<H, u64, 8>(
                *old(host),
                *final(host),
                self.spec_slot_num(),
                sfield::DestinationNode::spec_code(),
                r,
            ),
    {
        ledger_obj::get_field_optional(host, self.get_slot_num(), sfield::DestinationNode)
    }

    /// The identifying hash of the transaction that most recently modified this object.
    fn previous_txn_id<H: HostBindings>(&self, host: &mut Host<H>) -> (r: Result<Hash256, Error>)
        ensures
            ledger_obj::slot_read::<H, Hash256, 32>(
                *old(host),
                *final(host),
                self.spec_slot_num(),
                sfield::PreviousTxnID::spec_code(),
                r,
            ),
    {
        ledger_obj::get_field(host, self.get_slot_num(), sfield::PreviousTxnID)
    }

    /// The index of the ledger that contains the transaction that most recently modified this
    /// object.
    fn previous_txn_lgr_seq<H: HostBindings>(&self, host: &mut Host<H>) -> (r: Result<u32, Error>)
        ensures
            ledger_obj::slot_read::<H, u32, 4>(
                *old(host),
                *final(host),
                self.spec_slot_num(),
                sfield::PreviousTxnLgrSeq::spec_code(),
                r,
            ),
    {
        ledger_obj::get_field(host, self.get_slot_num(), sfield::PreviousTxnLgrSeq)
    }
}

/// Trait providing access to fields specific to the current Delegate object.
pub trait CurrentDelegateFields: CurrentLedgerObjectCommonFields {
    /// The account delegating permissions to another, also called the _delegating account_.
    fn account<H: HostBindings>(&self, host: &mut Host<H>) -> (r: Result<AccountID, Error>)
        ensures
            current_ledger_obj::home_read::<H, AccountID, 20>(
                *old(host),
                *final(host),
                sfield::Account::spec_code(),
                r,
            ),
    {
        current_ledger_obj::get_field(host, sfield::Account)
    }

    /// The account receiving permissions, also called the _delegate_.
    fn authorize<H: HostBindings>(&self, host: &mut Host<H>) -> (r: Result<AccountID, Error>)
        ensures
            current_ledger_obj::home_read::<H, AccountID, 20>(
                *old(host),
                *final(host),
                sfield::Authorize::spec_code(),
                r,
            ),
    {
        current_ledger_obj::get_field(host, sfield::Authorize)
    }

    /// A hint indicating which page of the delegating account's owner directory links to this
    /// object, in case the directory consists of multiple pages.
    fn owner_node<H: HostBindings>(&self, host: &mut Host<H>) -> (r: Result<u64, Error>)
        ensures
            current_ledger_obj::home_read::<H, u64, 8>(*old(host), *final(host), sfield::OwnerNode::spec_code(), r),
    {
        current_ledger_obj::get_field(host, sfield::OwnerNode)
    }

    /// A hint indicating which page of the delegate's owner directory links to this object, in case
    /// the directory consists of multiple pages.
    fn destination_node<H: HostBindings>(&self, host: &mut Host<H>) -> (r: Result<Option<u64>, Error>)
        ensures
            current_ledger_obj::home_read_optional::<H, u64, 8>(
                *old(host),
                *final(host),
                sfield::DestinationNode::spec_code(),
                r,
            ),
    {
        current_ledger_obj::get_field_optional(host, sfield::DestinationNode)
    }

    /// The identifying hash of the transaction that most recently modified this object.
    fn previous_txn_id<H: HostBindings>(&self, host: &mut Host<H>) -> (r: Result<Hash256, Error>)
        ensures
            current_ledger_obj::home_read::<H, Hash256, 32>(
                *old(host),
                *final(host),
                sfield::PreviousTxnID::spec_code(),
                r,
            ),
    {
        current_ledger_obj::get_field(host, sfield::PreviousTxnID)
    }

    /// The index of the ledger that contains the transaction that most recently modified this
    /// object.
    fn previous_txn_lgr_seq<H: HostBindings>(&self, host: &mut Host<H>) -> (r: Result<u32, Error>)
        ensures
            current_ledger_obj::home_read::<H, u32, 4>(
                *old(host),
                *final(host),
                sfield::PreviousTxnLgrSeq::spec_code(),
                r,
            ),
    {
        current_ledger_obj::get_field(host, sfield::PreviousTxnLgrSeq)
    }
}

/// A handle to a Delegate object cached in a host slot.
#[derive(Debug, Clone, Copy, PartialEq, Eq, Structural)]
pub struct Delegate {
    pub slot_num: i32,
}

impl Delegate {
    /// Wraps the slot a Delegate object is cached in.
    pub fn new(slot_num: i32) -> (r: Delegate)
        ensures
            r.slot_num == slot_num,
    {
        Delegate { slot_num }
    }
}

impl LedgerObjectCommonFields for Delegate {
    open spec fn spec_slot_num(&self) -> i32 {
        self.slot_num
    }

    fn get_slot_num(&self) -> (r: i32) {
        assert(self.spec_slot_num() == self.slot_num);
        self.slot_num
    }
}

impl DelegateFields for Delegate {

}

} // verus!
