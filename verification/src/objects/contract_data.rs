//! The `ContractData` ledger object: typed accessors for its fields.

use vstd::prelude::*;
use crate::host::calls::Host;
use crate::fields::{current_ledger_obj, ledger_obj};
use crate::host::{Error, HostBindings};
use crate::objects::traits::{CurrentLedgerObjectCommonFields, LedgerObjectCommonFields};
use crate::sfield;
use crate::sfield::SField;
use crate::types::account_id::AccountID;
use crate::types::uint::Hash256;

verus! {

/// Trait providing access to fields specific to ContractData objects in any ledger.
pub trait ContractDataFields: LedgerObjectCommonFields {
    /// The PreviousTxnID field (Required).
    fn previous_txn_id<H: HostBindings>(&self, host: &mut Host<H>) -> (r: Result<Hash256, Error>)
        ensures
            ledger_obj::slot_read::<H, Hash256, 32>(
                *old(host),
                *final(host),
                self.spec_slot_num(),
                sfield::PreviousTxnID::spec_code(),
                r,
            ),
    {
        ledger_obj::get_field(host, self.get_slot_num(), sfield::PreviousTxnID)
    }

    /// The PreviousTxnLgrSeq field (Required).
    fn previous_txn_lgr_seq<H: HostBindings>(&self, host: &mut Host<H>) -> (r: Result<u32, Error>)
        ensures
            ledger_obj::slot_read::<H, u32, 4>(
                *old(host),
                *final(host),
                self.spec_slot_num(),
                sfield::PreviousTxnLgrSeq::spec_code(),
                r,
            ),
    {
        ledger_obj::get_field(host, self.get_slot_num(), sfield::PreviousTxnLgrSeq)
    }

    /// The OwnerNode field (Required).
    fn owner_node<H: HostBindings>(&self, host: &mut Host<H>) -> (r: Result<u64, Error>)
        ensures
            ledger_obj::slot_read::<H, u64, 8>(
                *old(host),
                *final(host),
                self.spec_slot_num(),
                sfield::OwnerNode::spec_code(),
                r,
            ),
    {
        ledger_obj::get_field(host, self.get_slot_num(), sfield::OwnerNode)
    }

    /// The Owner field (Required).
    fn owner<H: HostBindings>(&self, host: &mut Host<H>) -> (r: Result<AccountID, Error>)
        ensures
            ledger_obj::slot_read::<H, AccountID, 20>(
                *old(host),
                *final(host),
                self.spec_slot_num(),
                sfield::Owner::spec_code(),
                r,
            ),
    {
        ledger_obj::get_field(host, self.get_slot_num(), sfield::Owner)
    }

    /// The ContractAccount field (Required).
    fn contract_account<H: HostBindings>(&self, host: &mut Host<H>) -> (r: Result<AccountID, Error>)
        ensures
            ledger_obj::slot_read::<H, AccountID, 20>(
                *old(host),
                *final(host),
                self.spec_slot_num(),
                sfield::ContractAccount::spec_code(),
                r,
            ),
    {
        ledger_obj::get_field(host, self.get_slot_num(), sfield::ContractAccount)
    }

    /// The ContractJson field (Required).
    /// Raw bytes; JSON is not yet typed in Rust.
    fn contract_json<H: HostBindings>(&self, host: &mut Host<H>) -> (r: Result<[u8; 512], Error>)
        ensures
            ledger_obj::slot_raw_read(
                *old(host),
                *final(host),
                self.spec_slot_num(),
                sfield::ContractJson::spec_code(),
                r,
            ),
    {
        ledger_obj::get_raw_field(host, self.get_slot_num(), sfield::ContractJson)
    }
}

/// Trait providing access to fields specific to the current ContractData object.
pub trait CurrentContractDataFields: CurrentLedgerObjectCommonFields {
    /// The PreviousTxnID field (Required).
    fn previous_txn_id<H: HostBindings>(&self, host: &mut Host<H>) -> (r: Result<Hash256, Error>)
        ensures
            current_ledger_obj::home_read::<H, Hash256, 32>(
                *old(host),
                *final(host),
                sfield::PreviousTxnID::spec_code(),
                r,
            ),
    {
        current_ledger_obj::get_field(host, sfield::PreviousTxnID)
    }

    /// The PreviousTxnLgrSeq field (Required).
    fn previous_txn_lgr_seq<H: HostBindings>(&self, host: &mut Host<H>) -> (r: Result<u32, Error>)
        ensures
            current_ledger_obj::home_read::<H, u32, 4>(
                *old(host),
                *final(host),
                sfield::PreviousTxnLgrSeq::spec_code(),
                r,
            ),
    {
        current_ledger_obj::get_field(host, sfield::PreviousTxnLgrSeq)
    }

    /// The OwnerNode field (Required).
    fn owner_node<H: HostBindings>(&self, host: &mut Host<H>) -> (r: Result<u64, Error>)
        ensures
            current_ledger_obj::home_read::<H, u64, 8>(*old(host), *final(host), sfield::OwnerNode::spec_code(), r),
    {
        current_ledger_obj::get_field(host, sfield::OwnerNode)
    }

    /// The Owner field (Required).
    fn owner<H: HostBindings>(&self, host: &mut Host<H>) -> (r: Result<AccountID, Error>)
        ensures
            current_ledger_obj::home_read::<H, AccountID, 20>(*old(host), *final(host), sfield::Owner::spec_code(), r),
    {
        current_ledger_obj::get_field(host, sfield::Owner)
    }

    /// The ContractAccount field (Required).
    fn contract_account<H: HostBindings>(&self, host: &mut Host<H>) -> (r: Result<AccountID, Error>)
        ensures
            current_ledger_obj::home_read::<H, AccountID, 20>(
                *old(host),
                *final(host),
                sfield::ContractAccount::spec_code(),
                r,
            ),
    {
        current_ledger_obj::get_field(host, sfield::ContractAccount)
    }

    /// The ContractJson field (Required).
    /// Raw bytes; JSON is not yet typed in Rust.
    fn contract_json<H: HostBindings>(&self, host: &mut Host<H>) -> (r: Result<[u8; 512], Error>)
        ensures
            current_ledger_obj::home_raw_read(*old(host), *final(host), sfield::ContractJson::spec_code(), r),
    {
        current_ledger_obj::get_raw_field(host, sfield::ContractJson)
    }
}

/// A handle to a ContractData object cached in a host slot.
#[derive(Debug, Clone, Copy, PartialEq, Eq, Structural)]
pub struct ContractData {
    pub slot_num: i32,
}

impl ContractData {
    /// Wraps the slot a ContractData object is cached in.
    pub fn new(slot_num: i32) -> (r: ContractData)
        ensures
            r.slot_num == slot_num,
    {
        ContractData { slot_num }
    }
}

impl LedgerObjectCommonFields for ContractData {
    open spec fn spec_slot_num(&self) -> i32 {
        self.slot_num
    }

    fn get_slot_num(&self) -> (r: i32) {
        assert(self.spec_slot_num() == self.slot_num);
        self.slot_num
    }
}

impl ContractDataFields for ContractData {

}

} // verus!
