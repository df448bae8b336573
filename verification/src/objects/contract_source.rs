//! The `ContractSource` ledger object: typed accessors for its fields.

use vstd::prelude::*;
use crate::host::calls::Host;
use crate::fields::{current_ledger_obj, ledger_obj};
use crate::host::{Error, HostBindings};
use crate::objects::traits::{CurrentLedgerObjectCommonFields, LedgerObjectCommonFields};
use crate::sfield;
use crate::sfield::SField;
use crate::types::blob::StandardBlob;
use crate::types::uint::Hash256;

verus! {

/// Trait providing access to fields specific to ContractSource objects in any ledger.
pub trait ContractSourceFields: LedgerObjectCommonFields {
    /// The PreviousTxnID field (Required).
    fn previous_txn_id<H: HostBindings>(&self, host: &mut Host<H>) -> (r: Result<Hash256, Error>)
        ensures
            ledger_obj::slot_read::<H, Hash256, 32>(
                *old(host),
                *final(host),
                self.spec_slot_num(),
                sfield::PreviousTxnID::spec_code(),
                r,
            ),
    {
        ledger_obj::get_field(host, self.get_slot_num(), sfield::PreviousTxnID)
    }

    /// The PreviousTxnLgrSeq field (Required).
    fn previous_txn_lgr_seq<H: HostBindings>(&self, host: &mut Host<H>) -> (r: Result<u32, Error>)
        ensures
            ledger_obj::slot_read::<H, u32, 4>(
                *old(host),
                *final(host),
                self.spec_slot_num(),
                sfield::PreviousTxnLgrSeq::spec_code(),
                r,
            ),
    {
        ledger_obj::get_field(host, self.get_slot_num(), sfield::PreviousTxnLgrSeq)
    }

    /// The ContractHash field (Required).
    fn contract_hash<H: HostBindings>(&self, host: &mut Host<H>) -> (r: Result<Hash256, Error>)
        ensures
            ledger_obj::slot_read::<H, Hash256, 32>(
                *old(host),
                *final(host),
                self.spec_slot_num(),
                sfield::ContractHash::spec_code(),
                r,
            ),
    {
        ledger_obj::get_field(host, self.get_slot_num(), sfield::ContractHash)
    }

    /// The ContractCode field (Required).
    fn contract_code<H: HostBindings>(&self, host: &mut Host<H>) -> (r: Result<StandardBlob, Error>)
        ensures
            ledger_obj::slot_read::<H, StandardBlob, 1024>(
                *old(host),
                *final(host),
                self.spec_slot_num(),
                sfield::ContractCode::spec_code(),
                r,
            ),
    {
        ledger_obj::get_field(host, self.get_slot_num(), sfield::ContractCode)
    }

    /// The ReferenceCount field (Required).
    fn reference_count<H: HostBindings>(&self, host: &mut Host<H>) -> (r: Result<u64, Error>)
        ensures
            ledger_obj::slot_read::<H, u64, 8>(
                *old(host),
                *final(host),
                self.spec_slot_num(),
                sfield::ReferenceCount::spec_code(),
                r,
            ),
    {
        ledger_obj::get_field(host, self.get_slot_num(), sfield::ReferenceCount)
    }
}

/// Trait providing access to fields specific to the current ContractSource object.
pub trait CurrentContractSourceFields: CurrentLedgerObjectCommonFields {
    /// The PreviousTxnID field (Required).
    fn previous_txn_id<H: HostBindings>(&self, host: &mut Host<H>) -> (r: Result<Hash256, Error>)
        ensures
            current_ledger_obj::home_read::<H, Hash256, 32>(
                *old(host),
                *final(host),
                sfield::PreviousTxnID::spec_code(),
                r,
            ),
    {
        current_ledger_obj::get_field(host, sfield::PreviousTxnID)
    }

    /// The PreviousTxnLgrSeq field (Required).
    fn previous_txn_lgr_seq<H: HostBindings>(&self, host: &mut Host<H>) -> (r: Result<u32, Error>)
        ensures
            current_ledger_obj::home_read::<H, u32, 4>(
                *old(host),
                *final(host),
                sfield::PreviousTxnLgrSeq::spec_code(),
                r,
            ),
    {
        current_ledger_obj::get_field(host, sfield::PreviousTxnLgrSeq)
    }

    /// The ContractHash field (Required).
    fn contract_hash<H: HostBindings>(&self, host: &mut Host<H>) -> (r: Result<Hash256, Error>)
        ensures
            current_ledger_obj::home_read::<H, Hash256, 32>(
                *old(host),
                *final(host),
                sfield::ContractHash::spec_code(),
                r,
            ),
    {
        current_ledger_obj::get_field(host, sfield::ContractHash)
    }

    /// The ContractCode field (Required).
    fn contract_code<H: HostBindings>(&self, host: &mut Host<H>) -> (r: Result<StandardBlob, Error>)
        ensures
            current_ledger_obj::home_read::<H, StandardBlob, 1024>(
                *old(host),
                *final(host),
                sfield::ContractCode::spec_code(),
                r,
            ),
    {
        current_ledger_obj::get_field(host, sfield::ContractCode)
    }

    /// The ReferenceCount field (Required).
    fn reference_count<H: HostBindings>(&self, host: &mut Host<H>) -> (r: Result<u64, Error>)
        ensures
            current_ledger_obj::home_read::<H, u64, 8>(
                *old(host),
                *final(host),
                sfield::ReferenceCount::spec_code(),
                r,
            ),
    {
        current_ledger_obj::get_field(host, sfield::ReferenceCount)
    }
}

/// A handle to a ContractSource object cached in a host slot.
#[derive(Debug, Clone, Copy, PartialEq, Eq, Structural)]
pub struct ContractSource {
    pub slot_num: i32,
}

impl ContractSource {
    /// Wraps the slot a ContractSource object is cached in.
    pub fn new(slot_num: i32) -> (r: ContractSource)
        ensures
            r.slot_num == slot_num,
    {
        ContractSource { slot_num }
    }
}

impl LedgerObjectCommonFields for ContractSource {
    open spec fn spec_slot_num(&self) -> i32 {
        self.slot_num
    }

    fn get_slot_num(&self) -> (r: i32) {
        assert(self.spec_slot_num() == self.slot_num);
        self.slot_num
    }
}

impl ContractSourceFields for ContractSource {

}

} // verus!
