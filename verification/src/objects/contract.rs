//! The `Contract` ledger object: typed accessors for its fields.

use vstd::prelude::*;
use crate::host::calls::Host;
use crate::fields::{current_ledger_obj, ledger_obj};
use crate::host::{Error, HostBindings};
use crate::objects::traits::{CurrentLedgerObjectCommonFields, LedgerObjectCommonFields};
use crate::sfield;
use crate::sfield::SField;
use crate::types::account_id::AccountID;
use crate::types::blob::UriBlob;
use crate::types::uint::Hash256;

verus! {

/// Trait providing access to fields specific to Contract objects in any ledger.
pub trait ContractFields: LedgerObjectCommonFields {
    /// The PreviousTxnID field (Required).
    fn get_previous_txn_id<H: HostBindings>(&self, host: &mut Host<H>) -> (r: Result<Hash256, Error>)
        ensures
            ledger_obj::slot_read::<H, Hash256, 32>(
                *old(host),
                *final(host),
                self.spec_slot_num(),
                sfield::PreviousTxnID::spec_code(),
                r,
            ),
    {
        ledger_obj::get_field(host, self.get_slot_num(), sfield::PreviousTxnID)
    }

    /// The PreviousTxnLgrSeq field (Required).
    fn get_previous_txn_lgr_seq<H: HostBindings>(&self, host: &mut Host<H>) -> (r: Result<u32, Error>)
        ensures
            ledger_obj::slot_read::<H, u32, 4>(
                *old(host),
                *final(host),
                self.spec_slot_num(),
                sfield::PreviousTxnLgrSeq::spec_code(),
                r,
            ),
    {
        ledger_obj::get_field(host, self.get_slot_num(), sfield::PreviousTxnLgrSeq)
    }

    /// The Sequence field (Required).
    fn get_sequence<H: HostBindings>(&self, host: &mut Host<H>) -> (r: Result<u32, Error>)
        ensures
            ledger_obj::slot_read::<H, u32, 4>(
                *old(host),
                *final(host),
                self.spec_slot_num(),
                sfield::Sequence::spec_code(),
                r,
            ),
    {
        ledger_obj::get_field(host, self.get_slot_num(), sfield::Sequence)
    }

    /// The OwnerNode field (Required).
    fn get_owner_node<H: HostBindings>(&self, host: &mut Host<H>) -> (r: Result<u64, Error>)
        ensures
            ledger_obj::slot_read::<H, u64, 8>(
                *old(host),
                *final(host),
                self.spec_slot_num(),
                sfield::OwnerNode::spec_code(),
                r,
            ),
    {
        ledger_obj::get_field(host, self.get_slot_num(), sfield::OwnerNode)
    }

    /// The Owner field (Required).
    fn get_owner<H: HostBindings>(&self, host: &mut Host<H>) -> (r: Result<AccountID, Error>)
        ensures
            ledger_obj::slot_read::<H, AccountID, 20>(
                *old(host),
                *final(host),
                self.spec_slot_num(),
                sfield::Owner::spec_code(),
                r,
            ),
    {
        ledger_obj::get_field(host, self.get_slot_num(), sfield::Owner)
    }

    /// The ContractAccount field (Required).
    fn get_contract_account<H: HostBindings>(&self, host: &mut Host<H>) -> (r: Result<AccountID, Error>)
        ensures
            ledger_obj::slot_read::<H, AccountID, 20>(
                *old(host),
                *final(host),
                self.spec_slot_num(),
                sfield::ContractAccount::spec_code(),
                r,
            ),
    {
        ledger_obj::get_field(host, self.get_slot_num(), sfield::ContractAccount)
    }

    /// The ContractHash field (Required).
    fn get_contract_hash<H: HostBindings>(&self, host: &mut Host<H>) -> (r: Result<Hash256, Error>)
        ensures
            ledger_obj::slot_read::<H, Hash256, 32>(
                *old(host),
                *final(host),
                self.spec_slot_num(),
                sfield::ContractHash::spec_code(),
                r,
            ),
    {
        ledger_obj::get_field(host, self.get_slot_num(), sfield::ContractHash)
    }

    /// The URI field (Optional).
    fn get_uri<H: HostBindings>(&self, host: &mut Host<H>) -> (r: Result<Option<UriBlob>, Error>)
        ensures
            ledger_obj::slot_read_optional::<H, UriBlob, 256>(
                *old(host),
                *final(host),
                self.spec_slot_num(),
                sfield::URI::spec_code(),
                r,
            ),
    {
        ledger_obj::get_field_optional(host, self.get_slot_num(), sfield::URI)
    }
}

/// Trait providing access to fields specific to the current Contract object.
pub trait CurrentContractFields: CurrentLedgerObjectCommonFields {
    /// The PreviousTxnID field (Required).
    fn get_previous_txn_id<H: HostBindings>(&self, host: &mut Host<H>) -> (r: Result<Hash256, Error>)
        ensures
            current_ledger_obj::home_read::<H, Hash256, 32>(
                *old(host),
                *final(host),
                sfield::PreviousTxnID::spec_code(),
                r,
            ),
    {
        current_ledger_obj::get_field(host, sfield::PreviousTxnID)
    }

    /// The PreviousTxnLgrSeq field (Required).
    fn get_previous_txn_lgr_seq<H: HostBindings>(&self, host: &mut Host<H>) -> (r: Result<u32, Error>)
        ensures
            current_ledger_obj::home_read::<H, u32, 4>(
                *old(host),
                *final(host),
                sfield::PreviousTxnLgrSeq::spec_code(),
                r,
            ),
    {
        current_ledger_obj::get_field(host, sfield::PreviousTxnLgrSeq)
    }

    /// The Sequence field (Required).
    fn get_sequence<H: HostBindings>(&self, host: &mut Host<H>) -> (r: Result<u32, Error>)
        ensures
            current_ledger_obj::home_read::<H, u32, 4>(*old(host), *final(host), sfield::Sequence::spec_code(), r),
    {
        current_ledger_obj::get_field(host, sfield::Sequence)
    }

    /// The OwnerNode field (Required).
    fn get_owner_node<H: HostBindings>(&self, host: &mut Host<H>) -> (r: Result<u64, Error>)
        ensures
            current_ledger_obj::home_read::<H, u64, 8>(*old(host), *final(host), sfield::OwnerNode::spec_code(), r),
    {
        current_ledger_obj::get_field(host, sfield::OwnerNode)
    }

    /// The Owner field (Required).
    fn get_owner<H: HostBindings>(&self, host: &mut Host<H>) -> (r: Result<AccountID, Error>)
        ensures
            current_ledger_obj::home_read::<H, AccountID, 20>(*old(host), *final(host), sfield::Owner::spec_code(), r),
    {
        current_ledger_obj::get_field(host, sfield::Owner)
    }

    /// The ContractAccount field (Required).
    fn get_contract_account<H: HostBindings>(&self, host: &mut Host<H>) -> (r: Result<AccountID, Error>)
        ensures
            current_ledger_obj::home_read::<H, AccountID, 20>(
                *old(host),
                *final(host),
                sfield::ContractAccount::spec_code(),
                r,
            ),
    {
        current_ledger_obj::get_field(host, sfield::ContractAccount)
    }

    /// The ContractHash field (Required).
    fn get_contract_hash<H: HostBindings>(&self, host: &mut Host<H>) -> (r: Result<Hash256, Error>)
        ensures
            current_ledger_obj::home_read::<H, Hash256, 32>(
                *old(host),
                *final(host),
                sfield::ContractHash::spec_code(),
                r,
            ),
    {
        current_ledger_obj::get_field(host, sfield::ContractHash)
    }

    /// The URI field (Optional).
    fn get_uri<H: HostBindings>(&self, host: &mut Host<H>) -> (r: Result<Option<UriBlob>, Error>)
        ensures
            current_ledger_obj::home_read_optional::<H, UriBlob, 256>(
                *old(host),
                *final(host),
                sfield::URI::spec_code(),
                r,
            ),
    {
        current_ledger_obj::get_field_optional(host, sfield::URI)
    }
}

/// A handle to a Contract object cached in a host slot.
#[derive(Debug, Clone, Copy, PartialEq, Eq, Structural)]
pub struct Contract {
    pub slot_num: i32,
}

impl Contract {
    /// Wraps the slot a Contract object is cached in.
    pub fn new(slot_num: i32) -> (r: Contract)
        ensures
            r.slot_num == slot_num,
    {
        Contract { slot_num }
    }
}

impl LedgerObjectCommonFields for Contract {
    open spec fn spec_slot_num(&self) -> i32 {
        self.slot_num
    }

    fn get_slot_num(&self) -> (r: i32) {
        assert(self.spec_slot_num() == self.slot_num);
        self.slot_num
    }
}

impl ContractFields for Contract {

}

} // verus!
