//! The `Oracle` ledger object: typed accessors for its fields.

use vstd::prelude::*;
use crate::host::calls::Host;
use crate::fields::{current_ledger_obj, ledger_obj};
use crate::host::{Error, HostBindings};
use crate::objects::traits::{CurrentLedgerObjectCommonFields, LedgerObjectCommonFields};
use crate::sfield;
use crate::sfield::SField;
use crate::types::account_id::AccountID;
use crate::types::blob::{StandardBlob, UriBlob};
use crate::types::uint::Hash256;

verus! {

/// Trait providing access to fields specific to Oracle objects in any ledger.
pub trait OracleFields: LedgerObjectCommonFields {
    /// The Owner field (Required).
    fn get_owner<H: HostBindings>(&self, host: &mut Host<H>) -> (r: Result<AccountID, Error>)
        ensures
            ledger_obj::slot_read::<H, AccountID, 20>(
                *old(host),
                *final(host),
                self.spec_slot_num(),
                sfield::Owner::spec_code(),
                r,
            ),
    {
        ledger_obj::get_field(host, self.get_slot_num(), sfield::Owner)
    }

    /// The OracleDocumentID field (Optional).
    fn get_oracle_document_id<H: HostBindings>(&self, host: &mut Host<H>) -> (r: Result<Option<u32>, Error>)
        ensures
            ledger_obj::slot_read_optional::<H, u32, 4>(
                *old(host),
                *final(host),
                self.spec_slot_num(),
                sfield::OracleDocumentID::spec_code(),
                r,
            ),
    {
        ledger_obj::get_field_optional(host, self.get_slot_num(), sfield::OracleDocumentID)
    }

    /// The Provider field (Required).
    fn get_provider<H: HostBindings>(&self, host: &mut Host<H>) -> (r: Result<StandardBlob, Error>)
        ensures
            ledger_obj::slot_read::<H, StandardBlob, 1024>(
                *old(host),
                *final(host),
                self.spec_slot_num(),
                sfield::Provider::spec_code(),
                r,
            ),
    {
        ledger_obj::get_field(host, self.get_slot_num(), sfield::Provider)
    }

    /// The AssetClass field (Required).
    fn get_asset_class<H: HostBindings>(&self, host: &mut Host<H>) -> (r: Result<StandardBlob, Error>)
        ensures
            ledger_obj::slot_read::<H, StandardBlob, 1024>(
                *old(host),
                *final(host),
                self.spec_slot_num(),
                sfield::AssetClass::spec_code(),
                r,
            ),
    {
        ledger_obj::get_field(host, self.get_slot_num(), sfield::AssetClass)
    }

    /// The LastUpdateTime field (Required).
    fn get_last_update_time<H: HostBindings>(&self, host: &mut Host<H>) -> (r: Result<u32, Error>)
        ensures
            ledger_obj::slot_read::<H, u32, 4>(
                *old(host),
                *final(host),
                self.spec_slot_num(),
                sfield::LastUpdateTime::spec_code(),
                r,
            ),
    {
        ledger_obj::get_field(host, self.get_slot_num(), sfield::LastUpdateTime)
    }

    /// The URI field (Optional).
    fn get_uri<H: HostBindings>(&self, host: &mut Host<H>) -> (r: Result<Option<UriBlob>, Error>)
        ensures
            ledger_obj::slot_read_optional::<H, UriBlob, 256>(
                *old(host),
                *final(host),
                self.spec_slot_num(),
                sfield::URI::spec_code(),
                r,
            ),
    {
        ledger_obj::get_field_optional(host, self.get_slot_num(), sfield::URI)
    }

    /// A hint indicating which page of the owner's directory links to this entry, in case the
    /// directory consists of multiple pages.
    fn get_owner_node<H: HostBindings>(&self, host: &mut Host<H>) -> (r: Result<u64, Error>)
        ensures
            ledger_obj::slot_read::<H, u64, 8>(
                *old(host),
                *final(host),
                self.spec_slot_num(),
                sfield::OwnerNode::spec_code(),
                r,
            ),
    {
        ledger_obj::get_field(host, self.get_slot_num(), sfield::OwnerNode)
    }

    /// The identifying hash of the transaction that most recently modified this entry.
    fn get_previous_txn_id<H: HostBindings>(&self, host: &mut Host<H>) -> (r: Result<Hash256, Error>)
        ensures
            ledger_obj::slot_read::<H, Hash256, 32>(
                *old(host),
                *final(host),
                self.spec_slot_num(),
                sfield::PreviousTxnID::spec_code(),
                r,
            ),
    {
        ledger_obj::get_field(host, self.get_slot_num(), sfield::PreviousTxnID)
    }

    /// The index of the ledger that contains the transaction that most recently modified this
    /// entry.
    fn get_previous_txn_lgr_seq<H: HostBindings>(&self, host: &mut Host<H>) -> (r: Result<u32, Error>)
        ensures
            ledger_obj::slot_read::<H, u32, 4>(
                *old(host),
                *final(host),
                self.spec_slot_num(),
                sfield::PreviousTxnLgrSeq::spec_code(),
                r,
            ),
    {
        ledger_obj::get_field(host, self.get_slot_num(), sfield::PreviousTxnLgrSeq)
    }
}

/// Trait providing access to fields specific to the current Oracle object.
pub trait CurrentOracleFields: CurrentLedgerObjectCommonFields {
    /// The Owner field (Required).
    fn get_owner<H: HostBindings>(&self, host: &mut Host<H>) -> (r: Result<AccountID, Error>)
        ensures
            current_ledger_obj::home_read::<H, AccountID, 20>(*old(host), *final(host), sfield::Owner::spec_code(), r),
    {
        current_ledger_obj::get_field(host, sfield::Owner)
    }

    /// The OracleDocumentID field (Optional).
    fn get_oracle_document_id<H: HostBindings>(&self, host: &mut Host<H>) -> (r: Result<Option<u32>, Error>)
        ensures
            current_ledger_obj::home_read_optional::<H, u32, 4>(
                *old(host),
                *final(host),
                sfield::OracleDocumentID::spec_code(),
                r,
            ),
    {
        current_ledger_obj::get_field_optional(host, sfield::OracleDocumentID)
    }

    /// The Provider field (Required).
    fn get_provider<H: HostBindings>(&self, host: &mut Host<H>) -> (r: Result<StandardBlob, Error>)
        ensures
            current_ledger_obj::home_read::<H, StandardBlob, 1024>(
                *old(host),
                *final(host),
                sfield::Provider::spec_code(),
                r,
            ),
    {
        current_ledger_obj::get_field(host, sfield::Provider)
    }

    /// The AssetClass field (Required).
    fn get_asset_class<H: HostBindings>(&self, host: &mut Host<H>) -> (r: Result<StandardBlob, Error>)
        ensures
            current_ledger_obj::home_read::<H, StandardBlob, 1024>(
                *old(host),
                *final(host),
                sfield::AssetClass::spec_code(),
                r,
            ),
    {
        current_ledger_obj::get_field(host, sfield::AssetClass)
    }

    /// The LastUpdateTime field (Required).
    fn get_last_update_time<H: HostBindings>(&self, host: &mut Host<H>) -> (r: Result<u32, Error>)
        ensures
            current_ledger_obj::home_read::<H, u32, 4>(
                *old(host),
                *final(host),
                sfield::LastUpdateTime::spec_code(),
                r,
            ),
    {
        current_ledger_obj::get_field(host, sfield::LastUpdateTime)
    }

    /// The URI field (Optional).
    fn get_uri<H: HostBindings>(&self, host: &mut Host<H>) -> (r: Result<Option<UriBlob>, Error>)
        ensures
            current_ledger_obj::home_read_optional::<H, UriBlob, 256>(
                *old(host),
                *final(host),
                sfield::URI::spec_code(),
                r,
            ),
    {
        current_ledger_obj::get_field_optional(host, sfield::URI)
    }

    /// A hint indicating which page of the owner's directory links to this entry, in case the
    /// directory consists of multiple pages.
    fn get_owner_node<H: HostBindings>(&self, host: &mut Host<H>) -> (r: Result<u64, Error>)
        ensures
            current_ledger_obj::home_read::<H, u64, 8>(*old(host), *final(host), sfield::OwnerNode::spec_code(), r),
    {
        current_ledger_obj::get_field(host, sfield::OwnerNode)
    }

    /// The identifying hash of the transaction that most recently modified this entry.
    fn get_previous_txn_id<H: HostBindings>(&self, host: &mut Host<H>) -> (r: Result<Hash256, Error>)
        ensures
            current_ledger_obj::home_read::<H, Hash256, 32>(
                *old(host),
                *final(host),
                sfield::PreviousTxnID::spec_code(),
                r,
            ),
    {
        current_ledger_obj::get_field(host, sfield::PreviousTxnID)
    }

    /// The index of the ledger that contains the transaction that most recently modified this
    /// entry.
    fn get_previous_txn_lgr_seq<H: HostBindings>(&self, host: &mut Host<H>) -> (r: Result<u32, Error>)
        ensures
            current_ledger_obj::home_read::<H, u32, 4>(
                *old(host),
                *final(host),
                sfield::PreviousTxnLgrSeq::spec_code(),
                r,
            ),
    {
        current_ledger_obj::get_field(host, sfield::PreviousTxnLgrSeq)
    }
}

/// A handle to an Oracle object cached in a host slot.
#[derive(Debug, Clone, Copy, PartialEq, Eq, Structural)]
pub struct Oracle {
    pub slot_num: i32,
}

impl Oracle {
    /// Wraps the slot an Oracle object is cached in.
    pub fn new(slot_num: i32) -> (r: Oracle)
        ensures
            r.slot_num == slot_num,
    {
        Oracle { slot_num }
    }
}

impl LedgerObjectCommonFields for Oracle {
    open spec fn spec_slot_num(&self) -> i32 {
        self.slot_num
    }

    fn get_slot_num(&self) -> (r: i32) {
        assert(self.spec_slot_num() == self.slot_num);
        self.slot_num
    }
}

impl OracleFields for Oracle {

}

} // verus!
