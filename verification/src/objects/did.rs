//! The `DID` ledger object: typed accessors for its fields.

use vstd::prelude::*;
use crate::host::calls::Host;
use crate::fields::{current_ledger_obj, ledger_obj};
use crate::host::{Error, HostBindings};
use crate::objects::traits::{CurrentLedgerObjectCommonFields, LedgerObjectCommonFields};
use crate::sfield;
use crate::sfield::SField;
use crate::types::account_id::AccountID;
use crate::types::blob::{StandardBlob, UriBlob};
use crate::types::uint::Hash256;

verus! {

/// Trait providing access to fields specific to DID objects in any ledger.
pub trait DIDFields: LedgerObjectCommonFields {
    /// The account that controls the DID.
    fn account<H: HostBindings>(&self, host: &mut Host<H>) -> (r: Result<AccountID, Error>)
        ensures
            ledger_obj::slot_read::<H, AccountID, 20>(
                *old(host),
                *final(host),
                self.spec_slot_num(),
                sfield::Account::spec_code(),
                r,
            ),
    {
        ledger_obj::get_field(host, self.get_slot_num(), sfield::Account)
    }

    /// The W3C standard DID document associated with the DID. The `DIDDocument` field isn't checked
    /// for validity and is limited to a maximum length of 256 bytes.
    fn did_document<H: HostBindings>(&self, host: &mut Host<H>) -> (r: Result<Option<StandardBlob>, Error>)
        ensures
            ledger_obj::slot_read_optional::<H, StandardBlob, 1024>(
                *old(host),
                *final(host),
                self.spec_slot_num(),
                sfield::DIDDocument::spec_code(),
                r,
            ),
    {
        ledger_obj::get_field_optional(host, self.get_slot_num(), sfield::DIDDocument)
    }

    /// The Universal Resource Identifier that points to the corresponding DID document or the data
    /// associated with the DID. This field can be an HTTP(S) URL or IPFS URI. This field isn't
    /// checked for validity and is limited to a maximum length of 256 bytes.
    fn uri<H: HostBindings>(&self, host: &mut Host<H>) -> (r: Result<Option<UriBlob>, Error>)
        ensures
            ledger_obj::slot_read_optional::<H, UriBlob, 256>(
                *old(host),
                *final(host),
                self.spec_slot_num(),
                sfield::URI::spec_code(),
                r,
            ),
    {
        ledger_obj::get_field_optional(host, self.get_slot_num(), sfield::URI)
    }

    /// The public attestations of identity credentials associated with the DID. The `Data` field
    /// isn't checked for validity and is limited to a maximum length of 256 bytes.
    fn data<H: HostBindings>(&self, host: &mut Host<H>) -> (r: Result<Option<StandardBlob>, Error>)
        ensures
            ledger_obj::slot_read_optional::<H, StandardBlob, 1024>(
                *old(host),
                *final(host),
                self.spec_slot_num(),
                sfield::Data::spec_code(),
                r,
            ),
    {
        ledger_obj::get_field_optional(host, self.get_slot_num(), sfield::Data)
    }

    /// A hint indicating which page of the sender's owner directory links to this entry, in case
    /// the directory consists of multiple pages.
    fn owner_node<H: HostBindings>(&self, host: &mut Host<H>) -> (r: Result<u64, Error>)
        ensures
            ledger_obj::slot_read::<H, u64, 8>(
                *old(host),
                *final(host),
                self.spec_slot_num(),
                sfield::OwnerNode::spec_code(),
                r,
            ),
    {
        ledger_obj::get_field(host, self.get_slot_num(), sfield::OwnerNode)
    }

    /// The identifying hash of the transaction that most recently modified this object.
    fn previous_txn_id<H: HostBindings>(&self, host: &mut Host<H>) -> (r: Result<Hash256, Error>)
        ensures
            ledger_obj::slot_read::<H, Hash256, 32>(
                *old(host),
                *final(host),
                self.spec_slot_num(),
                sfield::PreviousTxnID::spec_code(),
                r,
            ),
    {
        ledger_obj::get_field(host, self.get_slot_num(), sfield::PreviousTxnID)
    }

    /// The index of the ledger that contains the transaction that most recently modified this
    /// object.
    fn previous_txn_lgr_seq<H: HostBindings>(&self, host: &mut Host<H>) -> (r: Result<u32, Error>)
        ensures
            ledger_obj::slot_read::<H, u32, 4>(
                *old(host),
                *final(host),
                self.spec_slot_num(),
                sfield::PreviousTxnLgrSeq::spec_code(),
                r,
            ),
    {
        ledger_obj::get_field(host, self.get_slot_num(), sfield::PreviousTxnLgrSeq)
    }
}

/// Trait providing access to fields specific to the current DID object.
pub trait CurrentDIDFields: CurrentLedgerObjectCommonFields {
    /// The account that controls the DID.
    fn account<H: HostBindings>(&self, host: &mut Host<H>) -> (r: Result<AccountID, Error>)
        ensures
            current_ledger_obj::home_read::<H, AccountID, 20>(
                *old(host),
                *final(host),
                sfield::Account::spec_code(),
                r,
            ),
    {
        current_ledger_obj::get_field(host, sfield::Account)
    }

    /// The W3C standard DID document associated with the DID. The `DIDDocument` field isn't checked
    /// for validity and is limited to a maximum length of 256 bytes.
    fn did_document<H: HostBindings>(&self, host: &mut Host<H>) -> (r: Result<Option<StandardBlob>, Error>)
        ensures
            current_ledger_obj::home_read_optional::<H, StandardBlob, 1024>(
                *old(host),
                *final(host),
                sfield::DIDDocument::spec_code(),
                r,
            ),
    {
        current_ledger_obj::get_field_optional(host, sfield::DIDDocument)
    }

    /// The Universal Resource Identifier that points to the corresponding DID document or the data
    /// associated with the DID. This field can be an HTTP(S) URL or IPFS URI. This field isn't
    /// checked for validity and is limited to a maximum length of 256 bytes.
    fn uri<H: HostBindings>(&self, host: &mut Host<H>) -> (r: Result<Option<UriBlob>, Error>)
        ensures
            current_ledger_obj::home_read_optional::<H, UriBlob, 256>(
                *old(host),
                *final(host),
                sfield::URI::spec_code(),
                r,
            ),
    {
        current_ledger_obj::get_field_optional(host, sfield::URI)
    }

    /// The public attestations of identity credentials associated with the DID. The `Data` field
    /// isn't checked for validity and is limited to a maximum length of 256 bytes.
    fn data<H: HostBindings>(&self, host: &mut Host<H>) -> (r: Result<Option<StandardBlob>, Error>)
        ensures
            current_ledger_obj::home_read_optional::<H, StandardBlob, 1024>(
                *old(host),
                *final(host),
                sfield::Data::spec_code(),
                r,
            ),
    {
        current_ledger_obj::get_field_optional(host, sfield::Data)
    }

    /// A hint indicating which page of the sender's owner directory links to this entry, in case
    /// the directory consists of multiple pages.
    fn owner_node<H: HostBindings>(&self, host: &mut Host<H>) -> (r: Result<u64, Error>)
        ensures
            current_ledger_obj::home_read::<H, u64, 8>(*old(host), *final(host), sfield::OwnerNode::spec_code(), r),
    {
        current_ledger_obj::get_field(host, sfield::OwnerNode)
    }

    /// The identifying hash of the transaction that most recently modified this object.
    fn previous_txn_id<H: HostBindings>(&self, host: &mut Host<H>) -> (r: Result<Hash256, Error>)
        ensures
            current_ledger_obj::home_read::<H, Hash256, 32>(
                *old(host),
                *final(host),
                sfield::PreviousTxnID::spec_code(),
                r,
            ),
    {
        current_ledger_obj::get_field(host, sfield::PreviousTxnID)
    }

    /// The index of the ledger that contains the transaction that most recently modified this
    /// object.
    fn previous_txn_lgr_seq<H: HostBindings>(&self, host: &mut Host<H>) -> (r: Result<u32, Error>)
        ensures
            current_ledger_obj::home_read::<H, u32, 4>(
                *old(host),
                *final(host),
                sfield::PreviousTxnLgrSeq::spec_code(),
                r,
            ),
    {
        current_ledger_obj::get_field(host, sfield::PreviousTxnLgrSeq)
    }
}

/// A handle to a DID object cached in a host slot.
#[derive(Debug, Clone, Copy, PartialEq, Eq, Structural)]
pub struct DID {
    pub slot_num: i32,
}

impl DID {
    /// Wraps the slot a DID object is cached in.
    pub fn new(slot_num: i32) -> (r: DID)
        ensures
            r.slot_num == slot_num,
    {
        DID { slot_num }
    }
}

impl LedgerObjectCommonFields for DID {
    open spec fn spec_slot_num(&self) -> i32 {
        self.slot_num
    }

    fn get_slot_num(&self) -> (r: i32) {
        assert(self.spec_slot_num() == self.slot_num);
        self.slot_num
    }
}

impl DIDFields for DID {

}

} // verus!
