//! The `Amendments` ledger object: typed accessors for its fields.

use vstd::prelude::*;
use crate::host::calls::Host;
use crate::fields::{current_ledger_obj, ledger_obj};
use crate::host::{Error, HostBindings};
use crate::objects::traits::{CurrentLedgerObjectCommonFields, LedgerObjectCommonFields};
use crate::sfield;
use crate::sfield::SField;
use crate::types::uint::Hash256;

verus! {

/// Trait providing access to fields specific to Amendments objects in any ledger.
pub trait AmendmentsFields: LedgerObjectCommonFields {
    /// Array of 256-bit amendment IDs for all currently enabled amendments. If omitted, there are
    /// no enabled amendments.
    /// Raw bytes; VECTOR256 is not yet typed in Rust.
    fn amendments<H: HostBindings>(&self, host: &mut Host<H>) -> (r: Result<Option<[u8; 512]>, Error>)
        ensures
            ledger_obj::slot_raw_read_optional(
                *old(host),
                *final(host),
                self.spec_slot_num(),
                sfield::Amendments::spec_code(),
                r,
            ),
    {
        ledger_obj::get_raw_field_optional(host, self.get_slot_num(), sfield::Amendments)
    }

    /// The identifying hash of the transaction that most recently modified this entry.
    fn previous_txn_id<H: HostBindings>(&self, host: &mut Host<H>) -> (r: Result<Option<Hash256>, Error>)
        ensures
            ledger_obj::slot_read_optional::<H, Hash256, 32>(
                *old(host),
                *final(host),
                self.spec_slot_num(),
                sfield::PreviousTxnID::spec_code(),
                r,
            ),
    {
        ledger_obj::get_field_optional(host, self.get_slot_num(), sfield::PreviousTxnID)
    }

    /// The index of the ledger that contains the transaction that most recently modified this
    /// entry.
    fn previous_txn_lgr_seq<H: HostBindings>(&self, host: &mut Host<H>) -> (r: Result<Option<u32>, Error>)
        ensures
            ledger_obj::slot_read_optional::<H, u32, 4>(
                *old(host),
                *final(host),
                self.spec_slot_num(),
                sfield::PreviousTxnLgrSeq::spec_code(),
                r,
            ),
    {
        ledger_obj::get_field_optional(host, self.get_slot_num(), sfield::PreviousTxnLgrSeq)
    }
}

/// Trait providing access to fields specific to the current Amendments object.
pub trait CurrentAmendmentsFields: CurrentLedgerObjectCommonFields {
    /// Array of 256-bit amendment IDs for all currently enabled amendments. If omitted, there are
    /// no enabled amendments.
    /// Raw bytes; VECTOR256 is not yet typed in Rust.
    fn amendments<H: HostBindings>(&self, host: &mut Host<H>) -> (r: Result<Option<[u8; 512]>, Error>)
        ensures
            current_ledger_obj::home_raw_read_optional(*old(host), *final(host), sfield::Amendments::spec_code(), r),
    {
        current_ledger_obj::get_raw_field_optional(host, sfield::Amendments)
    }

    /// The identifying hash of the transaction that most recently modified this entry.
    fn previous_txn_id<H: HostBindings>(&self, host: &mut Host<H>) -> (r: Result<Option<Hash256>, Error>)
        ensures
            current_ledger_obj::home_read_optional::<H, Hash256, 32>(
                *old(host),
                *final(host),
                sfield::PreviousTxnID::spec_code(),
                r,
            ),
    {
        current_ledger_obj::get_field_optional(host, sfield::PreviousTxnID)
    }

    /// The index of the ledger that contains the transaction that most recently modified this
    /// entry.
    fn previous_txn_lgr_seq<H: HostBindings>(&self, host: &mut Host<H>) -> (r: Result<Option<u32>, Error>)
        ensures
            current_ledger_obj::home_read_optional::<H, u32, 4>(
                *old(host),
                *final(host),
                sfield::PreviousTxnLgrSeq::spec_code(),
                r,
            ),
    {
        current_ledger_obj::get_field_optional(host, sfield::PreviousTxnLgrSeq)
    }
}

/// A handle to an Amendments object cached in a host slot.
#[derive(Debug, Clone, Copy, PartialEq, Eq, Structural)]
pub struct Amendments {
    pub slot_num: i32,
}

impl Amendments {
    /// Wraps the slot an Amendments object is cached in.
    pub fn new(slot_num: i32) -> (r: Amendments)
        ensures
            r.slot_num == slot_num,
    {
        Amendments { slot_num }
    }
}

impl LedgerObjectCommonFields for Amendments {
    open spec fn spec_slot_num(&self) -> i32 {
        self.slot_num
    }

    fn get_slot_num(&self) -> (r: i32) {
        assert(self.spec_slot_num() == self.slot_num);
        self.slot_num
    }
}

impl AmendmentsFields for Amendments {

}

} // verus!
