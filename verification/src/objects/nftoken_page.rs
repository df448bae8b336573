//! The `NFTokenPage` ledger object: typed accessors for its fields.

use vstd::prelude::*;
use crate::host::calls::Host;
use crate::fields::{current_ledger_obj, ledger_obj};
use crate::host::{Error, HostBindings};
use crate::objects::traits::{CurrentLedgerObjectCommonFields, LedgerObjectCommonFields};
use crate::sfield;
use crate::sfield::SField;
use crate::types::uint::Hash256;

verus! {

/// Trait providing access to fields specific to NFTokenPage objects in any ledger.
pub trait NFTokenPageFields: LedgerObjectCommonFields {
    /// The locator of the previous page, if any. Details about this field and how it should be used are outlined below.
    fn get_previous_page_min<H: HostBindings>(&self, host: &mut Host<H>) -> (r: Result<
        Option<Hash256>,
        Error,
    >)
        ensures
            ledger_obj::slot_read_optional::<H, Hash256, 32>(
                *old(host),
                *final(host),
                self.spec_slot_num(),
                sfield::PreviousPageMin::spec_code(),
                r,
            ),
    {
        ledger_obj::get_field_optional(host, self.get_slot_num(), sfield::PreviousPageMin)
    }

    /// The locator of the next page, if any. Details about this field and how it should be used are outlined below.
    fn get_next_page_min<H: HostBindings>(&self, host: &mut Host<H>) -> (r: Result<Option<Hash256>, Error>)
        ensures
            ledger_obj::slot_read_optional::<H, Hash256, 32>(
                *old(host),
                *final(host),
                self.spec_slot_num(),
                sfield::NextPageMin::spec_code(),
                r,
            ),
    {
        ledger_obj::get_field_optional(host, self.get_slot_num(), sfield::NextPageMin)
    }

    /// Identifies the transaction ID of the transaction that most recently modified this NFTokenPage object.
    fn get_previous_txn_id<H: HostBindings>(&self, host: &mut Host<H>) -> (r: Result<Hash256, Error>)
        ensures
            ledger_obj::slot_read::<H, Hash256, 32>(
                *old(host),
                *final(host),
                self.spec_slot_num(),
                sfield::PreviousTxnID::spec_code(),
                r,
            ),
    {
        ledger_obj::get_field(host, self.get_slot_num(), sfield::PreviousTxnID)
    }

    /// The sequence of the ledger that contains the transaction that most recently modified this NFTokenPage object.
    fn get_previous_txn_lgr_seq<H: HostBindings>(&self, host: &mut Host<H>) -> (r: Result<u32, Error>)
        ensures
            ledger_obj::slot_read::<H, u32, 4>(
                *old(host),
                *final(host),
                self.spec_slot_num(),
                sfield::PreviousTxnLgrSeq::spec_code(),
                r,
            ),
    {
        ledger_obj::get_field(host, self.get_slot_num(), sfield::PreviousTxnLgrSeq)
    }
}

/// Trait providing access to fields specific to the current NFTokenPage object.
pub trait CurrentNFTokenPageFields: CurrentLedgerObjectCommonFields {
    /// The locator of the previous page, if any. Details about this field and how it should be used are outlined below.
    fn get_previous_page_min<H: HostBindings>(&self, host: &mut Host<H>) -> (r: Result<
        Option<Hash256>,
        Error,
    >)
        ensures
            current_ledger_obj::home_read_optional::<H, Hash256, 32>(
                *old(host),
                *final(host),
                sfield::PreviousPageMin::spec_code(),
                r,
            ),
    {
        current_ledger_obj::get_field_optional(host, sfield::PreviousPageMin)
    }

    /// The locator of the next page, if any. Details about this field and how it should be used are outlined below.
    fn get_next_page_min<H: HostBindings>(&self, host: &mut Host<H>) -> (r: Result<Option<Hash256>, Error>)
        ensures
            current_ledger_obj::home_read_optional::<H, Hash256, 32>(
                *old(host),
                *final(host),
                sfield::NextPageMin::spec_code(),
                r,
            ),
    {
        current_ledger_obj::get_field_optional(host, sfield::NextPageMin)
    }

    /// Identifies the transaction ID of the transaction that most recently modified this NFTokenPage object.
    fn get_previous_txn_id<H: HostBindings>(&self, host: &mut Host<H>) -> (r: Result<Hash256, Error>)
        ensures
            current_ledger_obj::home_read::<H, Hash256, 32>(
                *old(host),
                *final(host),
                sfield::PreviousTxnID::spec_code(),
                r,
            ),
    {
        current_ledger_obj::get_field(host, sfield::PreviousTxnID)
    }

    /// The sequence of the ledger that contains the transaction that most recently modified this NFTokenPage object.
    fn get_previous_txn_lgr_seq<H: HostBindings>(&self, host: &mut Host<H>) -> (r: Result<u32, Error>)
        ensures
            current_ledger_obj::home_read::<H, u32, 4>(
                *old(host),
                *final(host),
                sfield::PreviousTxnLgrSeq::spec_code(),
                r,
            ),
    {
        current_ledger_obj::get_field(host, sfield::PreviousTxnLgrSeq)
    }
}

/// A handle to an NFTokenPage object cached in a host slot.
#[derive(Debug, Clone, Copy, PartialEq, Eq, Structural)]
pub struct NFTokenPage {
    pub slot_num: i32,
}

impl NFTokenPage {
    /// Wraps the slot an NFTokenPage object is cached in.
    pub fn new(slot_num: i32) -> (r: NFTokenPage)
        ensures
            r.slot_num == slot_num,
    {
        NFTokenPage { slot_num }
    }
}

impl LedgerObjectCommonFields for NFTokenPage {
    open spec fn spec_slot_num(&self) -> i32 {
        self.slot_num
    }

    fn get_slot_num(&self) -> (r: i32) {
        assert(self.spec_slot_num() == self.slot_num);
        self.slot_num
    }
}

impl NFTokenPageFields for NFTokenPage {

}

} // verus!
