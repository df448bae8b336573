//! The `RippleState` ledger object: typed accessors for its fields.

use vstd::prelude::*;
use crate::host::calls::Host;
use crate::fields::{current_ledger_obj, ledger_obj};
use crate::host::{Error, HostBindings};
use crate::objects::traits::{CurrentLedgerObjectCommonFields, LedgerObjectCommonFields};
use crate::sfield;
use crate::sfield::SField;
use crate::types::amount::Amount;
use crate::types::uint::Hash256;

verus! {

/// Trait providing access to fields specific to RippleState objects in any ledger.
pub trait RippleStateFields: LedgerObjectCommonFields {
    /// The Balance field (Required).
    fn get_balance<H: HostBindings>(&self, host: &mut Host<H>) -> (r: Result<Amount, Error>)
        ensures
            ledger_obj::slot_read::<H, Amount, 48>(
                *old(host),
                *final(host),
                self.spec_slot_num(),
                sfield::Balance::spec_code(),
                r,
            ),
    {
        ledger_obj::get_field(host, self.get_slot_num(), sfield::Balance)
    }

    /// The LowLimit field (Required).
    fn get_low_limit<H: HostBindings>(&self, host: &mut Host<H>) -> (r: Result<Amount, Error>)
        ensures
            ledger_obj::slot_read::<H, Amount, 48>(
                *old(host),
                *final(host),
                self.spec_slot_num(),
                sfield::LowLimit::spec_code(),
                r,
            ),
    {
        ledger_obj::get_field(host, self.get_slot_num(), sfield::LowLimit)
    }

    /// The HighLimit field (Required).
    fn get_high_limit<H: HostBindings>(&self, host: &mut Host<H>) -> (r: Result<Amount, Error>)
        ensures
            ledger_obj::slot_read::<H, Amount, 48>(
                *old(host),
                *final(host),
                self.spec_slot_num(),
                sfield::HighLimit::spec_code(),
                r,
            ),
    {
        ledger_obj::get_field(host, self.get_slot_num(), sfield::HighLimit)
    }

    /// The identifying hash of the transaction that most recently modified this entry.
    fn get_previous_txn_id<H: HostBindings>(&self, host: &mut Host<H>) -> (r: Result<Hash256, Error>)
        ensures
            ledger_obj::slot_read::<H, Hash256, 32>(
                *old(host),
                *final(host),
                self.spec_slot_num(),
                sfield::PreviousTxnID::spec_code(),
                r,
            ),
    {
        ledger_obj::get_field(host, self.get_slot_num(), sfield::PreviousTxnID)
    }

    /// The index of the ledger that contains the transaction that most recently modified this
    /// entry.
    fn get_previous_txn_lgr_seq<H: HostBindings>(&self, host: &mut Host<H>) -> (r: Result<u32, Error>)
        ensures
            ledger_obj::slot_read::<H, u32, 4>(
                *old(host),
                *final(host),
                self.spec_slot_num(),
                sfield::PreviousTxnLgrSeq::spec_code(),
                r,
            ),
    {
        ledger_obj::get_field(host, self.get_slot_num(), sfield::PreviousTxnLgrSeq)
    }

    /// The LowNode field (Optional).
    fn get_low_node<H: HostBindings>(&self, host: &mut Host<H>) -> (r: Result<Option<u64>, Error>)
        ensures
            ledger_obj::slot_read_optional::<H, u64, 8>(
                *old(host),
                *final(host),
                self.spec_slot_num(),
                sfield::LowNode::spec_code(),
                r,
            ),
    {
        ledger_obj::get_field_optional(host, self.get_slot_num(), sfield::LowNode)
    }

    /// The LowQualityIn field (Optional).
    fn get_low_quality_in<H: HostBindings>(&self, host: &mut Host<H>) -> (r: Result<Option<u32>, Error>)
        ensures
            ledger_obj::slot_read_optional::<H, u32, 4>(
                *old(host),
                *final(host),
                self.spec_slot_num(),
                sfield::LowQualityIn::spec_code(),
                r,
            ),
    {
        ledger_obj::get_field_optional(host, self.get_slot_num(), sfield::LowQualityIn)
    }

    /// The LowQualityOut field (Optional).
    fn get_low_quality_out<H: HostBindings>(&self, host: &mut Host<H>) -> (r: Result<Option<u32>, Error>)
        ensures
            ledger_obj::slot_read_optional::<H, u32, 4>(
                *old(host),
                *final(host),
                self.spec_slot_num(),
                sfield::LowQualityOut::spec_code(),
                r,
            ),
    {
        ledger_obj::get_field_optional(host, self.get_slot_num(), sfield::LowQualityOut)
    }

    /// The HighNode field (Optional).
    fn get_high_node<H: HostBindings>(&self, host: &mut Host<H>) -> (r: Result<Option<u64>, Error>)
        ensures
            ledger_obj::slot_read_optional::<H, u64, 8>(
                *old(host),
                *final(host),
                self.spec_slot_num(),
                sfield::HighNode::spec_code(),
                r,
            ),
    {
        ledger_obj::get_field_optional(host, self.get_slot_num(), sfield::HighNode)
    }

    /// The HighQualityIn field (Optional).
    fn get_high_quality_in<H: HostBindings>(&self, host: &mut Host<H>) -> (r: Result<Option<u32>, Error>)
        ensures
            ledger_obj::slot_read_optional::<H, u32, 4>(
                *old(host),
                *final(host),
                self.spec_slot_num(),
                sfield::HighQualityIn::spec_code(),
                r,
            ),
    {
        ledger_obj::get_field_optional(host, self.get_slot_num(), sfield::HighQualityIn)
    }

    /// The HighQualityOut field (Optional).
    fn get_high_quality_out<H: HostBindings>(&self, host: &mut Host<H>) -> (r: Result<Option<u32>, Error>)
        ensures
            ledger_obj::slot_read_optional::<H, u32, 4>(
                *old(host),
                *final(host),
                self.spec_slot_num(),
                sfield::HighQualityOut::spec_code(),
                r,
            ),
    {
        ledger_obj::get_field_optional(host, self.get_slot_num(), sfield::HighQualityOut)
    }
}

/// Trait providing access to fields specific to the current RippleState object.
pub trait CurrentRippleStateFields: CurrentLedgerObjectCommonFields {
    /// The Balance field (Required).
    fn get_balance<H: HostBindings>(&self, host: &mut Host<H>) -> (r: Result<Amount, Error>)
        ensures
            current_ledger_obj::home_read::<H, Amount, 48>(*old(host), *final(host), sfield::Balance::spec_code(), r),
    {
        current_ledger_obj::get_field(host, sfield::Balance)
    }

    /// The LowLimit field (Required).
    fn get_low_limit<H: HostBindings>(&self, host: &mut Host<H>) -> (r: Result<Amount, Error>)
        ensures
            current_ledger_obj::home_read::<H, Amount, 48>(*old(host), *final(host), sfield::LowLimit::spec_code(), r),
    {
        current_ledger_obj::get_field(host, sfield::LowLimit)
    }

    /// The HighLimit field (Required).
    fn get_high_limit<H: HostBindings>(&self, host: &mut Host<H>) -> (r: Result<Amount, Error>)
        ensures
            current_ledger_obj::home_read::<H, Amount, 48>(*old(host), *final(host), sfield::HighLimit::spec_code(), r),
    {
        current_ledger_obj::get_field(host, sfield::HighLimit)
    }

    /// The identifying hash of the transaction that most recently modified this entry.
    fn get_previous_txn_id<H: HostBindings>(&self, host: &mut Host<H>) -> (r: Result<Hash256, Error>)
        ensures
            current_ledger_obj::home_read::<H, Hash256, 32>(
                *old(host),
                *final(host),
                sfield::PreviousTxnID::spec_code(),
                r,
            ),
    {
        current_ledger_obj::get_field(host, sfield::PreviousTxnID)
    }

    /// The index of the ledger that contains the transaction that most recently modified this
    /// entry.
    fn get_previous_txn_lgr_seq<H: HostBindings>(&self, host: &mut Host<H>) -> (r: Result<u32, Error>)
        ensures
            current_ledger_obj::home_read::<H, u32, 4>(
                *old(host),
                *final(host),
                sfield::PreviousTxnLgrSeq::spec_code(),
                r,
            ),
    {
        current_ledger_obj::get_field(host, sfield::PreviousTxnLgrSeq)
    }

    /// The LowNode field (Optional).
    fn get_low_node<H: HostBindings>(&self, host: &mut Host<H>) -> (r: Result<Option<u64>, Error>)
        ensures
            current_ledger_obj::home_read_optional::<H, u64, 8>(
                *old(host),
                *final(host),
                sfield::LowNode::spec_code(),
                r,
            ),
    {
        current_ledger_obj::get_field_optional(host, sfield::LowNode)
    }

    /// The LowQualityIn field (Optional).
    fn get_low_quality_in<H: HostBindings>(&self, host: &mut Host<H>) -> (r: Result<Option<u32>, Error>)
        ensures
            current_ledger_obj::home_read_optional::<H, u32, 4>(
                *old(host),
                *final(host),
                sfield::LowQualityIn::spec_code(),
                r,
            ),
    {
        current_ledger_obj::get_field_optional(host, sfield::LowQualityIn)
    }

    /// The LowQualityOut field (Optional).
    fn get_low_quality_out<H: HostBindings>(&self, host: &mut Host<H>) -> (r: Result<Option<u32>, Error>)
        ensures
            current_ledger_obj::home_read_optional::<H, u32, 4>(
                *old(host),
                *final(host),
                sfield::LowQualityOut::spec_code(),
                r,
            ),
    {
        current_ledger_obj::get_field_optional(host, sfield::LowQualityOut)
    }

    /// The HighNode field (Optional).
    fn get_high_node<H: HostBindings>(&self, host: &mut Host<H>) -> (r: Result<Option<u64>, Error>)
        ensures
            current_ledger_obj::home_read_optional::<H, u64, 8>(
                *old(host),
                *final(host),
                sfield::HighNode::spec_code(),
                r,
            ),
    {
        current_ledger_obj::get_field_optional(host, sfield::HighNode)
    }

    /// The HighQualityIn field (Optional).
    fn get_high_quality_in<H: HostBindings>(&self, host: &mut Host<H>) -> (r: Result<Option<u32>, Error>)
        ensures
            current_ledger_obj::home_read_optional::<H, u32, 4>(
                *old(host),
                *final(host),
                sfield::HighQualityIn::spec_code(),
                r,
            ),
    {
        current_ledger_obj::get_field_optional(host, sfield::HighQualityIn)
    }

    /// The HighQualityOut field (Optional).
    fn get_high_quality_out<H: HostBindings>(&self, host: &mut Host<H>) -> (r: Result<Option<u32>, Error>)
        ensures
            current_ledger_obj::home_read_optional::<H, u32, 4>(
                *old(host),
                *final(host),
                sfield::HighQualityOut::spec_code(),
                r,
            ),
    {
        current_ledger_obj::get_field_optional(host, sfield::HighQualityOut)
    }
}

/// The `lsfLowReserve` flag of RippleState objects.
pub const lsfLowReserve: u32 = 0x00010000;

/// The `lsfHighReserve` flag of RippleState objects.
pub const lsfHighReserve: u32 = 0x00020000;

/// The `lsfLowAuth` flag of RippleState objects.
pub const lsfLowAuth: u32 = 0x00040000;

/// The `lsfHighAuth` flag of RippleState objects.
pub const lsfHighAuth: u32 = 0x00080000;

/// The `lsfLowNoRipple` flag of RippleState objects.
pub const lsfLowNoRipple: u32 = 0x00100000;

/// The `lsfHighNoRipple` flag of RippleState objects.
pub const lsfHighNoRipple: u32 = 0x00200000;

/// The `lsfLowFreeze` flag of RippleState objects.
pub const lsfLowFreeze: u32 = 0x00400000;

/// The `lsfHighFreeze` flag of RippleState objects.
pub const lsfHighFreeze: u32 = 0x00800000;

/// The `lsfAMMNode` flag of RippleState objects.
pub const lsfAMMNode: u32 = 0x01000000;

/// The `lsfLowDeepFreeze` flag of RippleState objects.
pub const lsfLowDeepFreeze: u32 = 0x02000000;

/// The `lsfHighDeepFreeze` flag of RippleState objects.
pub const lsfHighDeepFreeze: u32 = 0x04000000;

/// A handle to a RippleState object cached in a host slot.
#[derive(Debug, Clone, Copy, PartialEq, Eq, Structural)]
pub struct RippleState {
    pub slot_num: i32,
}

impl RippleState {
    /// Wraps the slot a RippleState object is cached in.
    pub fn new(slot_num: i32) -> (r: RippleState)
        ensures
            r.slot_num == slot_num,
    {
        RippleState { slot_num }
    }
}

impl LedgerObjectCommonFields for RippleState {
    open spec fn spec_slot_num(&self) -> i32 {
        self.slot_num
    }

    fn get_slot_num(&self) -> (r: i32) {
        assert(self.spec_slot_num() == self.slot_num);
        self.slot_num
    }
}

impl RippleStateFields for RippleState {

}

} // verus!
