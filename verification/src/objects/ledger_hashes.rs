//! The `LedgerHashes` ledger object: typed accessors for its fields.

use vstd::prelude::*;
use crate::host::calls::Host;
use crate::fields::{current_ledger_obj, ledger_obj};
use crate::host::{Error, HostBindings};
use crate::objects::traits::{CurrentLedgerObjectCommonFields, LedgerObjectCommonFields};
use crate::sfield;
use crate::sfield::SField;

verus! {

/// Trait providing access to fields specific to LedgerHashes objects in any ledger.
pub trait LedgerHashesFields: LedgerObjectCommonFields {
    /// DEPRECATED Do not use. (The "recent hashes" object on Mainnet has the value `2` in this
    /// field as a result of an old software bug. That value gets carried forward as the "recent
    /// hashes" object is updated. New "previous history" objects do not have this field, nor do
    /// "recent hashes" objects in parallel networks started with more recent versions of `xrpld`.)
    fn first_ledger_sequence<H: HostBindings>(&self, host: &mut Host<H>) -> (r: Result<Option<u32>, Error>)
        ensures
            ledger_obj::slot_read_optional::<H, u32, 4>(
                *old(host),
                *final(host),
                self.spec_slot_num(),
                sfield::FirstLedgerSequence::spec_code(),
                r,
            ),
    {
        ledger_obj::get_field_optional(host, self.get_slot_num(), sfield::FirstLedgerSequence)
    }

    /// The Ledger Index of the last entry in this object's `Hashes` array.
    fn last_ledger_sequence<H: HostBindings>(&self, host: &mut Host<H>) -> (r: Result<Option<u32>, Error>)
        ensures
            ledger_obj::slot_read_optional::<H, u32, 4>(
                *old(host),
                *final(host),
                self.spec_slot_num(),
                sfield::LastLedgerSequence::spec_code(),
                r,
            ),
    {
        ledger_obj::get_field_optional(host, self.get_slot_num(), sfield::LastLedgerSequence)
    }

    /// An array of up to 256 ledger hashes. The contents depend on which sub-type of `LedgerHashes`
    /// object this is.
    /// Raw bytes; VECTOR256 is not yet typed in Rust.
    fn hashes<H: HostBindings>(&self, host: &mut Host<H>) -> (r: Result<[u8; 512], Error>)
        ensures
            ledger_obj::slot_raw_read(*old(host), *final(host), self.spec_slot_num(), sfield::Hashes::spec_code(), r),
    {
        ledger_obj::get_raw_field(host, self.get_slot_num(), sfield::Hashes)
    }
}

/// Trait providing access to fields specific to the current LedgerHashes object.
pub trait CurrentLedgerHashesFields: CurrentLedgerObjectCommonFields {
    /// DEPRECATED Do not use. (The "recent hashes" object on Mainnet has the value `2` in this
    /// field as a result of an old software bug. That value gets carried forward as the "recent
    /// hashes" object is updated. New "previous history" objects do not have this field, nor do
    /// "recent hashes" objects in parallel networks started with more recent versions of `xrpld`.)
    fn first_ledger_sequence<H: HostBindings>(&self, host: &mut Host<H>) -> (r: Result<Option<u32>, Error>)
        ensures
            current_ledger_obj::home_read_optional::<H, u32, 4>(
                *old(host),
                *final(host),
                sfield::FirstLedgerSequence::spec_code(),
                r,
            ),
    {
        current_ledger_obj::get_field_optional(host, sfield::FirstLedgerSequence)
    }

    /// The Ledger Index of the last entry in this object's `Hashes` array.
    fn last_ledger_sequence<H: HostBindings>(&self, host: &mut Host<H>) -> (r: Result<Option<u32>, Error>)
        ensures
            current_ledger_obj::home_read_optional::<H, u32, 4>(
                *old(host),
                *final(host),
                sfield::LastLedgerSequence::spec_code(),
                r,
            ),
    {
        current_ledger_obj::get_field_optional(host, sfield::LastLedgerSequence)
    }

    /// An array of up to 256 ledger hashes. The contents depend on which sub-type of `LedgerHashes`
    /// object this is.
    /// Raw bytes; VECTOR256 is not yet typed in Rust.
    fn hashes<H: HostBindings>(&self, host: &mut Host<H>) -> (r: Result<[u8; 512], Error>)
        ensures
            current_ledger_obj::home_raw_read(*old(host), *final(host), sfield::Hashes::spec_code(), r),
    {
        current_ledger_obj::get_raw_field(host, sfield::Hashes)
    }
}

/// A handle to a LedgerHashes object cached in a host slot.
#[derive(Debug, Clone, Copy, PartialEq, Eq, Structural)]
pub struct LedgerHashes {
    pub slot_num: i32,
}

impl LedgerHashes {
    /// Wraps the slot a LedgerHashes object is cached in.
    pub fn new(slot_num: i32) -> (r: LedgerHashes)
        ensures
            r.slot_num == slot_num,
    {
        LedgerHashes { slot_num }
    }
}

impl LedgerObjectCommonFields for LedgerHashes {
    open spec fn spec_slot_num(&self) -> i32 {
        self.slot_num
    }

    fn get_slot_num(&self) -> (r: i32) {
        assert(self.spec_slot_num() == self.slot_num);
        self.slot_num
    }
}

impl LedgerHashesFields for LedgerHashes {

}

} // verus!
