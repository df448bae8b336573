//! The fields every ledger object has, and the root of inner-field paths, for a slot-cached
//! object and for the current one.

use vstd::prelude::*;
use crate::host::calls::Host;
use crate::fields::locator::{LedgerPathBuilder, LedgerSource};
use crate::fields::{current_ledger_obj, ledger_obj};
use crate::host::{Error, HostBindings};
use crate::sfield;
use crate::sfield::SField;

verus! {

/// A ledger object cached in a host slot.
pub trait LedgerObjectCommonFields {
    /// The slot the object is cached in.
    spec fn spec_slot_num(&self) -> i32;

    /// The slot the object is cached in.
    fn get_slot_num(&self) -> (r: i32)
        ensures
            r == self.spec_slot_num(),
    ;

    /// The object's flags.
    fn get_flags<H: HostBindings>(&self, host: &mut Host<H>) -> (r: Result<u32, Error>)
        ensures
            ledger_obj::slot_read::<H, u32, 4>(
                *old(host),
                *final(host),
                self.spec_slot_num(),
                sfield::Flags::spec_code(),
                r,
            ),
    {
        ledger_obj::get_field(host, self.get_slot_num(), sfield::Flags)
    }

    /// A new, empty path to an inner field of the object, read through its slot.
    fn path(&self) -> (r: LedgerPathBuilder)
        ensures
            r.spec_segments() == Seq::<i32>::empty(),
            !r.spec_malformed(),
            r.spec_source() == LedgerSource::Slot(self.spec_slot_num()),
    {
        LedgerPathBuilder::for_ledger_obj(self.get_slot_num())
    }
}

/// The ledger object the contract is attached to.
pub trait CurrentLedgerObjectCommonFields {
    /// The object's flags.
    fn get_flags<H: HostBindings>(&self, host: &mut Host<H>) -> (r: Result<u32, Error>)
        ensures
            current_ledger_obj::home_read::<H, u32, 4>(*old(host), *final(host), sfield::Flags::spec_code(), r),
    {
        current_ledger_obj::get_field(host, sfield::Flags)
    }

    /// A new, empty path to an inner field of the object.
    fn path(&self) -> (r: LedgerPathBuilder)
        ensures
            r.spec_segments() == Seq::<i32>::empty(),
            !r.spec_malformed(),
            r.spec_source() == LedgerSource::Current,
    {
        LedgerPathBuilder::for_current_ledger_obj()
    }
}

} // verus!
