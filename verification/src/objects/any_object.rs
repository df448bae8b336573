//! Untyped handle to a slot-cached ledger object.
//!
//! Typed wrappers (such as [`AccountRoot`](crate::objects::account_root::AccountRoot)) add
//! object-specific accessors. An object type with no such wrapper still has the common fields
//! and, above all, inner-field paths: [`LedgerObject`] wraps the raw slot that
//! [`cache_ledger_entry`](crate::objects::cache::cache_ledger_entry) handed back and gives
//! everything on [`LedgerObjectCommonFields`].

use vstd::prelude::*;
use crate::objects::traits::LedgerObjectCommonFields;

verus! {

/// A ledger object identified only by the slot it was cached into.
#[derive(Debug, Clone, Copy, PartialEq, Eq, Structural)]
pub struct LedgerObject {
    pub slot_num: i32,
}

impl LedgerObject {
    /// Wraps a slot. The slot is not validated: a negative slot means the caching call failed,
    /// and reads through an invalid slot surface the host's error as usual.
    pub fn new(slot_num: i32) -> (r: LedgerObject)
        ensures
            r.slot_num == slot_num,
    {
        LedgerObject { slot_num }
    }
}

impl LedgerObjectCommonFields for LedgerObject {
    open spec fn spec_slot_num(&self) -> i32 {
        self.slot_num
    }

    fn get_slot_num(&self) -> (r: i32) {
        assert(self.spec_slot_num() == self.slot_num);
        self.slot_num
    }
}

} // verus!
