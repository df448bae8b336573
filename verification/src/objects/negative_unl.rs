//! The `NegativeUNL` ledger object: typed accessors for its fields.

use vstd::prelude::*;
use crate::host::calls::Host;
use crate::fields::{current_ledger_obj, ledger_obj};
use crate::host::{Error, HostBindings};
use crate::objects::traits::{CurrentLedgerObjectCommonFields, LedgerObjectCommonFields};
use crate::sfield;
use crate::sfield::SField;
use crate::types::blob::StandardBlob;
use crate::types::uint::Hash256;

verus! {

/// Trait providing access to fields specific to NegativeUNL objects in any ledger.
pub trait NegativeUNLFields: LedgerObjectCommonFields {
    /// The public key of a trusted validator that is scheduled to be disabled in the next flag ledger.
    fn get_validator_to_disable<H: HostBindings>(&self, host: &mut Host<H>) -> (r: Result<
        Option<StandardBlob>,
        Error,
    >)
        ensures
            ledger_obj::slot_read_optional::<H, StandardBlob, 1024>(
                *old(host),
                *final(host),
                self.spec_slot_num(),
                sfield::ValidatorToDisable::spec_code(),
                r,
            ),
    {
        ledger_obj::get_field_optional(host, self.get_slot_num(), sfield::ValidatorToDisable)
    }

    /// The public key of a trusted validator in the Negative UNL that is scheduled to be re-enabled in the next flag ledger.
    fn get_validator_to_re_enable<H: HostBindings>(&self, host: &mut Host<H>) -> (r: Result<
        Option<StandardBlob>,
        Error,
    >)
        ensures
            ledger_obj::slot_read_optional::<H, StandardBlob, 1024>(
                *old(host),
                *final(host),
                self.spec_slot_num(),
                sfield::ValidatorToReEnable::spec_code(),
                r,
            ),
    {
        ledger_obj::get_field_optional(host, self.get_slot_num(), sfield::ValidatorToReEnable)
    }

    /// The identifying hash of the transaction that most recently modified this entry.
    fn get_previous_txn_id<H: HostBindings>(&self, host: &mut Host<H>) -> (r: Result<Option<Hash256>, Error>)
        ensures
            ledger_obj::slot_read_optional::<H, Hash256, 32>(
                *old(host),
                *final(host),
                self.spec_slot_num(),
                sfield::PreviousTxnID::spec_code(),
                r,
            ),
    {
        ledger_obj::get_field_optional(host, self.get_slot_num(), sfield::PreviousTxnID)
    }

    /// The [index of the ledger][Ledger Index] that contains the transaction that most recently modified this entry.
    fn get_previous_txn_lgr_seq<H: HostBindings>(&self, host: &mut Host<H>) -> (r: Result<Option<u32>, Error>)
        ensures
            ledger_obj::slot_read_optional::<H, u32, 4>(
                *old(host),
                *final(host),
                self.spec_slot_num(),
                sfield::PreviousTxnLgrSeq::spec_code(),
                r,
            ),
    {
        ledger_obj::get_field_optional(host, self.get_slot_num(), sfield::PreviousTxnLgrSeq)
    }
}

/// Trait providing access to fields specific to the current NegativeUNL object.
pub trait CurrentNegativeUNLFields: CurrentLedgerObjectCommonFields {
    /// The public key of a trusted validator that is scheduled to be disabled in the next flag ledger.
    fn get_validator_to_disable<H: HostBindings>(&self, host: &mut Host<H>) -> (r: Result<
        Option<StandardBlob>,
        Error,
    >)
        ensures
            current_ledger_obj::home_read_optional::<H, StandardBlob, 1024>(
                *old(host),
                *final(host),
                sfield::ValidatorToDisable::spec_code(),
                r,
            ),
    {
        current_ledger_obj::get_field_optional(host, sfield::ValidatorToDisable)
    }

    /// The public key of a trusted validator in the Negative UNL that is scheduled to be re-enabled in the next flag ledger.
    fn get_validator_to_re_enable<H: HostBindings>(&self, host: &mut Host<H>) -> (r: Result<
        Option<StandardBlob>,
        Error,
    >)
        ensures
            current_ledger_obj::home_read_optional::<H, StandardBlob, 1024>(
                *old(host),
                *final(host),
                sfield::ValidatorToReEnable::spec_code(),
                r,
            ),
    {
        current_ledger_obj::get_field_optional(host, sfield::ValidatorToReEnable)
    }

    /// The identifying hash of the transaction that most recently modified this entry.
    fn get_previous_txn_id<H: HostBindings>(&self, host: &mut Host<H>) -> (r: Result<Option<Hash256>, Error>)
        ensures
            current_ledger_obj::home_read_optional::<H, Hash256, 32>(
                *old(host),
                *final(host),
                sfield::PreviousTxnID::spec_code(),
                r,
            ),
    {
        current_ledger_obj::get_field_optional(host, sfield::PreviousTxnID)
    }

    /// The [index of the ledger][Ledger Index] that contains the transaction that most recently modified this entry.
    fn get_previous_txn_lgr_seq<H: HostBindings>(&self, host: &mut Host<H>) -> (r: Result<Option<u32>, Error>)
        ensures
            current_ledger_obj::home_read_optional::<H, u32, 4>(
                *old(host),
                *final(host),
                sfield::PreviousTxnLgrSeq::spec_code(),
                r,
            ),
    {
        current_ledger_obj::get_field_optional(host, sfield::PreviousTxnLgrSeq)
    }
}

/// A handle to a NegativeUNL object cached in a host slot.
#[derive(Debug, Clone, Copy, PartialEq, Eq, Structural)]
pub struct NegativeUNL {
    pub slot_num: i32,
}

impl NegativeUNL {
    /// Wraps the slot a NegativeUNL object is cached in.
    pub fn new(slot_num: i32) -> (r: NegativeUNL)
        ensures
            r.slot_num == slot_num,
    {
        NegativeUNL { slot_num }
    }
}

impl LedgerObjectCommonFields for NegativeUNL {
    open spec fn spec_slot_num(&self) -> i32 {
        self.slot_num
    }

    fn get_slot_num(&self) -> (r: i32) {
        assert(self.spec_slot_num() == self.slot_num);
        self.slot_num
    }
}

impl NegativeUNLFields for NegativeUNL {

}

} // verus!
