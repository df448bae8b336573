//! The `FeeSettings` ledger object: typed accessors for its fields.

use vstd::prelude::*;
use crate::host::calls::Host;
use crate::fields::{current_ledger_obj, ledger_obj};
use crate::host::{Error, HostBindings};
use crate::objects::traits::{CurrentLedgerObjectCommonFields, LedgerObjectCommonFields};
use crate::sfield;
use crate::sfield::SField;
use crate::types::amount::Amount;
use crate::types::uint::Hash256;

verus! {

/// Trait providing access to fields specific to FeeSettings objects in any ledger.
pub trait FeeSettingsFields: LedgerObjectCommonFields {
    /// The transaction cost of the "reference transaction" in drops of XRP as hexadecimal.
    fn get_base_fee<H: HostBindings>(&self, host: &mut Host<H>) -> (r: Result<Option<u64>, Error>)
        ensures
            ledger_obj::slot_read_optional::<H, u64, 8>(
                *old(host),
                *final(host),
                self.spec_slot_num(),
                sfield::BaseFee::spec_code(),
                r,
            ),
    {
        ledger_obj::get_field_optional(host, self.get_slot_num(), sfield::BaseFee)
    }

    /// The `BaseFee` translated into "fee units".
    fn get_reference_fee_units<H: HostBindings>(&self, host: &mut Host<H>) -> (r: Result<Option<u32>, Error>)
        ensures
            ledger_obj::slot_read_optional::<H, u32, 4>(
                *old(host),
                *final(host),
                self.spec_slot_num(),
                sfield::ReferenceFeeUnits::spec_code(),
                r,
            ),
    {
        ledger_obj::get_field_optional(host, self.get_slot_num(), sfield::ReferenceFeeUnits)
    }

    /// The base reserve for an account in the XRP Ledger, as drops of XRP.
    fn get_reserve_base<H: HostBindings>(&self, host: &mut Host<H>) -> (r: Result<Option<u32>, Error>)
        ensures
            ledger_obj::slot_read_optional::<H, u32, 4>(
                *old(host),
                *final(host),
                self.spec_slot_num(),
                sfield::ReserveBase::spec_code(),
                r,
            ),
    {
        ledger_obj::get_field_optional(host, self.get_slot_num(), sfield::ReserveBase)
    }

    /// The incremental owner reserve for owning objects, as drops of XRP.
    fn get_reserve_increment<H: HostBindings>(&self, host: &mut Host<H>) -> (r: Result<Option<u32>, Error>)
        ensures
            ledger_obj::slot_read_optional::<H, u32, 4>(
                *old(host),
                *final(host),
                self.spec_slot_num(),
                sfield::ReserveIncrement::spec_code(),
                r,
            ),
    {
        ledger_obj::get_field_optional(host, self.get_slot_num(), sfield::ReserveIncrement)
    }

    /// The transaction cost of the "reference transaction" in drops of XRP.
    fn get_base_fee_drops<H: HostBindings>(&self, host: &mut Host<H>) -> (r: Result<Option<Amount>, Error>)
        ensures
            ledger_obj::slot_read_optional::<H, Amount, 48>(
                *old(host),
                *final(host),
                self.spec_slot_num(),
                sfield::BaseFeeDrops::spec_code(),
                r,
            ),
    {
        ledger_obj::get_field_optional(host, self.get_slot_num(), sfield::BaseFeeDrops)
    }

    /// The base reserve for an account in the XRP Ledger, as drops of XRP.
    fn get_reserve_base_drops<H: HostBindings>(&self, host: &mut Host<H>) -> (r: Result<
        Option<Amount>,
        Error,
    >)
        ensures
            ledger_obj::slot_read_optional::<H, Amount, 48>(
                *old(host),
                *final(host),
                self.spec_slot_num(),
                sfield::ReserveBaseDrops::spec_code(),
                r,
            ),
    {
        ledger_obj::get_field_optional(host, self.get_slot_num(), sfield::ReserveBaseDrops)
    }

    /// The incremental owner reserve for owning objects, as drops of XRP.
    fn get_reserve_increment_drops<H: HostBindings>(&self, host: &mut Host<H>) -> (r: Result<
        Option<Amount>,
        Error,
    >)
        ensures
            ledger_obj::slot_read_optional::<H, Amount, 48>(
                *old(host),
                *final(host),
                self.spec_slot_num(),
                sfield::ReserveIncrementDrops::spec_code(),
                r,
            ),
    {
        ledger_obj::get_field_optional(host, self.get_slot_num(), sfield::ReserveIncrementDrops)
    }

    /// The ExtensionComputeLimit field (Optional).
    fn get_extension_compute_limit<H: HostBindings>(&self, host: &mut Host<H>) -> (r: Result<
        Option<u32>,
        Error,
    >)
        ensures
            ledger_obj::slot_read_optional::<H, u32, 4>(
                *old(host),
                *final(host),
                self.spec_slot_num(),
                sfield::ExtensionComputeLimit::spec_code(),
                r,
            ),
    {
        ledger_obj::get_field_optional(host, self.get_slot_num(), sfield::ExtensionComputeLimit)
    }

    /// The ExtensionSizeLimit field (Optional).
    fn get_extension_size_limit<H: HostBindings>(&self, host: &mut Host<H>) -> (r: Result<Option<u32>, Error>)
        ensures
            ledger_obj::slot_read_optional::<H, u32, 4>(
                *old(host),
                *final(host),
                self.spec_slot_num(),
                sfield::ExtensionSizeLimit::spec_code(),
                r,
            ),
    {
        ledger_obj::get_field_optional(host, self.get_slot_num(), sfield::ExtensionSizeLimit)
    }

    /// The GasPrice field (Optional).
    fn get_gas_price<H: HostBindings>(&self, host: &mut Host<H>) -> (r: Result<Option<u32>, Error>)
        ensures
            ledger_obj::slot_read_optional::<H, u32, 4>(
                *old(host),
                *final(host),
                self.spec_slot_num(),
                sfield::GasPrice::spec_code(),
                r,
            ),
    {
        ledger_obj::get_field_optional(host, self.get_slot_num(), sfield::GasPrice)
    }

    /// The identifying hash of the transaction that most recently modified this entry.
    fn get_previous_txn_id<H: HostBindings>(&self, host: &mut Host<H>) -> (r: Result<Option<Hash256>, Error>)
        ensures
            ledger_obj::slot_read_optional::<H, Hash256, 32>(
                *old(host),
                *final(host),
                self.spec_slot_num(),
                sfield::PreviousTxnID::spec_code(),
                r,
            ),
    {
        ledger_obj::get_field_optional(host, self.get_slot_num(), sfield::PreviousTxnID)
    }

    /// The [index of the ledger][Ledger Index] that contains the transaction that most recently modified this entry.
    fn get_previous_txn_lgr_seq<H: HostBindings>(&self, host: &mut Host<H>) -> (r: Result<Option<u32>, Error>)
        ensures
            ledger_obj::slot_read_optional::<H, u32, 4>(
                *old(host),
                *final(host),
                self.spec_slot_num(),
                sfield::PreviousTxnLgrSeq::spec_code(),
                r,
            ),
    {
        ledger_obj::get_field_optional(host, self.get_slot_num(), sfield::PreviousTxnLgrSeq)
    }
}

/// Trait providing access to fields specific to the current FeeSettings object.
pub trait CurrentFeeSettingsFields: CurrentLedgerObjectCommonFields {
    /// The transaction cost of the "reference transaction" in drops of XRP as hexadecimal.
    fn get_base_fee<H: HostBindings>(&self, host: &mut Host<H>) -> (r: Result<Option<u64>, Error>)
        ensures
            current_ledger_obj::home_read_optional::<H, u64, 8>(
                *old(host),
                *final(host),
                sfield::BaseFee::spec_code(),
                r,
            ),
    {
        current_ledger_obj::get_field_optional(host, sfield::BaseFee)
    }

    /// The `BaseFee` translated into "fee units".
    fn get_reference_fee_units<H: HostBindings>(&self, host: &mut Host<H>) -> (r: Result<Option<u32>, Error>)
        ensures
            current_ledger_obj::home_read_optional::<H, u32, 4>(
                *old(host),
                *final(host),
                sfield::ReferenceFeeUnits::spec_code(),
                r,
            ),
    {
        current_ledger_obj::get_field_optional(host, sfield::ReferenceFeeUnits)
    }

    /// The base reserve for an account in the XRP Ledger, as drops of XRP.
    fn get_reserve_base<H: HostBindings>(&self, host: &mut Host<H>) -> (r: Result<Option<u32>, Error>)
        ensures
            current_ledger_obj::home_read_optional::<H, u32, 4>(
                *old(host),
                *final(host),
                sfield::ReserveBase::spec_code(),
                r,
            ),
    {
        current_ledger_obj::get_field_optional(host, sfield::ReserveBase)
    }

    /// The incremental owner reserve for owning objects, as drops of XRP.
    fn get_reserve_increment<H: HostBindings>(&self, host: &mut Host<H>) -> (r: Result<Option<u32>, Error>)
        ensures
            current_ledger_obj::home_read_optional::<H, u32, 4>(
                *old(host),
                *final(host),
                sfield::ReserveIncrement::spec_code(),
                r,
            ),
    {
        current_ledger_obj::get_field_optional(host, sfield::ReserveIncrement)
    }

    /// The transaction cost of the "reference transaction" in drops of XRP.
    fn get_base_fee_drops<H: HostBindings>(&self, host: &mut Host<H>) -> (r: Result<Option<Amount>, Error>)
        ensures
            current_ledger_obj::home_read_optional::<H, Amount, 48>(
                *old(host),
                *final(host),
                sfield::BaseFeeDrops::spec_code(),
                r,
            ),
    {
        current_ledger_obj::get_field_optional(host, sfield::BaseFeeDrops)
    }

    /// The base reserve for an account in the XRP Ledger, as drops of XRP.
    fn get_reserve_base_drops<H: HostBindings>(&self, host: &mut Host<H>) -> (r: Result<
        Option<Amount>,
        Error,
    >)
        ensures
            current_ledger_obj::home_read_optional::<H, Amount, 48>(
                *old(host),
                *final(host),
                sfield::ReserveBaseDrops::spec_code(),
                r,
            ),
    {
        current_ledger_obj::get_field_optional(host, sfield::ReserveBaseDrops)
    }

    /// The incremental owner reserve for owning objects, as drops of XRP.
    fn get_reserve_increment_drops<H: HostBindings>(&self, host: &mut Host<H>) -> (r: Result<
        Option<Amount>,
        Error,
    >)
        ensures
            current_ledger_obj::home_read_optional::<H, Amount, 48>(
                *old(host),
                *final(host),
                sfield::ReserveIncrementDrops::spec_code(),
                r,
            ),
    {
        current_ledger_obj::get_field_optional(host, sfield::ReserveIncrementDrops)
    }

    /// The ExtensionComputeLimit field (Optional).
    fn get_extension_compute_limit<H: HostBindings>(&self, host: &mut Host<H>) -> (r: Result<
        Option<u32>,
        Error,
    >)
        ensures
            current_ledger_obj::home_read_optional::<H, u32, 4>(
                *old(host),
                *final(host),
                sfield::ExtensionComputeLimit::spec_code(),
                r,
            ),
    {
        current_ledger_obj::get_field_optional(host, sfield::ExtensionComputeLimit)
    }

    /// The ExtensionSizeLimit field (Optional).
    fn get_extension_size_limit<H: HostBindings>(&self, host: &mut Host<H>) -> (r: Result<Option<u32>, Error>)
        ensures
            current_ledger_obj::home_read_optional::<H, u32, 4>(
                *old(host),
                *final(host),
                sfield::ExtensionSizeLimit::spec_code(),
                r,
            ),
    {
        current_ledger_obj::get_field_optional(host, sfield::ExtensionSizeLimit)
    }

    /// The GasPrice field (Optional).
    fn get_gas_price<H: HostBindings>(&self, host: &mut Host<H>) -> (r: Result<Option<u32>, Error>)
        ensures
            current_ledger_obj::home_read_optional::<H, u32, 4>(
                *old(host),
                *final(host),
                sfield::GasPrice::spec_code(),
                r,
            ),
    {
        current_ledger_obj::get_field_optional(host, sfield::GasPrice)
    }

    /// The identifying hash of the transaction that most recently modified this entry.
    fn get_previous_txn_id<H: HostBindings>(&self, host: &mut Host<H>) -> (r: Result<Option<Hash256>, Error>)
        ensures
            current_ledger_obj::home_read_optional::<H, Hash256, 32>(
                *old(host),
                *final(host),
                sfield::PreviousTxnID::spec_code(),
                r,
            ),
    {
        current_ledger_obj::get_field_optional(host, sfield::PreviousTxnID)
    }

    /// The [index of the ledger][Ledger Index] that contains the transaction that most recently modified this entry.
    fn get_previous_txn_lgr_seq<H: HostBindings>(&self, host: &mut Host<H>) -> (r: Result<Option<u32>, Error>)
        ensures
            current_ledger_obj::home_read_optional::<H, u32, 4>(
                *old(host),
                *final(host),
                sfield::PreviousTxnLgrSeq::spec_code(),
                r,
            ),
    {
        current_ledger_obj::get_field_optional(host, sfield::PreviousTxnLgrSeq)
    }
}

/// A handle to a FeeSettings object cached in a host slot.
#[derive(Debug, Clone, Copy, PartialEq, Eq, Structural)]
pub struct FeeSettings {
    pub slot_num: i32,
}

impl FeeSettings {
    /// Wraps the slot a FeeSettings object is cached in.
    pub fn new(slot_num: i32) -> (r: FeeSettings)
        ensures
            r.slot_num == slot_num,
    {
        FeeSettings { slot_num }
    }
}

impl LedgerObjectCommonFields for FeeSettings {
    open spec fn spec_slot_num(&self) -> i32 {
        self.slot_num
    }

    fn get_slot_num(&self) -> (r: i32) {
        assert(self.spec_slot_num() == self.slot_num);
        self.slot_num
    }
}

impl FeeSettingsFields for FeeSettings {

}

} // verus!
