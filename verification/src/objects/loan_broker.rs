//! The `LoanBroker` ledger object: typed accessors for its fields.

use vstd::prelude::*;
use crate::host::calls::Host;
use crate::fields::{current_ledger_obj, ledger_obj};
use crate::host::{Error, HostBindings};
use crate::objects::traits::{CurrentLedgerObjectCommonFields, LedgerObjectCommonFields};
use crate::sfield;
use crate::sfield::SField;
use crate::types::account_id::AccountID;
use crate::types::blob::StandardBlob;
use crate::types::uint::Hash256;

verus! {

/// Trait providing access to fields specific to LoanBroker objects in any ledger.
pub trait LoanBrokerFields: LedgerObjectCommonFields {
    /// Identifies the transaction ID that most recently modified this object.
    fn previous_txn_id<H: HostBindings>(&self, host: &mut Host<H>) -> (r: Result<Hash256, Error>)
        ensures
            ledger_obj::slot_read::<H, Hash256, 32>(
                *old(host),
                *final(host),
                self.spec_slot_num(),
                sfield::PreviousTxnID::spec_code(),
                r,
            ),
    {
        ledger_obj::get_field(host, self.get_slot_num(), sfield::PreviousTxnID)
    }

    /// The sequence of the ledger that contains the transaction that most recently modified this object.
    fn previous_txn_lgr_seq<H: HostBindings>(&self, host: &mut Host<H>) -> (r: Result<u32, Error>)
        ensures
            ledger_obj::slot_read::<H, u32, 4>(
                *old(host),
                *final(host),
                self.spec_slot_num(),
                sfield::PreviousTxnLgrSeq::spec_code(),
                r,
            ),
    {
        ledger_obj::get_field(host, self.get_slot_num(), sfield::PreviousTxnLgrSeq)
    }

    /// The transaction sequence number that created the LoanBroker.
    fn sequence<H: HostBindings>(&self, host: &mut Host<H>) -> (r: Result<u32, Error>)
        ensures
            ledger_obj::slot_read::<H, u32, 4>(
                *old(host),
                *final(host),
                self.spec_slot_num(),
                sfield::Sequence::spec_code(),
                r,
            ),
    {
        ledger_obj::get_field(host, self.get_slot_num(), sfield::Sequence)
    }

    /// Identifies the page where this item is referenced in the owner's directory.
    fn owner_node<H: HostBindings>(&self, host: &mut Host<H>) -> (r: Result<u64, Error>)
        ensures
            ledger_obj::slot_read::<H, u64, 8>(
                *old(host),
                *final(host),
                self.spec_slot_num(),
                sfield::OwnerNode::spec_code(),
                r,
            ),
    {
        ledger_obj::get_field(host, self.get_slot_num(), sfield::OwnerNode)
    }

    /// Identifies the page where this item is referenced in the `Vault` pseudo-account owner's directory.
    fn vault_node<H: HostBindings>(&self, host: &mut Host<H>) -> (r: Result<u64, Error>)
        ensures
            ledger_obj::slot_read::<H, u64, 8>(
                *old(host),
                *final(host),
                self.spec_slot_num(),
                sfield::VaultNode::spec_code(),
                r,
            ),
    {
        ledger_obj::get_field(host, self.get_slot_num(), sfield::VaultNode)
    }

    /// The ID of the vault that provides the loaned assets.
    fn vault_id<H: HostBindings>(&self, host: &mut Host<H>) -> (r: Result<Hash256, Error>)
        ensures
            ledger_obj::slot_read::<H, Hash256, 32>(
                *old(host),
                *final(host),
                self.spec_slot_num(),
                sfield::VaultID::spec_code(),
                r,
            ),
    {
        ledger_obj::get_field(host, self.get_slot_num(), sfield::VaultID)
    }

    /// The address of the `LoanBroker` pseudo-account.
    fn account<H: HostBindings>(&self, host: &mut Host<H>) -> (r: Result<AccountID, Error>)
        ensures
            ledger_obj::slot_read::<H, AccountID, 20>(
                *old(host),
                *final(host),
                self.spec_slot_num(),
                sfield::Account::spec_code(),
                r,
            ),
    {
        ledger_obj::get_field(host, self.get_slot_num(), sfield::Account)
    }

    /// The account address of the vault owner.
    fn owner<H: HostBindings>(&self, host: &mut Host<H>) -> (r: Result<AccountID, Error>)
        ensures
            ledger_obj::slot_read::<H, AccountID, 20>(
                *old(host),
                *final(host),
                self.spec_slot_num(),
                sfield::Owner::spec_code(),
                r,
            ),
    {
        ledger_obj::get_field(host, self.get_slot_num(), sfield::Owner)
    }

    /// A sequential identifier for `Loan` ledger entires, incremented each time a new loan is created by this `LoanBroker`.
    fn loan_sequence<H: HostBindings>(&self, host: &mut Host<H>) -> (r: Result<u32, Error>)
        ensures
            ledger_obj::slot_read::<H, u32, 4>(
                *old(host),
                *final(host),
                self.spec_slot_num(),
                sfield::LoanSequence::spec_code(),
                r,
            ),
    {
        ledger_obj::get_field(host, self.get_slot_num(), sfield::LoanSequence)
    }

    /// Arbitrary metadata about the vault. Limited to 256 bytes.
    fn data<H: HostBindings>(&self, host: &mut Host<H>) -> (r: Result<Option<StandardBlob>, Error>)
        ensures
            ledger_obj::slot_read_optional::<H, StandardBlob, 1024>(
                *old(host),
                *final(host),
                self.spec_slot_num(),
                sfield::Data::spec_code(),
                r,
            ),
    {
        ledger_obj::get_field_optional(host, self.get_slot_num(), sfield::Data)
    }

    /// The fee charged by the lending protocol on any loan interest, in units of 1/10th basis points. Valid values are 0 to 10000 (inclusive), representing 0% to 10%.
    fn management_fee_rate<H: HostBindings>(&self, host: &mut Host<H>) -> (r: Result<Option<u16>, Error>)
        ensures
            ledger_obj::slot_read_optional::<H, u16, 2>(
                *old(host),
                *final(host),
                self.spec_slot_num(),
                sfield::ManagementFeeRate::spec_code(),
                r,
            ),
    {
        ledger_obj::get_field_optional(host, self.get_slot_num(), sfield::ManagementFeeRate)
    }

    /// The number of active loans issued by the LoanBroker.
    fn owner_count<H: HostBindings>(&self, host: &mut Host<H>) -> (r: Result<Option<u32>, Error>)
        ensures
            ledger_obj::slot_read_optional::<H, u32, 4>(
                *old(host),
                *final(host),
                self.spec_slot_num(),
                sfield::OwnerCount::spec_code(),
                r,
            ),
    {
        ledger_obj::get_field_optional(host, self.get_slot_num(), sfield::OwnerCount)
    }

    /// The total asset amount the protocol owes the vault, including interest.
    /// Raw bytes; NUMBER is not yet typed in Rust.
    fn debt_total<H: HostBindings>(&self, host: &mut Host<H>) -> (r: Result<Option<[u8; 512]>, Error>)
        ensures
            ledger_obj::slot_raw_read_optional(
                *old(host),
                *final(host),
                self.spec_slot_num(),
                sfield::DebtTotal::spec_code(),
                r,
            ),
    {
        ledger_obj::get_raw_field_optional(host, self.get_slot_num(), sfield::DebtTotal)
    }

    /// The maximum amount the protocol can owe the vault. The default value of `0` means there is no limit to the debt.
    /// Raw bytes; NUMBER is not yet typed in Rust.
    fn debt_maximum<H: HostBindings>(&self, host: &mut Host<H>) -> (r: Result<Option<[u8; 512]>, Error>)
        ensures
            ledger_obj::slot_raw_read_optional(
                *old(host),
                *final(host),
                self.spec_slot_num(),
                sfield::DebtMaximum::spec_code(),
                r,
            ),
    {
        ledger_obj::get_raw_field_optional(host, self.get_slot_num(), sfield::DebtMaximum)
    }

    /// The total amount of first-loss capital deposited into the lending protocol.
    /// Raw bytes; NUMBER is not yet typed in Rust.
    fn cover_available<H: HostBindings>(&self, host: &mut Host<H>) -> (r: Result<Option<[u8; 512]>, Error>)
        ensures
            ledger_obj::slot_raw_read_optional(
                *old(host),
                *final(host),
                self.spec_slot_num(),
                sfield::CoverAvailable::spec_code(),
                r,
            ),
    {
        ledger_obj::get_raw_field_optional(host, self.get_slot_num(), sfield::CoverAvailable)
    }

    /// The 1/10th basis point of the `DebtTotal` that the first-loss capital must cover. Valid values are 0 to 100000 (inclusive), representing 0% to 100%.
    fn cover_rate_minimum<H: HostBindings>(&self, host: &mut Host<H>) -> (r: Result<Option<u32>, Error>)
        ensures
            ledger_obj::slot_read_optional::<H, u32, 4>(
                *old(host),
                *final(host),
                self.spec_slot_num(),
                sfield::CoverRateMinimum::spec_code(),
                r,
            ),
    {
        ledger_obj::get_field_optional(host, self.get_slot_num(), sfield::CoverRateMinimum)
    }

    /// The 1/10th basis point of minimum required first-loss capital that is moved to an asset vault to cover a loan default. Valid values are 0 to 100000 (inclusive), representing 0% to 100%.
    fn cover_rate_liquidation<H: HostBindings>(&self, host: &mut Host<H>) -> (r: Result<Option<u32>, Error>)
        ensures
            ledger_obj::slot_read_optional::<H, u32, 4>(
                *old(host),
                *final(host),
                self.spec_slot_num(),
                sfield::CoverRateLiquidation::spec_code(),
                r,
            ),
    {
        ledger_obj::get_field_optional(host, self.get_slot_num(), sfield::CoverRateLiquidation)
    }
}

/// Trait providing access to fields specific to the current LoanBroker object.
pub trait CurrentLoanBrokerFields: CurrentLedgerObjectCommonFields {
    /// Identifies the transaction ID that most recently modified this object.
    fn previous_txn_id<H: HostBindings>(&self, host: &mut Host<H>) -> (r: Result<Hash256, Error>)
        ensures
            current_ledger_obj::home_read::<H, Hash256, 32>(
                *old(host),
                *final(host),
                sfield::PreviousTxnID::spec_code(),
                r,
            ),
    {
        current_ledger_obj::get_field(host, sfield::PreviousTxnID)
    }

    /// The sequence of the ledger that contains the transaction that most recently modified this object.
    fn previous_txn_lgr_seq<H: HostBindings>(&self, host: &mut Host<H>) -> (r: Result<u32, Error>)
        ensures
            current_ledger_obj::home_read::<H, u32, 4>(
                *old(host),
                *final(host),
                sfield::PreviousTxnLgrSeq::spec_code(),
                r,
            ),
    {
        current_ledger_obj::get_field(host, sfield::PreviousTxnLgrSeq)
    }

    /// The transaction sequence number that created the LoanBroker.
    fn sequence<H: HostBindings>(&self, host: &mut Host<H>) -> (r: Result<u32, Error>)
        ensures
            current_ledger_obj::home_read::<H, u32, 4>(*old(host), *final(host), sfield::Sequence::spec_code(), r),
    {
        current_ledger_obj::get_field(host, sfield::Sequence)
    }

    /// Identifies the page where this item is referenced in the owner's directory.
    fn owner_node<H: HostBindings>(&self, host: &mut Host<H>) -> (r: Result<u64, Error>)
        ensures
            current_ledger_obj::home_read::<H, u64, 8>(*old(host), *final(host), sfield::OwnerNode::spec_code(), r),
    {
        current_ledger_obj::get_field(host, sfield::OwnerNode)
    }

    /// Identifies the page where this item is referenced in the `Vault` pseudo-account owner's directory.
    fn vault_node<H: HostBindings>(&self, host: &mut Host<H>) -> (r: Result<u64, Error>)
        ensures
            current_ledger_obj::home_read::<H, u64, 8>(*old(host), *final(host), sfield::VaultNode::spec_code(), r),
    {
        current_ledger_obj::get_field(host, sfield::VaultNode)
    }

    /// The ID of the vault that provides the loaned assets.
    fn vault_id<H: HostBindings>(&self, host: &mut Host<H>) -> (r: Result<Hash256, Error>)
        ensures
            current_ledger_obj::home_read::<H, Hash256, 32>(*old(host), *final(host), sfield::VaultID::spec_code(), r),
    {
        current_ledger_obj::get_field(host, sfield::VaultID)
    }

    /// The address of the `LoanBroker` pseudo-account.
    fn account<H: HostBindings>(&self, host: &mut Host<H>) -> (r: Result<AccountID, Error>)
        ensures
            current_ledger_obj::home_read::<H, AccountID, 20>(
                *old(host),
                *final(host),
                sfield::Account::spec_code(),
                r,
            ),
    {
        current_ledger_obj::get_field(host, sfield::Account)
    }

    /// The account address of the vault owner.
    fn owner<H: HostBindings>(&self, host: &mut Host<H>) -> (r: Result<AccountID, Error>)
        ensures
            current_ledger_obj::home_read::<H, AccountID, 20>(*old(host), *final(host), sfield::Owner::spec_code(), r),
    {
        current_ledger_obj::get_field(host, sfield::Owner)
    }

    /// A sequential identifier for `Loan` ledger entires, incremented each time a new loan is created by this `LoanBroker`.
    fn loan_sequence<H: HostBindings>(&self, host: &mut Host<H>) -> (r: Result<u32, Error>)
        ensures
            current_ledger_obj::home_read::<H, u32, 4>(*old(host), *final(host), sfield::LoanSequence::spec_code(), r),
    {
        current_ledger_obj::get_field(host, sfield::LoanSequence)
    }

    /// Arbitrary metadata about the vault. Limited to 256 bytes.
    fn data<H: HostBindings>(&self, host: &mut Host<H>) -> (r: Result<Option<StandardBlob>, Error>)
        ensures
            current_ledger_obj::home_read_optional::<H, StandardBlob, 1024>(
                *old(host),
                *final(host),
                sfield::Data::spec_code(),
                r,
            ),
    {
        current_ledger_obj::get_field_optional(host, sfield::Data)
    }

    /// The fee charged by the lending protocol on any loan interest, in units of 1/10th basis points. Valid values are 0 to 10000 (inclusive), representing 0% to 10%.
    fn management_fee_rate<H: HostBindings>(&self, host: &mut Host<H>) -> (r: Result<Option<u16>, Error>)
        ensures
            current_ledger_obj::home_read_optional::<H, u16, 2>(
                *old(host),
                *final(host),
                sfield::ManagementFeeRate::spec_code(),
                r,
            ),
    {
        current_ledger_obj::get_field_optional(host, sfield::ManagementFeeRate)
    }

    /// The number of active loans issued by the LoanBroker.
    fn owner_count<H: HostBindings>(&self, host: &mut Host<H>) -> (r: Result<Option<u32>, Error>)
        ensures
            current_ledger_obj::home_read_optional::<H, u32, 4>(
                *old(host),
                *final(host),
                sfield::OwnerCount::spec_code(),
                r,
            ),
    {
        current_ledger_obj::get_field_optional(host, sfield::OwnerCount)
    }

    /// The total asset amount the protocol owes the vault, including interest.
    /// Raw bytes; NUMBER is not yet typed in Rust.
    fn debt_total<H: HostBindings>(&self, host: &mut Host<H>) -> (r: Result<Option<[u8; 512]>, Error>)
        ensures
            current_ledger_obj::home_raw_read_optional(*old(host), *final(host), sfield::DebtTotal::spec_code(), r),
    {
        current_ledger_obj::get_raw_field_optional(host, sfield::DebtTotal)
    }

    /// The maximum amount the protocol can owe the vault. The default value of `0` means there is no limit to the debt.
    /// Raw bytes; NUMBER is not yet typed in Rust.
    fn debt_maximum<H: HostBindings>(&self, host: &mut Host<H>) -> (r: Result<Option<[u8; 512]>, Error>)
        ensures
            current_ledger_obj::home_raw_read_optional(*old(host), *final(host), sfield::DebtMaximum::spec_code(), r),
    {
        current_ledger_obj::get_raw_field_optional(host, sfield::DebtMaximum)
    }

    /// The total amount of first-loss capital deposited into the lending protocol.
    /// Raw bytes; NUMBER is not yet typed in Rust.
    fn cover_available<H: HostBindings>(&self, host: &mut Host<H>) -> (r: Result<Option<[u8; 512]>, Error>)
        ensures
            current_ledger_obj::home_raw_read_optional(
                *old(host),
                *final(host),
                sfield::CoverAvailable::spec_code(),
                r,
            ),
    {
        current_ledger_obj::get_raw_field_optional(host, sfield::CoverAvailable)
    }

    /// The 1/10th basis point of the `DebtTotal` that the first-loss capital must cover. Valid values are 0 to 100000 (inclusive), representing 0% to 100%.
    fn cover_rate_minimum<H: HostBindings>(&self, host: &mut Host<H>) -> (r: Result<Option<u32>, Error>)
        ensures
            current_ledger_obj::home_read_optional::<H, u32, 4>(
                *old(host),
                *final(host),
                sfield::CoverRateMinimum::spec_code(),
                r,
            ),
    {
        current_ledger_obj::get_field_optional(host, sfield::CoverRateMinimum)
    }

    /// The 1/10th basis point of minimum required first-loss capital that is moved to an asset vault to cover a loan default. Valid values are 0 to 100000 (inclusive), representing 0% to 100%.
    fn cover_rate_liquidation<H: HostBindings>(&self, host: &mut Host<H>) -> (r: Result<Option<u32>, Error>)
        ensures
            current_ledger_obj::home_read_optional::<H, u32, 4>(
                *old(host),
                *final(host),
                sfield::CoverRateLiquidation::spec_code(),
                r,
            ),
    {
        current_ledger_obj::get_field_optional(host, sfield::CoverRateLiquidation)
    }
}

/// A handle to a LoanBroker object cached in a host slot.
#[derive(Debug, Clone, Copy, PartialEq, Eq, Structural)]
pub struct LoanBroker {
    pub slot_num: i32,
}

impl LoanBroker {
    /// Wraps the slot a LoanBroker object is cached in.
    pub fn new(slot_num: i32) -> (r: LoanBroker)
        ensures
            r.slot_num == slot_num,
    {
        LoanBroker { slot_num }
    }
}

impl LedgerObjectCommonFields for LoanBroker {
    open spec fn spec_slot_num(&self) -> i32 {
        self.slot_num
    }

    fn get_slot_num(&self) -> (r: i32) {
        assert(self.spec_slot_num() == self.slot_num);
        self.slot_num
    }
}

impl LoanBrokerFields for LoanBroker {

}

} // verus!
