//! The `MPTokenIssuance` ledger object: typed accessors for its fields.

use vstd::prelude::*;
use crate::host::calls::Host;
use crate::fields::{current_ledger_obj, ledger_obj};
use crate::host::{Error, HostBindings};
use crate::objects::traits::{CurrentLedgerObjectCommonFields, LedgerObjectCommonFields};
use crate::sfield;
use crate::sfield::SField;
use crate::types::account_id::AccountID;
use crate::types::blob::StandardBlob;
use crate::types::uint::Hash256;

verus! {

/// Trait providing access to fields specific to MPTokenIssuance objects in any ledger.
pub trait MPTokenIssuanceFields: LedgerObjectCommonFields {
    /// The address of the account that controls both the issuance amounts and characteristics of a particular fungible token.
    fn get_issuer<H: HostBindings>(&self, host: &mut Host<H>) -> (r: Result<AccountID, Error>)
        ensures
            ledger_obj::slot_read::<H, AccountID, 20>(
                *old(host),
                *final(host),
                self.spec_slot_num(),
                sfield::Issuer::spec_code(),
                r,
            ),
    {
        ledger_obj::get_field(host, self.get_slot_num(), sfield::Issuer)
    }

    /// The `Sequence` (or `Ticket`) number of the transaction that created this issuance. This helps to uniquely identify the issuance and distinguish it from any other later MPT issuances created by this account.
    fn get_sequence<H: HostBindings>(&self, host: &mut Host<H>) -> (r: Result<u32, Error>)
        ensures
            ledger_obj::slot_read::<H, u32, 4>(
                *old(host),
                *final(host),
                self.spec_slot_num(),
                sfield::Sequence::spec_code(),
                r,
            ),
    {
        ledger_obj::get_field(host, self.get_slot_num(), sfield::Sequence)
    }

    /// This value specifies the fee, in tenths of a basis point, charged by the issuer for secondary sales of the token, if such sales are allowed at all. Valid values for this field are between 0 and 50,000 inclusive. A value of 1 is equivalent to 1/10 of a basis point or 0.001%, allowing transfer rates between 0% and 50%. A `TransferFee` of 50,000 corresponds to 50%. The default value for this field is 0. Any decimals in the transfer fee are rounded down. The fee can be rounded down to zero if the payment is small. Issuers should make sure that their MPT's `AssetScale` is large enough.
    fn get_transfer_fee<H: HostBindings>(&self, host: &mut Host<H>) -> (r: Result<Option<u16>, Error>)
        ensures
            ledger_obj::slot_read_optional::<H, u16, 2>(
                *old(host),
                *final(host),
                self.spec_slot_num(),
                sfield::TransferFee::spec_code(),
                r,
            ),
    {
        ledger_obj::get_field_optional(host, self.get_slot_num(), sfield::TransferFee)
    }

    /// A hint indicating which page of the owner directory links to this entry, in case the directory consists of multiple pages.
    fn get_owner_node<H: HostBindings>(&self, host: &mut Host<H>) -> (r: Result<u64, Error>)
        ensures
            ledger_obj::slot_read::<H, u64, 8>(
                *old(host),
                *final(host),
                self.spec_slot_num(),
                sfield::OwnerNode::spec_code(),
                r,
            ),
    {
        ledger_obj::get_field(host, self.get_slot_num(), sfield::OwnerNode)
    }

    /// Where to put the decimal place when displaying amounts of this MPT. More formally, the asset scale is a non-negative integer (0, 1, 2, …) such that one standard unit equals 10^(-scale) of a corresponding fractional unit. For example, if a US Dollar Stablecoin has an asset scale of _2_, then 1 unit of that MPT would equal 0.01 US Dollars. This indicates to how many decimal places the MPT can be subdivided. The default is `0`, meaning that the MPT cannot be divided into smaller than 1 unit.
    fn get_asset_scale<H: HostBindings>(&self, host: &mut Host<H>) -> (r: Result<Option<u8>, Error>)
        ensures
            ledger_obj::slot_read_optional::<H, u8, 1>(
                *old(host),
                *final(host),
                self.spec_slot_num(),
                sfield::AssetScale::spec_code(),
                r,
            ),
    {
        ledger_obj::get_field_optional(host, self.get_slot_num(), sfield::AssetScale)
    }

    /// The maximum number of MPTs that can exist at one time. If omitted, the maximum is currently limited to 2<sup>63</sup>-1.
    fn get_maximum_amount<H: HostBindings>(&self, host: &mut Host<H>) -> (r: Result<Option<u64>, Error>)
        ensures
            ledger_obj::slot_read_optional::<H, u64, 8>(
                *old(host),
                *final(host),
                self.spec_slot_num(),
                sfield::MaximumAmount::spec_code(),
                r,
            ),
    {
        ledger_obj::get_field_optional(host, self.get_slot_num(), sfield::MaximumAmount)
    }

    /// The total amount of MPTs of this issuance currently in circulation. This value increases when the issuer sends MPTs to a non-issuer, and decreases whenever the issuer receives MPTs.
    fn get_outstanding_amount<H: HostBindings>(&self, host: &mut Host<H>) -> (r: Result<u64, Error>)
        ensures
            ledger_obj::slot_read::<H, u64, 8>(
                *old(host),
                *final(host),
                self.spec_slot_num(),
                sfield::OutstandingAmount::spec_code(),
                r,
            ),
    {
        ledger_obj::get_field(host, self.get_slot_num(), sfield::OutstandingAmount)
    }

    /// The amount of tokens currently locked up (for example, in escrow). This amount is already included in the `OutstandingAmount`.
    fn get_locked_amount<H: HostBindings>(&self, host: &mut Host<H>) -> (r: Result<Option<u64>, Error>)
        ensures
            ledger_obj::slot_read_optional::<H, u64, 8>(
                *old(host),
                *final(host),
                self.spec_slot_num(),
                sfield::LockedAmount::spec_code(),
                r,
            ),
    {
        ledger_obj::get_field_optional(host, self.get_slot_num(), sfield::LockedAmount)
    }

    /// Arbitrary metadata about this issuance, in hex format. The limit for this field is 1024 bytes.
    fn get_mptoken_metadata<H: HostBindings>(&self, host: &mut Host<H>) -> (r: Result<
        Option<StandardBlob>,
        Error,
    >)
        ensures
            ledger_obj::slot_read_optional::<H, StandardBlob, 1024>(
                *old(host),
                *final(host),
                self.spec_slot_num(),
                sfield::MPTokenMetadata::spec_code(),
                r,
            ),
    {
        ledger_obj::get_field_optional(host, self.get_slot_num(), sfield::MPTokenMetadata)
    }

    /// The identifying hash of the transaction that most recently modified this entry.
    fn get_previous_txn_id<H: HostBindings>(&self, host: &mut Host<H>) -> (r: Result<Hash256, Error>)
        ensures
            ledger_obj::slot_read::<H, Hash256, 32>(
                *old(host),
                *final(host),
                self.spec_slot_num(),
                sfield::PreviousTxnID::spec_code(),
                r,
            ),
    {
        ledger_obj::get_field(host, self.get_slot_num(), sfield::PreviousTxnID)
    }

    /// The [index of the ledger][Ledger Index] that contains the transaction that most recently modified this object.
    fn get_previous_txn_lgr_seq<H: HostBindings>(&self, host: &mut Host<H>) -> (r: Result<u32, Error>)
        ensures
            ledger_obj::slot_read::<H, u32, 4>(
                *old(host),
                *final(host),
                self.spec_slot_num(),
                sfield::PreviousTxnLgrSeq::spec_code(),
                r,
            ),
    {
        ledger_obj::get_field(host, self.get_slot_num(), sfield::PreviousTxnLgrSeq)
    }

    /// The DomainID field (Optional).
    fn get_domain_id<H: HostBindings>(&self, host: &mut Host<H>) -> (r: Result<Option<Hash256>, Error>)
        ensures
            ledger_obj::slot_read_optional::<H, Hash256, 32>(
                *old(host),
                *final(host),
                self.spec_slot_num(),
                sfield::DomainID::spec_code(),
                r,
            ),
    {
        ledger_obj::get_field_optional(host, self.get_slot_num(), sfield::DomainID)
    }

    /// The MutableFlags field (Optional).
    fn get_mutable_flags<H: HostBindings>(&self, host: &mut Host<H>) -> (r: Result<Option<u32>, Error>)
        ensures
            ledger_obj::slot_read_optional::<H, u32, 4>(
                *old(host),
                *final(host),
                self.spec_slot_num(),
                sfield::MutableFlags::spec_code(),
                r,
            ),
    {
        ledger_obj::get_field_optional(host, self.get_slot_num(), sfield::MutableFlags)
    }
}

/// Trait providing access to fields specific to the current MPTokenIssuance object.
pub trait CurrentMPTokenIssuanceFields: CurrentLedgerObjectCommonFields {
    /// The address of the account that controls both the issuance amounts and characteristics of a particular fungible token.
    fn get_issuer<H: HostBindings>(&self, host: &mut Host<H>) -> (r: Result<AccountID, Error>)
        ensures
            current_ledger_obj::home_read::<H, AccountID, 20>(*old(host), *final(host), sfield::Issuer::spec_code(), r),
    {
        current_ledger_obj::get_field(host, sfield::Issuer)
    }

    /// The `Sequence` (or `Ticket`) number of the transaction that created this issuance. This helps to uniquely identify the issuance and distinguish it from any other later MPT issuances created by this account.
    fn get_sequence<H: HostBindings>(&self, host: &mut Host<H>) -> (r: Result<u32, Error>)
        ensures
            current_ledger_obj::home_read::<H, u32, 4>(*old(host), *final(host), sfield::Sequence::spec_code(), r),
    {
        current_ledger_obj::get_field(host, sfield::Sequence)
    }

    /// This value specifies the fee, in tenths of a basis point, charged by the issuer for secondary sales of the token, if such sales are allowed at all. Valid values for this field are between 0 and 50,000 inclusive. A value of 1 is equivalent to 1/10 of a basis point or 0.001%, allowing transfer rates between 0% and 50%. A `TransferFee` of 50,000 corresponds to 50%. The default value for this field is 0. Any decimals in the transfer fee are rounded down. The fee can be rounded down to zero if the payment is small. Issuers should make sure that their MPT's `AssetScale` is large enough.
    fn get_transfer_fee<H: HostBindings>(&self, host: &mut Host<H>) -> (r: Result<Option<u16>, Error>)
        ensures
            current_ledger_obj::home_read_optional::<H, u16, 2>(
                *old(host),
                *final(host),
                sfield::TransferFee::spec_code(),
                r,
            ),
    {
        current_ledger_obj::get_field_optional(host, sfield::TransferFee)
    }

    /// A hint indicating which page of the owner directory links to this entry, in case the directory consists of multiple pages.
    fn get_owner_node<H: HostBindings>(&self, host: &mut Host<H>) -> (r: Result<u64, Error>)
        ensures
            current_ledger_obj::home_read::<H, u64, 8>(*old(host), *final(host), sfield::OwnerNode::spec_code(), r),
    {
        current_ledger_obj::get_field(host, sfield::OwnerNode)
    }

    /// Where to put the decimal place when displaying amounts of this MPT. More formally, the asset scale is a non-negative integer (0, 1, 2, …) such that one standard unit equals 10^(-scale) of a corresponding fractional unit. For example, if a US Dollar Stablecoin has an asset scale of _2_, then 1 unit of that MPT would equal 0.01 US Dollars. This indicates to how many decimal places the MPT can be subdivided. The default is `0`, meaning that the MPT cannot be divided into smaller than 1 unit.
    fn get_asset_scale<H: HostBindings>(&self, host: &mut Host<H>) -> (r: Result<Option<u8>, Error>)
        ensures
            current_ledger_obj::home_read_optional::<H, u8, 1>(
                *old(host),
                *final(host),
                sfield::AssetScale::spec_code(),
                r,
            ),
    {
        current_ledger_obj::get_field_optional(host, sfield::AssetScale)
    }

    /// The maximum number of MPTs that can exist at one time. If omitted, the maximum is currently limited to 2<sup>63</sup>-1.
    fn get_maximum_amount<H: HostBindings>(&self, host: &mut Host<H>) -> (r: Result<Option<u64>, Error>)
        ensures
            current_ledger_obj::home_read_optional::<H, u64, 8>(
                *old(host),
                *final(host),
                sfield::MaximumAmount::spec_code(),
                r,
            ),
    {
        current_ledger_obj::get_field_optional(host, sfield::MaximumAmount)
    }

    /// The total amount of MPTs of this issuance currently in circulation. This value increases when the issuer sends MPTs to a non-issuer, and decreases whenever the issuer receives MPTs.
    fn get_outstanding_amount<H: HostBindings>(&self, host: &mut Host<H>) -> (r: Result<u64, Error>)
        ensures
            current_ledger_obj::home_read::<H, u64, 8>(
                *old(host),
                *final(host),
                sfield::OutstandingAmount::spec_code(),
                r,
            ),
    {
        current_ledger_obj::get_field(host, sfield::OutstandingAmount)
    }

    /// The amount of tokens currently locked up (for example, in escrow). This amount is already included in the `OutstandingAmount`.
    fn get_locked_amount<H: HostBindings>(&self, host: &mut Host<H>) -> (r: Result<Option<u64>, Error>)
        ensures
            current_ledger_obj::home_read_optional::<H, u64, 8>(
                *old(host),
                *final(host),
                sfield::LockedAmount::spec_code(),
                r,
            ),
    {
        current_ledger_obj::get_field_optional(host, sfield::LockedAmount)
    }

    /// Arbitrary metadata about this issuance, in hex format. The limit for this field is 1024 bytes.
    fn get_mptoken_metadata<H: HostBindings>(&self, host: &mut Host<H>) -> (r: Result<
        Option<StandardBlob>,
        Error,
    >)
        ensures
            current_ledger_obj::home_read_optional::<H, StandardBlob, 1024>(
                *old(host),
                *final(host),
                sfield::MPTokenMetadata::spec_code(),
                r,
            ),
    {
        current_ledger_obj::get_field_optional(host, sfield::MPTokenMetadata)
    }

    /// The identifying hash of the transaction that most recently modified this entry.
    fn get_previous_txn_id<H: HostBindings>(&self, host: &mut Host<H>) -> (r: Result<Hash256, Error>)
        ensures
            current_ledger_obj::home_read::<H, Hash256, 32>(
                *old(host),
                *final(host),
                sfield::PreviousTxnID::spec_code(),
                r,
            ),
    {
        current_ledger_obj::get_field(host, sfield::PreviousTxnID)
    }

    /// The [index of the ledger][Ledger Index] that contains the transaction that most recently modified this object.
    fn get_previous_txn_lgr_seq<H: HostBindings>(&self, host: &mut Host<H>) -> (r: Result<u32, Error>)
        ensures
            current_ledger_obj::home_read::<H, u32, 4>(
                *old(host),
                *final(host),
                sfield::PreviousTxnLgrSeq::spec_code(),
                r,
            ),
    {
        current_ledger_obj::get_field(host, sfield::PreviousTxnLgrSeq)
    }

    /// The DomainID field (Optional).
    fn get_domain_id<H: HostBindings>(&self, host: &mut Host<H>) -> (r: Result<Option<Hash256>, Error>)
        ensures
            current_ledger_obj::home_read_optional::<H, Hash256, 32>(
                *old(host),
                *final(host),
                sfield::DomainID::spec_code(),
                r,
            ),
    {
        current_ledger_obj::get_field_optional(host, sfield::DomainID)
    }

    /// The MutableFlags field (Optional).
    fn get_mutable_flags<H: HostBindings>(&self, host: &mut Host<H>) -> (r: Result<Option<u32>, Error>)
        ensures
            current_ledger_obj::home_read_optional::<H, u32, 4>(
                *old(host),
                *final(host),
                sfield::MutableFlags::spec_code(),
                r,
            ),
    {
        current_ledger_obj::get_field_optional(host, sfield::MutableFlags)
    }
}

/// A handle to an MPTokenIssuance object cached in a host slot.
#[derive(Debug, Clone, Copy, PartialEq, Eq, Structural)]
pub struct MPTokenIssuance {
    pub slot_num: i32,
}

impl MPTokenIssuance {
    /// Wraps the slot an MPTokenIssuance object is cached in.
    pub fn new(slot_num: i32) -> (r: MPTokenIssuance)
        ensures
            r.slot_num == slot_num,
    {
        MPTokenIssuance { slot_num }
    }
}

impl LedgerObjectCommonFields for MPTokenIssuance {
    open spec fn spec_slot_num(&self) -> i32 {
        self.slot_num
    }

    fn get_slot_num(&self) -> (r: i32) {
        assert(self.spec_slot_num() == self.slot_num);
        self.slot_num
    }
}

impl MPTokenIssuanceFields for MPTokenIssuance {

}

} // verus!
