//! The `Vault` ledger object: typed accessors for its fields.

use vstd::prelude::*;
use crate::host::calls::Host;
use crate::fields::{current_ledger_obj, ledger_obj};
use crate::host::{Error, HostBindings};
use crate::objects::traits::{CurrentLedgerObjectCommonFields, LedgerObjectCommonFields};
use crate::sfield;
use crate::sfield::SField;
use crate::types::account_id::AccountID;
use crate::types::blob::StandardBlob;
use crate::types::issue::Issue;
use crate::types::uint::{Hash192, Hash256};

verus! {

/// Trait providing access to fields specific to Vault objects in any ledger.
pub trait VaultFields: LedgerObjectCommonFields {
    /// The identifying hash of the transaction that most recently modified this entry.
    fn get_previous_txn_id<H: HostBindings>(&self, host: &mut Host<H>) -> (r: Result<Hash256, Error>)
        ensures
            ledger_obj::slot_read::<H, Hash256, 32>(
                *old(host),
                *final(host),
                self.spec_slot_num(),
                sfield::PreviousTxnID::spec_code(),
                r,
            ),
    {
        ledger_obj::get_field(host, self.get_slot_num(), sfield::PreviousTxnID)
    }

    /// The index of the ledger that contains the transaction that most recently modified this
    /// entry.
    fn get_previous_txn_lgr_seq<H: HostBindings>(&self, host: &mut Host<H>) -> (r: Result<u32, Error>)
        ensures
            ledger_obj::slot_read::<H, u32, 4>(
                *old(host),
                *final(host),
                self.spec_slot_num(),
                sfield::PreviousTxnLgrSeq::spec_code(),
                r,
            ),
    {
        ledger_obj::get_field(host, self.get_slot_num(), sfield::PreviousTxnLgrSeq)
    }

    /// The Sequence field (Required).
    fn get_sequence<H: HostBindings>(&self, host: &mut Host<H>) -> (r: Result<u32, Error>)
        ensures
            ledger_obj::slot_read::<H, u32, 4>(
                *old(host),
                *final(host),
                self.spec_slot_num(),
                sfield::Sequence::spec_code(),
                r,
            ),
    {
        ledger_obj::get_field(host, self.get_slot_num(), sfield::Sequence)
    }

    /// A hint indicating which page of the owner's directory links to this entry, in case the
    /// directory consists of multiple pages.
    fn get_owner_node<H: HostBindings>(&self, host: &mut Host<H>) -> (r: Result<u64, Error>)
        ensures
            ledger_obj::slot_read::<H, u64, 8>(
                *old(host),
                *final(host),
                self.spec_slot_num(),
                sfield::OwnerNode::spec_code(),
                r,
            ),
    {
        ledger_obj::get_field(host, self.get_slot_num(), sfield::OwnerNode)
    }

    /// The Owner field (Required).
    fn get_owner<H: HostBindings>(&self, host: &mut Host<H>) -> (r: Result<AccountID, Error>)
        ensures
            ledger_obj::slot_read::<H, AccountID, 20>(
                *old(host),
                *final(host),
                self.spec_slot_num(),
                sfield::Owner::spec_code(),
                r,
            ),
    {
        ledger_obj::get_field(host, self.get_slot_num(), sfield::Owner)
    }

    /// The Account field (Required).
    fn get_account<H: HostBindings>(&self, host: &mut Host<H>) -> (r: Result<AccountID, Error>)
        ensures
            ledger_obj::slot_read::<H, AccountID, 20>(
                *old(host),
                *final(host),
                self.spec_slot_num(),
                sfield::Account::spec_code(),
                r,
            ),
    {
        ledger_obj::get_field(host, self.get_slot_num(), sfield::Account)
    }

    /// The Data field (Optional).
    fn get_data<H: HostBindings>(&self, host: &mut Host<H>) -> (r: Result<Option<StandardBlob>, Error>)
        ensures
            ledger_obj::slot_read_optional::<H, StandardBlob, 1024>(
                *old(host),
                *final(host),
                self.spec_slot_num(),
                sfield::Data::spec_code(),
                r,
            ),
    {
        ledger_obj::get_field_optional(host, self.get_slot_num(), sfield::Data)
    }

    /// The Asset field (Required).
    fn get_asset<H: HostBindings>(&self, host: &mut Host<H>) -> (r: Result<Issue, Error>)
        ensures
            ledger_obj::slot_read::<H, Issue, 40>(
                *old(host),
                *final(host),
                self.spec_slot_num(),
                sfield::Asset::spec_code(),
                r,
            ),
    {
        ledger_obj::get_field(host, self.get_slot_num(), sfield::Asset)
    }

    /// The ShareMPTID field (Required).
    fn get_share_mptid<H: HostBindings>(&self, host: &mut Host<H>) -> (r: Result<Hash192, Error>)
        ensures
            ledger_obj::slot_read::<H, Hash192, 24>(
                *old(host),
                *final(host),
                self.spec_slot_num(),
                sfield::ShareMPTID::spec_code(),
                r,
            ),
    {
        ledger_obj::get_field(host, self.get_slot_num(), sfield::ShareMPTID)
    }

    /// The WithdrawalPolicy field (Required).
    fn get_withdrawal_policy<H: HostBindings>(&self, host: &mut Host<H>) -> (r: Result<u8, Error>)
        ensures
            ledger_obj::slot_read::<H, u8, 1>(
                *old(host),
                *final(host),
                self.spec_slot_num(),
                sfield::WithdrawalPolicy::spec_code(),
                r,
            ),
    {
        ledger_obj::get_field(host, self.get_slot_num(), sfield::WithdrawalPolicy)
    }

    /// The Scale field (Optional).
    fn get_scale<H: HostBindings>(&self, host: &mut Host<H>) -> (r: Result<Option<u8>, Error>)
        ensures
            ledger_obj::slot_read_optional::<H, u8, 1>(
                *old(host),
                *final(host),
                self.spec_slot_num(),
                sfield::Scale::spec_code(),
                r,
            ),
    {
        ledger_obj::get_field_optional(host, self.get_slot_num(), sfield::Scale)
    }
}

/// Trait providing access to fields specific to the current Vault object.
pub trait CurrentVaultFields: CurrentLedgerObjectCommonFields {
    /// The identifying hash of the transaction that most recently modified this entry.
    fn get_previous_txn_id<H: HostBindings>(&self, host: &mut Host<H>) -> (r: Result<Hash256, Error>)
        ensures
            current_ledger_obj::home_read::<H, Hash256, 32>(
                *old(host),
                *final(host),
                sfield::PreviousTxnID::spec_code(),
                r,
            ),
    {
        current_ledger_obj::get_field(host, sfield::PreviousTxnID)
    }

    /// The index of the ledger that contains the transaction that most recently modified this
    /// entry.
    fn get_previous_txn_lgr_seq<H: HostBindings>(&self, host: &mut Host<H>) -> (r: Result<u32, Error>)
        ensures
            current_ledger_obj::home_read::<H, u32, 4>(
                *old(host),
                *final(host),
                sfield::PreviousTxnLgrSeq::spec_code(),
                r,
            ),
    {
        current_ledger_obj::get_field(host, sfield::PreviousTxnLgrSeq)
    }

    /// The Sequence field (Required).
    fn get_sequence<H: HostBindings>(&self, host: &mut Host<H>) -> (r: Result<u32, Error>)
        ensures
            current_ledger_obj::home_read::<H, u32, 4>(*old(host), *final(host), sfield::Sequence::spec_code(), r),
    {
        current_ledger_obj::get_field(host, sfield::Sequence)
    }

    /// A hint indicating which page of the owner's directory links to this entry, in case the
    /// directory consists of multiple pages.
    fn get_owner_node<H: HostBindings>(&self, host: &mut Host<H>) -> (r: Result<u64, Error>)
        ensures
            current_ledger_obj::home_read::<H, u64, 8>(*old(host), *final(host), sfield::OwnerNode::spec_code(), r),
    {
        current_ledger_obj::get_field(host, sfield::OwnerNode)
    }

    /// The Owner field (Required).
    fn get_owner<H: HostBindings>(&self, host: &mut Host<H>) -> (r: Result<AccountID, Error>)
        ensures
            current_ledger_obj::home_read::<H, AccountID, 20>(*old(host), *final(host), sfield::Owner::spec_code(), r),
    {
        current_ledger_obj::get_field(host, sfield::Owner)
    }

    /// The Account field (Required).
    fn get_account<H: HostBindings>(&self, host: &mut Host<H>) -> (r: Result<AccountID, Error>)
        ensures
            current_ledger_obj::home_read::<H, AccountID, 20>(
                *old(host),
                *final(host),
                sfield::Account::spec_code(),
                r,
            ),
    {
        current_ledger_obj::get_field(host, sfield::Account)
    }

    /// The Data field (Optional).
    fn get_data<H: HostBindings>(&self, host: &mut Host<H>) -> (r: Result<Option<StandardBlob>, Error>)
        ensures
            current_ledger_obj::home_read_optional::<H, StandardBlob, 1024>(
                *old(host),
                *final(host),
                sfield::Data::spec_code(),
                r,
            ),
    {
        current_ledger_obj::get_field_optional(host, sfield::Data)
    }

    /// The Asset field (Required).
    fn get_asset<H: HostBindings>(&self, host: &mut Host<H>) -> (r: Result<Issue, Error>)
        ensures
            current_ledger_obj::home_read::<H, Issue, 40>(*old(host), *final(host), sfield::Asset::spec_code(), r),
    {
        current_ledger_obj::get_field(host, sfield::Asset)
    }

    /// The ShareMPTID field (Required).
    fn get_share_mptid<H: HostBindings>(&self, host: &mut Host<H>) -> (r: Result<Hash192, Error>)
        ensures
            current_ledger_obj::home_read::<H, Hash192, 24>(
                *old(host),
                *final(host),
                sfield::ShareMPTID::spec_code(),
                r,
            ),
    {
        current_ledger_obj::get_field(host, sfield::ShareMPTID)
    }

    /// The WithdrawalPolicy field (Required).
    fn get_withdrawal_policy<H: HostBindings>(&self, host: &mut Host<H>) -> (r: Result<u8, Error>)
        ensures
            current_ledger_obj::home_read::<H, u8, 1>(
                *old(host),
                *final(host),
                sfield::WithdrawalPolicy::spec_code(),
                r,
            ),
    {
        current_ledger_obj::get_field(host, sfield::WithdrawalPolicy)
    }

    /// The Scale field (Optional).
    fn get_scale<H: HostBindings>(&self, host: &mut Host<H>) -> (r: Result<Option<u8>, Error>)
        ensures
            current_ledger_obj::home_read_optional::<H, u8, 1>(*old(host), *final(host), sfield::Scale::spec_code(), r),
    {
        current_ledger_obj::get_field_optional(host, sfield::Scale)
    }
}

/// The `lsfVaultPrivate` flag of Vault objects.
pub const lsfVaultPrivate: u32 = 0x00010000;

/// A handle to a Vault object cached in a host slot.
#[derive(Debug, Clone, Copy, PartialEq, Eq, Structural)]
pub struct Vault {
    pub slot_num: i32,
}

impl Vault {
    /// Wraps the slot a Vault object is cached in.
    pub fn new(slot_num: i32) -> (r: Vault)
        ensures
            r.slot_num == slot_num,
    {
        Vault { slot_num }
    }
}

impl LedgerObjectCommonFields for Vault {
    open spec fn spec_slot_num(&self) -> i32 {
        self.slot_num
    }

    fn get_slot_num(&self) -> (r: i32) {
        assert(self.spec_slot_num() == self.slot_num);
        self.slot_num
    }
}

impl VaultFields for Vault {

}

} // verus!
