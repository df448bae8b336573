//! The `MPToken` ledger object: typed accessors for its fields.

use vstd::prelude::*;
use crate::host::calls::Host;
use crate::fields::{current_ledger_obj, ledger_obj};
use crate::host::{Error, HostBindings};
use crate::objects::traits::{CurrentLedgerObjectCommonFields, LedgerObjectCommonFields};
use crate::sfield;
use crate::sfield::SField;
use crate::types::account_id::AccountID;
use crate::types::blob::StandardBlob;
use crate::types::uint::{Hash192, Hash256};

verus! {

/// Trait providing access to fields specific to MPToken objects in any ledger.
pub trait MPTokenFields: LedgerObjectCommonFields {
    /// The owner (holder) of these MPTs.
    fn account<H: HostBindings>(&self, host: &mut Host<H>) -> (r: Result<AccountID, Error>)
        ensures
            ledger_obj::slot_read::<H, AccountID, 20>(
                *old(host),
                *final(host),
                self.spec_slot_num(),
                sfield::Account::spec_code(),
                r,
            ),
    {
        ledger_obj::get_field(host, self.get_slot_num(), sfield::Account)
    }

    /// The `MPTokenIssuance` identifier.
    fn mptoken_issuance_id<H: HostBindings>(&self, host: &mut Host<H>) -> (r: Result<Hash192, Error>)
        ensures
            ledger_obj::slot_read::<H, Hash192, 24>(
                *old(host),
                *final(host),
                self.spec_slot_num(),
                sfield::MPTokenIssuanceID::spec_code(),
                r,
            ),
    {
        ledger_obj::get_field(host, self.get_slot_num(), sfield::MPTokenIssuanceID)
    }

    /// The amount of tokens currently held by the owner. The minimum is 0 and the maximum is
    /// 2^63-1.
    fn mpt_amount<H: HostBindings>(&self, host: &mut Host<H>) -> (r: Result<Option<u64>, Error>)
        ensures
            ledger_obj::slot_read_optional::<H, u64, 8>(
                *old(host),
                *final(host),
                self.spec_slot_num(),
                sfield::MPTAmount::spec_code(),
                r,
            ),
    {
        ledger_obj::get_field_optional(host, self.get_slot_num(), sfield::MPTAmount)
    }

    /// The amount of tokens currently locked up (for example, in escrow).
    fn locked_amount<H: HostBindings>(&self, host: &mut Host<H>) -> (r: Result<Option<u64>, Error>)
        ensures
            ledger_obj::slot_read_optional::<H, u64, 8>(
                *old(host),
                *final(host),
                self.spec_slot_num(),
                sfield::LockedAmount::spec_code(),
                r,
            ),
    {
        ledger_obj::get_field_optional(host, self.get_slot_num(), sfield::LockedAmount)
    }

    /// A hint indicating which page of the owner directory links to this entry, in case the
    /// directory consists of multiple pages.
    fn owner_node<H: HostBindings>(&self, host: &mut Host<H>) -> (r: Result<u64, Error>)
        ensures
            ledger_obj::slot_read::<H, u64, 8>(
                *old(host),
                *final(host),
                self.spec_slot_num(),
                sfield::OwnerNode::spec_code(),
                r,
            ),
    {
        ledger_obj::get_field(host, self.get_slot_num(), sfield::OwnerNode)
    }

    /// The identifying hash of the transaction that most recently modified this entry.
    fn previous_txn_id<H: HostBindings>(&self, host: &mut Host<H>) -> (r: Result<Hash256, Error>)
        ensures
            ledger_obj::slot_read::<H, Hash256, 32>(
                *old(host),
                *final(host),
                self.spec_slot_num(),
                sfield::PreviousTxnID::spec_code(),
                r,
            ),
    {
        ledger_obj::get_field(host, self.get_slot_num(), sfield::PreviousTxnID)
    }

    /// The sequence of the ledger that contains the transaction that most recently modified this
    /// object.
    fn previous_txn_lgr_seq<H: HostBindings>(&self, host: &mut Host<H>) -> (r: Result<u32, Error>)
        ensures
            ledger_obj::slot_read::<H, u32, 4>(
                *old(host),
                *final(host),
                self.spec_slot_num(),
                sfield::PreviousTxnLgrSeq::spec_code(),
                r,
            ),
    {
        ledger_obj::get_field(host, self.get_slot_num(), sfield::PreviousTxnLgrSeq)
    }

    /// Encrypted inbox balance that receives incoming confidential transfers. Before it can be
    /// spent, the holder must merge it into their spending balance using the
    /// ConfidentialMPTMergeInbox transaction. Present when the holder has a confidential balance.
    fn confidential_balance_inbox<H: HostBindings>(&self, host: &mut Host<H>) -> (r: Result<
        Option<StandardBlob>,
        Error,
    >)
        ensures
            ledger_obj::slot_read_optional::<H, StandardBlob, 1024>(
                *old(host),
                *final(host),
                self.spec_slot_num(),
                sfield::ConfidentialBalanceInbox::spec_code(),
                r,
            ),
    {
        ledger_obj::get_field_optional(host, self.get_slot_num(), sfield::ConfidentialBalanceInbox)
    }

    /// Encrypted spending balance used to generate proofs for outgoing transactions. Present when
    /// the holder has a confidential balance.
    fn confidential_balance_spending<H: HostBindings>(&self, host: &mut Host<H>) -> (r: Result<
        Option<StandardBlob>,
        Error,
    >)
        ensures
            ledger_obj::slot_read_optional::<H, StandardBlob, 1024>(
                *old(host),
                *final(host),
                self.spec_slot_num(),
                sfield::ConfidentialBalanceSpending::spec_code(),
                r,
            ),
    {
        ledger_obj::get_field_optional(host, self.get_slot_num(), sfield::ConfidentialBalanceSpending)
    }

    /// Version number that increments each time the spending balance changes. This version is
    /// cryptographically bound to ZKPs in outgoing transactions to prevent replay attacks and
    /// ensure proof validity. If the version changes between proof generation and submission, the
    /// transaction will fail.
    fn confidential_balance_version<H: HostBindings>(&self, host: &mut Host<H>) -> (r: Result<
        Option<u32>,
        Error,
    >)
        ensures
            ledger_obj::slot_read_optional::<H, u32, 4>(
                *old(host),
                *final(host),
                self.spec_slot_num(),
                sfield::ConfidentialBalanceVersion::spec_code(),
                r,
            ),
    {
        ledger_obj::get_field_optional(host, self.get_slot_num(), sfield::ConfidentialBalanceVersion)
    }

    /// Copy of the holder's total confidential balance encrypted for the issuer to audit supply.
    /// Present when the holder has a confidential balance.
    fn issuer_encrypted_balance<H: HostBindings>(&self, host: &mut Host<H>) -> (r: Result<
        Option<StandardBlob>,
        Error,
    >)
        ensures
            ledger_obj::slot_read_optional::<H, StandardBlob, 1024>(
                *old(host),
                *final(host),
                self.spec_slot_num(),
                sfield::IssuerEncryptedBalance::spec_code(),
                r,
            ),
    {
        ledger_obj::get_field_optional(host, self.get_slot_num(), sfield::IssuerEncryptedBalance)
    }

    /// The holder's total confidential balance encrypted under the auditor's key for independent
    /// auditing. Only present if an auditor is configured.
    fn auditor_encrypted_balance<H: HostBindings>(&self, host: &mut Host<H>) -> (r: Result<
        Option<StandardBlob>,
        Error,
    >)
        ensures
            ledger_obj::slot_read_optional::<H, StandardBlob, 1024>(
                *old(host),
                *final(host),
                self.spec_slot_num(),
                sfield::AuditorEncryptedBalance::spec_code(),
                r,
            ),
    {
        ledger_obj::get_field_optional(host, self.get_slot_num(), sfield::AuditorEncryptedBalance)
    }

    /// The holder's ElGamal public key for confidential balances. Present when the holder has a
    /// confidential balance.
    fn holder_encryption_key<H: HostBindings>(&self, host: &mut Host<H>) -> (r: Result<
        Option<StandardBlob>,
        Error,
    >)
        ensures
            ledger_obj::slot_read_optional::<H, StandardBlob, 1024>(
                *old(host),
                *final(host),
                self.spec_slot_num(),
                sfield::HolderEncryptionKey::spec_code(),
                r,
            ),
    {
        ledger_obj::get_field_optional(host, self.get_slot_num(), sfield::HolderEncryptionKey)
    }
}

/// Trait providing access to fields specific to the current MPToken object.
pub trait CurrentMPTokenFields: CurrentLedgerObjectCommonFields {
    /// The owner (holder) of these MPTs.
    fn account<H: HostBindings>(&self, host: &mut Host<H>) -> (r: Result<AccountID, Error>)
        ensures
            current_ledger_obj::home_read::<H, AccountID, 20>(
                *old(host),
                *final(host),
                sfield::Account::spec_code(),
                r,
            ),
    {
        current_ledger_obj::get_field(host, sfield::Account)
    }

    /// The `MPTokenIssuance` identifier.
    fn mptoken_issuance_id<H: HostBindings>(&self, host: &mut Host<H>) -> (r: Result<Hash192, Error>)
        ensures
            current_ledger_obj::home_read::<H, Hash192, 24>(
                *old(host),
                *final(host),
                sfield::MPTokenIssuanceID::spec_code(),
                r,
            ),
    {
        current_ledger_obj::get_field(host, sfield::MPTokenIssuanceID)
    }

    /// The amount of tokens currently held by the owner. The minimum is 0 and the maximum is
    /// 2^63-1.
    fn mpt_amount<H: HostBindings>(&self, host: &mut Host<H>) -> (r: Result<Option<u64>, Error>)
        ensures
            current_ledger_obj::home_read_optional::<H, u64, 8>(
                *old(host),
                *final(host),
                sfield::MPTAmount::spec_code(),
                r,
            ),
    {
        current_ledger_obj::get_field_optional(host, sfield::MPTAmount)
    }

    /// The amount of tokens currently locked up (for example, in escrow).
    fn locked_amount<H: HostBindings>(&self, host: &mut Host<H>) -> (r: Result<Option<u64>, Error>)
        ensures
            current_ledger_obj::home_read_optional::<H, u64, 8>(
                *old(host),
                *final(host),
                sfield::LockedAmount::spec_code(),
                r,
            ),
    {
        current_ledger_obj::get_field_optional(host, sfield::LockedAmount)
    }

    /// A hint indicating which page of the owner directory links to this entry, in case the
    /// directory consists of multiple pages.
    fn owner_node<H: HostBindings>(&self, host: &mut Host<H>) -> (r: Result<u64, Error>)
        ensures
            current_ledger_obj::home_read::<H, u64, 8>(*old(host), *final(host), sfield::OwnerNode::spec_code(), r),
    {
        current_ledger_obj::get_field(host, sfield::OwnerNode)
    }

    /// The identifying hash of the transaction that most recently modified this entry.
    fn previous_txn_id<H: HostBindings>(&self, host: &mut Host<H>) -> (r: Result<Hash256, Error>)
        ensures
            current_ledger_obj::home_read::<H, Hash256, 32>(
                *old(host),
                *final(host),
                sfield::PreviousTxnID::spec_code(),
                r,
            ),
    {
        current_ledger_obj::get_field(host, sfield::PreviousTxnID)
    }

    /// The sequence of the ledger that contains the transaction that most recently modified this
    /// object.
    fn previous_txn_lgr_seq<H: HostBindings>(&self, host: &mut Host<H>) -> (r: Result<u32, Error>)
        ensures
            current_ledger_obj::home_read::<H, u32, 4>(
                *old(host),
                *final(host),
                sfield::PreviousTxnLgrSeq::spec_code(),
                r,
            ),
    {
        current_ledger_obj::get_field(host, sfield::PreviousTxnLgrSeq)
    }

    /// Encrypted inbox balance that receives incoming confidential transfers. Before it can be
    /// spent, the holder must merge it into their spending balance using the
    /// ConfidentialMPTMergeInbox transaction. Present when the holder has a confidential balance.
    fn confidential_balance_inbox<H: HostBindings>(&self, host: &mut Host<H>) -> (r: Result<
        Option<StandardBlob>,
        Error,
    >)
        ensures
            current_ledger_obj::home_read_optional::<H, StandardBlob, 1024>(
                *old(host),
                *final(host),
                sfield::ConfidentialBalanceInbox::spec_code(),
                r,
            ),
    {
        current_ledger_obj::get_field_optional(host, sfield::ConfidentialBalanceInbox)
    }

    /// Encrypted spending balance used to generate proofs for outgoing transactions. Present when
    /// the holder has a confidential balance.
    fn confidential_balance_spending<H: HostBindings>(&self, host: &mut Host<H>) -> (r: Result<
        Option<StandardBlob>,
        Error,
    >)
        ensures
            current_ledger_obj::home_read_optional::<H, StandardBlob, 1024>(
                *old(host),
                *final(host),
                sfield::ConfidentialBalanceSpending::spec_code(),
                r,
            ),
    {
        current_ledger_obj::get_field_optional(host, sfield::ConfidentialBalanceSpending)
    }

    /// Version number that increments each time the spending balance changes. This version is
    /// cryptographically bound to ZKPs in outgoing transactions to prevent replay attacks and
    /// ensure proof validity. If the version changes between proof generation and submission, the
    /// transaction will fail.
    fn confidential_balance_version<H: HostBindings>(&self, host: &mut Host<H>) -> (r: Result<
        Option<u32>,
        Error,
    >)
        ensures
            current_ledger_obj::home_read_optional::<H, u32, 4>(
                *old(host),
                *final(host),
                sfield::ConfidentialBalanceVersion::spec_code(),
                r,
            ),
    {
        current_ledger_obj::get_field_optional(host, sfield::ConfidentialBalanceVersion)
    }

    /// Copy of the holder's total confidential balance encrypted for the issuer to audit supply.
    /// Present when the holder has a confidential balance.
    fn issuer_encrypted_balance<H: HostBindings>(&self, host: &mut Host<H>) -> (r: Result<
        Option<StandardBlob>,
        Error,
    >)
        ensures
            current_ledger_obj::home_read_optional::<H, StandardBlob, 1024>(
                *old(host),
                *final(host),
                sfield::IssuerEncryptedBalance::spec_code(),
                r,
            ),
    {
        current_ledger_obj::get_field_optional(host, sfield::IssuerEncryptedBalance)
    }

    /// The holder's total confidential balance encrypted under the auditor's key for independent
    /// auditing. Only present if an auditor is configured.
    fn auditor_encrypted_balance<H: HostBindings>(&self, host: &mut Host<H>) -> (r: Result<
        Option<StandardBlob>,
        Error,
    >)
        ensures
            current_ledger_obj::home_read_optional::<H, StandardBlob, 1024>(
                *old(host),
                *final(host),
                sfield::AuditorEncryptedBalance::spec_code(),
                r,
            ),
    {
        current_ledger_obj::get_field_optional(host, sfield::AuditorEncryptedBalance)
    }

    /// The holder's ElGamal public key for confidential balances. Present when the holder has a
    /// confidential balance.
    fn holder_encryption_key<H: HostBindings>(&self, host: &mut Host<H>) -> (r: Result<
        Option<StandardBlob>,
        Error,
    >)
        ensures
            current_ledger_obj::home_read_optional::<H, StandardBlob, 1024>(
                *old(host),
                *final(host),
                sfield::HolderEncryptionKey::spec_code(),
                r,
            ),
    {
        current_ledger_obj::get_field_optional(host, sfield::HolderEncryptionKey)
    }
}

/// A handle to an MPToken object cached in a host slot.
#[derive(Debug, Clone, Copy, PartialEq, Eq, Structural)]
pub struct MPToken {
    pub slot_num: i32,
}

impl MPToken {
    /// Wraps the slot an MPToken object is cached in.
    pub fn new(slot_num: i32) -> (r: MPToken)
        ensures
            r.slot_num == slot_num,
    {
        MPToken { slot_num }
    }
}

impl LedgerObjectCommonFields for MPToken {
    open spec fn spec_slot_num(&self) -> i32 {
        self.slot_num
    }

    fn get_slot_num(&self) -> (r: i32) {
        assert(self.spec_slot_num() == self.slot_num);
        self.slot_num
    }
}

impl MPTokenFields for MPToken {

}

} // verus!
