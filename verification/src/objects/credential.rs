//! The `Credential` ledger object: typed accessors for its fields.

use vstd::prelude::*;
use crate::host::calls::Host;
use crate::fields::{current_ledger_obj, ledger_obj};
use crate::host::{Error, HostBindings};
use crate::objects::traits::{CurrentLedgerObjectCommonFields, LedgerObjectCommonFields};
use crate::sfield;
use crate::sfield::SField;
use crate::types::account_id::AccountID;
use crate::types::blob::{StandardBlob, UriBlob};
use crate::types::uint::Hash256;

verus! {

/// Trait providing access to fields specific to Credential objects in any ledger.
pub trait CredentialFields: LedgerObjectCommonFields {
    /// The account that this credential is for.
    fn subject<H: HostBindings>(&self, host: &mut Host<H>) -> (r: Result<AccountID, Error>)
        ensures
            ledger_obj::slot_read::<H, AccountID, 20>(
                *old(host),
                *final(host),
                self.spec_slot_num(),
                sfield::Subject::spec_code(),
                r,
            ),
    {
        ledger_obj::get_field(host, self.get_slot_num(), sfield::Subject)
    }

    /// The account that issued this credential.
    fn issuer<H: HostBindings>(&self, host: &mut Host<H>) -> (r: Result<AccountID, Error>)
        ensures
            ledger_obj::slot_read::<H, AccountID, 20>(
                *old(host),
                *final(host),
                self.spec_slot_num(),
                sfield::Issuer::spec_code(),
                r,
            ),
    {
        ledger_obj::get_field(host, self.get_slot_num(), sfield::Issuer)
    }

    /// Arbitrary data defining the type of credential this entry represents. The minimum length is
    /// 1 byte and the maximum length is 64 bytes.
    fn credential_type<H: HostBindings>(&self, host: &mut Host<H>) -> (r: Result<StandardBlob, Error>)
        ensures
            ledger_obj::slot_read::<H, StandardBlob, 1024>(
                *old(host),
                *final(host),
                self.spec_slot_num(),
                sfield::CredentialType::spec_code(),
                r,
            ),
    {
        ledger_obj::get_field(host, self.get_slot_num(), sfield::CredentialType)
    }

    /// The Expiration field (Optional).
    fn expiration<H: HostBindings>(&self, host: &mut Host<H>) -> (r: Result<Option<u32>, Error>)
        ensures
            ledger_obj::slot_read_optional::<H, u32, 4>(
                *old(host),
                *final(host),
                self.spec_slot_num(),
                sfield::Expiration::spec_code(),
                r,
            ),
    {
        ledger_obj::get_field_optional(host, self.get_slot_num(), sfield::Expiration)
    }

    /// Arbitrary additional data about the credential, for example a URL where a W3C-formatted
    /// Verifiable Credential can be retrieved.
    fn uri<H: HostBindings>(&self, host: &mut Host<H>) -> (r: Result<Option<UriBlob>, Error>)
        ensures
            ledger_obj::slot_read_optional::<H, UriBlob, 256>(
                *old(host),
                *final(host),
                self.spec_slot_num(),
                sfield::URI::spec_code(),
                r,
            ),
    {
        ledger_obj::get_field_optional(host, self.get_slot_num(), sfield::URI)
    }

    /// A hint indicating which page of the issuer's directory links to this entry, in case the
    /// directory consists of multiple pages.
    fn issuer_node<H: HostBindings>(&self, host: &mut Host<H>) -> (r: Result<u64, Error>)
        ensures
            ledger_obj::slot_read::<H, u64, 8>(
                *old(host),
                *final(host),
                self.spec_slot_num(),
                sfield::IssuerNode::spec_code(),
                r,
            ),
    {
        ledger_obj::get_field(host, self.get_slot_num(), sfield::IssuerNode)
    }

    /// A hint indicating which page of the subject's owner directory links to this entry, in case
    /// the directory consists of multiple pages.
    fn subject_node<H: HostBindings>(&self, host: &mut Host<H>) -> (r: Result<Option<u64>, Error>)
        ensures
            ledger_obj::slot_read_optional::<H, u64, 8>(
                *old(host),
                *final(host),
                self.spec_slot_num(),
                sfield::SubjectNode::spec_code(),
                r,
            ),
    {
        ledger_obj::get_field_optional(host, self.get_slot_num(), sfield::SubjectNode)
    }

    /// The identifying hash of the transaction that most recently modified this entry.
    fn previous_txn_id<H: HostBindings>(&self, host: &mut Host<H>) -> (r: Result<Hash256, Error>)
        ensures
            ledger_obj::slot_read::<H, Hash256, 32>(
                *old(host),
                *final(host),
                self.spec_slot_num(),
                sfield::PreviousTxnID::spec_code(),
                r,
            ),
    {
        ledger_obj::get_field(host, self.get_slot_num(), sfield::PreviousTxnID)
    }

    /// The index of the ledger that contains the transaction that most recently modified this
    /// entry.
    fn previous_txn_lgr_seq<H: HostBindings>(&self, host: &mut Host<H>) -> (r: Result<u32, Error>)
        ensures
            ledger_obj::slot_read::<H, u32, 4>(
                *old(host),
                *final(host),
                self.spec_slot_num(),
                sfield::PreviousTxnLgrSeq::spec_code(),
                r,
            ),
    {
        ledger_obj::get_field(host, self.get_slot_num(), sfield::PreviousTxnLgrSeq)
    }
}

/// Trait providing access to fields specific to the current Credential object.
pub trait CurrentCredentialFields: CurrentLedgerObjectCommonFields {
    /// The account that this credential is for.
    fn subject<H: HostBindings>(&self, host: &mut Host<H>) -> (r: Result<AccountID, Error>)
        ensures
            current_ledger_obj::home_read::<H, AccountID, 20>(
                *old(host),
                *final(host),
                sfield::Subject::spec_code(),
                r,
            ),
    {
        current_ledger_obj::get_field(host, sfield::Subject)
    }

    /// The account that issued this credential.
    fn issuer<H: HostBindings>(&self, host: &mut Host<H>) -> (r: Result<AccountID, Error>)
        ensures
            current_ledger_obj::home_read::<H, AccountID, 20>(*old(host), *final(host), sfield::Issuer::spec_code(), r),
    {
        current_ledger_obj::get_field(host, sfield::Issuer)
    }

    /// Arbitrary data defining the type of credential this entry represents. The minimum length is
    /// 1 byte and the maximum length is 64 bytes.
    fn credential_type<H: HostBindings>(&self, host: &mut Host<H>) -> (r: Result<StandardBlob, Error>)
        ensures
            current_ledger_obj::home_read::<H, StandardBlob, 1024>(
                *old(host),
                *final(host),
                sfield::CredentialType::spec_code(),
                r,
            ),
    {
        current_ledger_obj::get_field(host, sfield::CredentialType)
    }

    /// The Expiration field (Optional).
    fn expiration<H: HostBindings>(&self, host: &mut Host<H>) -> (r: Result<Option<u32>, Error>)
        ensures
            current_ledger_obj::home_read_optional::<H, u32, 4>(
                *old(host),
                *final(host),
                sfield::Expiration::spec_code(),
                r,
            ),
    {
        current_ledger_obj::get_field_optional(host, sfield::Expiration)
    }

    /// Arbitrary additional data about the credential, for example a URL where a W3C-formatted
    /// Verifiable Credential can be retrieved.
    fn uri<H: HostBindings>(&self, host: &mut Host<H>) -> (r: Result<Option<UriBlob>, Error>)
        ensures
            current_ledger_obj::home_read_optional::<H, UriBlob, 256>(
                *old(host),
                *final(host),
                sfield::URI::spec_code(),
                r,
            ),
    {
        current_ledger_obj::get_field_optional(host, sfield::URI)
    }

    /// A hint indicating which page of the issuer's directory links to this entry, in case the
    /// directory consists of multiple pages.
    fn issuer_node<H: HostBindings>(&self, host: &mut Host<H>) -> (r: Result<u64, Error>)
        ensures
            current_ledger_obj::home_read::<H, u64, 8>(*old(host), *final(host), sfield::IssuerNode::spec_code(), r),
    {
        current_ledger_obj::get_field(host, sfield::IssuerNode)
    }

    /// A hint indicating which page of the subject's owner directory links to this entry, in case
    /// the directory consists of multiple pages.
    fn subject_node<H: HostBindings>(&self, host: &mut Host<H>) -> (r: Result<Option<u64>, Error>)
        ensures
            current_ledger_obj::home_read_optional::<H, u64, 8>(
                *old(host),
                *final(host),
                sfield::SubjectNode::spec_code(),
                r,
            ),
    {
        current_ledger_obj::get_field_optional(host, sfield::SubjectNode)
    }

    /// The identifying hash of the transaction that most recently modified this entry.
    fn previous_txn_id<H: HostBindings>(&self, host: &mut Host<H>) -> (r: Result<Hash256, Error>)
        ensures
            current_ledger_obj::home_read::<H, Hash256, 32>(
                *old(host),
                *final(host),
                sfield::PreviousTxnID::spec_code(),
                r,
            ),
    {
        current_ledger_obj::get_field(host, sfield::PreviousTxnID)
    }

    /// The index of the ledger that contains the transaction that most recently modified this
    /// entry.
    fn previous_txn_lgr_seq<H: HostBindings>(&self, host: &mut Host<H>) -> (r: Result<u32, Error>)
        ensures
            current_ledger_obj::home_read::<H, u32, 4>(
                *old(host),
                *final(host),
                sfield::PreviousTxnLgrSeq::spec_code(),
                r,
            ),
    {
        current_ledger_obj::get_field(host, sfield::PreviousTxnLgrSeq)
    }
}

/// A handle to a Credential object cached in a host slot.
#[derive(Debug, Clone, Copy, PartialEq, Eq, Structural)]
pub struct Credential {
    pub slot_num: i32,
}

impl Credential {
    /// Wraps the slot a Credential object is cached in.
    pub fn new(slot_num: i32) -> (r: Credential)
        ensures
            r.slot_num == slot_num,
    {
        Credential { slot_num }
    }
}

impl LedgerObjectCommonFields for Credential {
    open spec fn spec_slot_num(&self) -> i32 {
        self.slot_num
    }

    fn get_slot_num(&self) -> (r: i32) {
        assert(self.spec_slot_num() == self.slot_num);
        self.slot_num
    }
}

impl CredentialFields for Credential {

}

} // verus!
