//! The IDs of ledger entries, computed by the host from the values that identify each entry.
//!
//! Every function asks the host for the 32-byte ID: a negative result code is the host's error,
//! and a host that answers with a positive length other than 32 is out of these contracts.
//! Sequence numbers and document IDs are handed to the host as their 4 little-endian bytes.

use vstd::prelude::*;
use crate::host::calls::{Host, HostCall, made_calls};
use crate::bytes::{u32_le, u32_to_le_bytes, zero_bytes, zeroed_array};
use crate::host::error_codes::{
    is_expected_bytes_answer, match_result_code_with_expected_bytes,
    spec_match_result_code_with_expected_bytes,
};
use crate::host::{Error, HostBindings};
use crate::types::account_id::AccountID;
use crate::types::currency::Currency;
use crate::types::issue::Issue;
use crate::types::mpt_id::MptId;

verus! {

/// The size of a ledger entry ID in bytes.
pub const XRPL_LEDGER_ENTRY_ID_SIZE: usize = 32;

/// A ledger entry ID.
pub type LedgerEntryIdBytes = [u8; 32];

/// What [`id_from_host_answer`] makes of the host's result code and the buffer it filled.
pub open spec fn spec_id_result(code: i32, id: [u8; 32]) -> Result<[u8; 32], Error> {
    spec_match_result_code_with_expected_bytes(code, XRPL_LEDGER_ENTRY_ID_SIZE, id)
}

/// Turns the host's answer to an ID computation into the ID or an error: a negative code is the
/// host's error, a write of exactly 32 bytes is the ID.
pub fn id_from_host_answer(code: i32, id: [u8; 32]) -> (r: Result<LedgerEntryIdBytes, Error>)
    requires
        is_expected_bytes_answer(code, 32),
    ensures
        r == spec_id_result(code, id),
{
    match_result_code_with_expected_bytes(code, XRPL_LEDGER_ENTRY_ID_SIZE, id)
}

/// The ID of the AccountRoot entry of an account.
pub fn accountroot_id<H: HostBindings>(host: &mut Host<H>, account_id: &AccountID) -> (r: Result<
    LedgerEntryIdBytes,
    Error,
>)
    requires
        forall|code: i32, w: Seq<u8>|
            #[trigger] old(host).bindings().accountroot_id_answers(account_id.0@, zero_bytes(32), code, w)
                ==> is_expected_bytes_answer(code, 32),
    ensures
        made_calls(*old(host), *final(host), seq![HostCall::AccountrootId]),
        exists|code: i32, id: [u8; 32]|
            #[trigger] old(host).bindings().accountroot_id_answers(account_id.0@, zero_bytes(32), code, id@)
                && r == spec_id_result(code, id),
{
    let mut id = zeroed_array::<32>();
    let code = host.accountroot_id(&account_id.0, &mut id);
    id_from_host_answer(code, id)
}

/// The ID of the AMM entry for a pair of assets; each asset is handed to the host serialized.
pub fn amm_id<H: HostBindings>(host: &mut Host<H>, issue1: &Issue, issue2: &Issue) -> (r: Result<
    LedgerEntryIdBytes,
    Error,
>)
    requires
        forall|code: i32, w: Seq<u8>|
            #[trigger] old(host).bindings().amm_id_answers(issue1.spec_bytes(), issue2.spec_bytes(), zero_bytes(32), code, w)
                ==> is_expected_bytes_answer(code, 32),
    ensures
        made_calls(*old(host), *final(host), seq![HostCall::AmmId]),
        exists|code: i32, id: [u8; 32]|
            #[trigger] old(host).bindings().amm_id_answers(issue1.spec_bytes(), issue2.spec_bytes(), zero_bytes(32), code, id@)
                && r == spec_id_result(code, id),
{
    let issue1_bytes = issue1.as_bytes();
    let issue2_bytes = issue2.as_bytes();
    let mut id = zeroed_array::<32>();
    let code = host.amm_id(issue1_bytes.as_slice(), issue2_bytes.as_slice(), &mut id);
    id_from_host_answer(code, id)
}

/// The ID of the Check entry created by `owner` with sequence `seq`.
pub fn check_id<H: HostBindings>(host: &mut Host<H>, owner: &AccountID, seq: u32) -> (r: Result<
    LedgerEntryIdBytes,
    Error,
>)
    requires
        forall|code: i32, w: Seq<u8>|
            #[trigger] old(host).bindings().check_id_answers(owner.0@, u32_le(seq), zero_bytes(32), code, w)
                ==> is_expected_bytes_answer(code, 32),
    ensures
        made_calls(*old(host), *final(host), seq![HostCall::CheckId]),
        exists|code: i32, id: [u8; 32]|
            #[trigger] old(host).bindings().check_id_answers(owner.0@, u32_le(seq), zero_bytes(32), code, id@)
                && r == spec_id_result(code, id),
{
    let seq_bytes = u32_to_le_bytes(seq);
    let mut id = zeroed_array::<32>();
    let code = host.check_id(&owner.0, &seq_bytes, &mut id);
    id_from_host_answer(code, id)
}

/// The ID of the Credential entry of a subject, an issuer and a credential type.
pub fn credential_id<H: HostBindings>(
    host: &mut Host<H>,
    subject: &AccountID,
    issuer: &AccountID,
    credential_type: &[u8],
) -> (r: Result<LedgerEntryIdBytes, Error>)
    requires
        forall|code: i32, w: Seq<u8>|
            #[trigger] old(host).bindings().credential_id_answers(subject.0@, issuer.0@, credential_type@, zero_bytes(32), code, w)
                ==> is_expected_bytes_answer(code, 32),
    ensures
        made_calls(*old(host), *final(host), seq![HostCall::CredentialId]),
        exists|code: i32, id: [u8; 32]|
            #[trigger] old(host).bindings().credential_id_answers(subject.0@, issuer.0@, credential_type@, zero_bytes(32), code, id@)
                && r == spec_id_result(code, id),
{
    let mut id = zeroed_array::<32>();
    let code = host.credential_id(&subject.0, &issuer.0, credential_type, &mut id);
    id_from_host_answer(code, id)
}

/// The ID of the Delegate entry of `account` for `authorize`.
pub fn delegate_id<H: HostBindings>(host: &mut Host<H>, account: &AccountID, authorize: &AccountID) -> (r:
    Result<LedgerEntryIdBytes, Error>)
    requires
        forall|code: i32, w: Seq<u8>|
            #[trigger] old(host).bindings().delegate_id_answers(account.0@, authorize.0@, zero_bytes(32), code, w)
                ==> is_expected_bytes_answer(code, 32),
    ensures
        made_calls(*old(host), *final(host), seq![HostCall::DelegateId]),
        exists|code: i32, id: [u8; 32]|
            #[trigger] old(host).bindings().delegate_id_answers(account.0@, authorize.0@, zero_bytes(32), code, id@)
                && r == spec_id_result(code, id),
{
    let mut id = zeroed_array::<32>();
    let code = host.delegate_id(&account.0, &authorize.0, &mut id);
    id_from_host_answer(code, id)
}

/// The ID of the DepositPreauth entry of `account` for `authorize`.
pub fn deposit_preauth_id<H: HostBindings>(
    host: &mut Host<H>,
    account: &AccountID,
    authorize: &AccountID,
) -> (r: Result<LedgerEntryIdBytes, Error>)
    requires
        forall|code: i32, w: Seq<u8>|
            #[trigger] old(host).bindings().deposit_preauth_id_answers(account.0@, authorize.0@, zero_bytes(32), code, w)
                ==> is_expected_bytes_answer(code, 32),
    ensures
        made_calls(*old(host), *final(host), seq![HostCall::DepositPreauthId]),
        exists|code: i32, id: [u8; 32]|
            #[trigger] old(host).bindings().deposit_preauth_id_answers(account.0@, authorize.0@, zero_bytes(32), code, id@)
                && r == spec_id_result(code, id),
{
    let mut id = zeroed_array::<32>();
    let code = host.deposit_preauth_id(&account.0, &authorize.0, &mut id);
    id_from_host_answer(code, id)
}

/// The ID of the DID entry of an account.
pub fn did_id<H: HostBindings>(host: &mut Host<H>, account_id: &AccountID) -> (r: Result<
    LedgerEntryIdBytes,
    Error,
>)
    requires
        forall|code: i32, w: Seq<u8>|
            #[trigger] old(host).bindings().did_id_answers(account_id.0@, zero_bytes(32), code, w)
                ==> is_expected_bytes_answer(code, 32),
    ensures
        made_calls(*old(host), *final(host), seq![HostCall::DidId]),
        exists|code: i32, id: [u8; 32]|
            #[trigger] old(host).bindings().did_id_answers(account_id.0@, zero_bytes(32), code, id@)
                && r == spec_id_result(code, id),
{
    let mut id = zeroed_array::<32>();
    let code = host.did_id(&account_id.0, &mut id);
    id_from_host_answer(code, id)
}

/// The ID of the Escrow entry created by `owner` with sequence `seq`.
pub fn escrow_id<H: HostBindings>(host: &mut Host<H>, owner: &AccountID, seq: u32) -> (r: Result<
    LedgerEntryIdBytes,
    Error,
>)
    requires
        forall|code: i32, w: Seq<u8>|
            #[trigger] old(host).bindings().escrow_id_answers(owner.0@, u32_le(seq), zero_bytes(32), code, w)
                ==> is_expected_bytes_answer(code, 32),
    ensures
        made_calls(*old(host), *final(host), seq![HostCall::EscrowId]),
        exists|code: i32, id: [u8; 32]|
            #[trigger] old(host).bindings().escrow_id_answers(owner.0@, u32_le(seq), zero_bytes(32), code, id@)
                && r == spec_id_result(code, id),
{
    let seq_bytes = u32_to_le_bytes(seq);
    let mut id = zeroed_array::<32>();
    let code = host.escrow_id(&owner.0, &seq_bytes, &mut id);
    id_from_host_answer(code, id)
}

/// The ID of the trust line between two accounts for a currency.
pub fn trustline_id<H: HostBindings>(
    host: &mut Host<H>,
    account1: &AccountID,
    account2: &AccountID,
    currency: &Currency,
) -> (r: Result<LedgerEntryIdBytes, Error>)
    requires
        forall|code: i32, w: Seq<u8>|
            #[trigger] old(host).bindings().trustline_id_answers(account1.0@, account2.0@, currency.0@, zero_bytes(32), code, w)
                ==> is_expected_bytes_answer(code, 32),
    ensures
        made_calls(*old(host), *final(host), seq![HostCall::TrustlineId]),
        exists|code: i32, id: [u8; 32]|
            #[trigger] old(host).bindings().trustline_id_answers(account1.0@, account2.0@, currency.0@, zero_bytes(32), code, id@)
                && r == spec_id_result(code, id),
{
    let mut id = zeroed_array::<32>();
    let code = host.trustline_id(&account1.0, &account2.0, &currency.0, &mut id);
    id_from_host_answer(code, id)
}

/// The ID of the MPTokenIssuance entry created by `owner` with sequence `seq`.
pub fn mpt_issuance_id<H: HostBindings>(host: &mut Host<H>, owner: &AccountID, seq: u32) -> (r: Result<
    LedgerEntryIdBytes,
    Error,
>)
    requires
        forall|code: i32, w: Seq<u8>|
            #[trigger] old(host).bindings().mpt_issuance_id_answers(owner.0@, u32_le(seq), zero_bytes(32), code, w)
                ==> is_expected_bytes_answer(code, 32),
    ensures
        made_calls(*old(host), *final(host), seq![HostCall::MptIssuanceId]),
        exists|code: i32, id: [u8; 32]|
            #[trigger] old(host).bindings().mpt_issuance_id_answers(owner.0@, u32_le(seq), zero_bytes(32), code, id@)
                && r == spec_id_result(code, id),
{
    let seq_bytes = u32_to_le_bytes(seq);
    let mut id = zeroed_array::<32>();
    let code = host.mpt_issuance_id(&owner.0, &seq_bytes, &mut id);
    id_from_host_answer(code, id)
}

/// The ID of the MPToken entry of `holder` for the issuance `mptid`.
pub fn mptoken_id<H: HostBindings>(host: &mut Host<H>, mptid: &MptId, holder: &AccountID) -> (r: Result<
    LedgerEntryIdBytes,
    Error,
>)
    requires
        forall|code: i32, w: Seq<u8>|
            #[trigger] old(host).bindings().mptoken_id_answers(mptid.0@, holder.0@, zero_bytes(32), code, w)
                ==> is_expected_bytes_answer(code, 32),
    ensures
        made_calls(*old(host), *final(host), seq![HostCall::MptokenId]),
        exists|code: i32, id: [u8; 32]|
            #[trigger] old(host).bindings().mptoken_id_answers(mptid.0@, holder.0@, zero_bytes(32), code, id@)
                && r == spec_id_result(code, id),
{
    let mut id = zeroed_array::<32>();
    let code = host.mptoken_id(mptid.as_bytes(), &holder.0, &mut id);
    id_from_host_answer(code, id)
}

/// The ID of the NFTokenOffer entry created by `owner` with sequence `seq`.
pub fn nft_offer_id<H: HostBindings>(host: &mut Host<H>, owner: &AccountID, seq: u32) -> (r: Result<
    LedgerEntryIdBytes,
    Error,
>)
    requires
        forall|code: i32, w: Seq<u8>|
            #[trigger] old(host).bindings().nft_offer_id_answers(owner.0@, u32_le(seq), zero_bytes(32), code, w)
                ==> is_expected_bytes_answer(code, 32),
    ensures
        made_calls(*old(host), *final(host), seq![HostCall::NftOfferId]),
        exists|code: i32, id: [u8; 32]|
            #[trigger] old(host).bindings().nft_offer_id_answers(owner.0@, u32_le(seq), zero_bytes(32), code, id@)
                && r == spec_id_result(code, id),
{
    let seq_bytes = u32_to_le_bytes(seq);
    let mut id = zeroed_array::<32>();
    let code = host.nft_offer_id(&owner.0, &seq_bytes, &mut id);
    id_from_host_answer(code, id)
}

/// The ID of the Offer entry created by `owner` with sequence `seq`.
pub fn offer_id<H: HostBindings>(host: &mut Host<H>, owner: &AccountID, seq: u32) -> (r: Result<
    LedgerEntryIdBytes,
    Error,
>)
    requires
        forall|code: i32, w: Seq<u8>|
            #[trigger] old(host).bindings().offer_id_answers(owner.0@, u32_le(seq), zero_bytes(32), code, w)
                ==> is_expected_bytes_answer(code, 32),
    ensures
        made_calls(*old(host), *final(host), seq![HostCall::OfferId]),
        exists|code: i32, id: [u8; 32]|
            #[trigger] old(host).bindings().offer_id_answers(owner.0@, u32_le(seq), zero_bytes(32), code, id@)
                && r == spec_id_result(code, id),
{
    let seq_bytes = u32_to_le_bytes(seq);
    let mut id = zeroed_array::<32>();
    let code = host.offer_id(&owner.0, &seq_bytes, &mut id);
    id_from_host_answer(code, id)
}

/// The ID of the Oracle entry of `owner` with document ID `document_id`.
pub fn oracle_id<H: HostBindings>(host: &mut Host<H>, owner: &AccountID, document_id: u32) -> (r: Result<
    LedgerEntryIdBytes,
    Error,
>)
    requires
        forall|code: i32, w: Seq<u8>|
            #[trigger] old(host).bindings().oracle_id_answers(owner.0@, u32_le(document_id), zero_bytes(32), code, w)
                ==> is_expected_bytes_answer(code, 32),
    ensures
        made_calls(*old(host), *final(host), seq![HostCall::OracleId]),
        exists|code: i32, id: [u8; 32]|
            #[trigger] old(host).bindings().oracle_id_answers(owner.0@, u32_le(document_id), zero_bytes(32), code, id@)
                && r == spec_id_result(code, id),
{
    let document_id_bytes = u32_to_le_bytes(document_id);
    let mut id = zeroed_array::<32>();
    let code = host.oracle_id(&owner.0, &document_id_bytes, &mut id);
    id_from_host_answer(code, id)
}

/// The ID of the PayChannel entry from `account` to `destination` created with sequence `seq`.
pub fn paychan_id<H: HostBindings>(
    host: &mut Host<H>,
    account: &AccountID,
    destination: &AccountID,
    seq: u32,
) -> (r: Result<LedgerEntryIdBytes, Error>)
    requires
        forall|code: i32, w: Seq<u8>|
            #[trigger] old(host).bindings().paychan_id_answers(account.0@, destination.0@, u32_le(seq), zero_bytes(32), code, w)
                ==> is_expected_bytes_answer(code, 32),
    ensures
        made_calls(*old(host), *final(host), seq![HostCall::PaychanId]),
        exists|code: i32, id: [u8; 32]|
            #[trigger] old(host).bindings().paychan_id_answers(account.0@, destination.0@, u32_le(seq), zero_bytes(32), code, id@)
                && r == spec_id_result(code, id),
{
    let seq_bytes = u32_to_le_bytes(seq);
    let mut id = zeroed_array::<32>();
    let code = host.paychan_id(&account.0, &destination.0, &seq_bytes, &mut id);
    id_from_host_answer(code, id)
}

/// The ID of the PermissionedDomain entry created by `account` with sequence `seq`.
pub fn permissioned_domain_id<H: HostBindings>(host: &mut Host<H>, account: &AccountID, seq: u32) -> (r:
    Result<LedgerEntryIdBytes, Error>)
    requires
        forall|code: i32, w: Seq<u8>|
            #[trigger] old(host).bindings().permissioned_domain_id_answers(account.0@, u32_le(seq), zero_bytes(32), code, w)
                ==> is_expected_bytes_answer(code, 32),
    ensures
        made_calls(*old(host), *final(host), seq![HostCall::PermissionedDomainId]),
        exists|code: i32, id: [u8; 32]|
            #[trigger] old(host).bindings().permissioned_domain_id_answers(account.0@, u32_le(seq), zero_bytes(32), code, id@)
                && r == spec_id_result(code, id),
{
    let seq_bytes = u32_to_le_bytes(seq);
    let mut id = zeroed_array::<32>();
    let code = host.permissioned_domain_id(&account.0, &seq_bytes, &mut id);
    id_from_host_answer(code, id)
}

/// The ID of the SignerList entry of an account.
pub fn signers_id<H: HostBindings>(host: &mut Host<H>, account_id: &AccountID) -> (r: Result<
    LedgerEntryIdBytes,
    Error,
>)
    requires
        forall|code: i32, w: Seq<u8>|
            #[trigger] old(host).bindings().signers_id_answers(account_id.0@, zero_bytes(32), code, w)
                ==> is_expected_bytes_answer(code, 32),
    ensures
        made_calls(*old(host), *final(host), seq![HostCall::SignersId]),
        exists|code: i32, id: [u8; 32]|
            #[trigger] old(host).bindings().signers_id_answers(account_id.0@, zero_bytes(32), code, id@)
                && r == spec_id_result(code, id),
{
    let mut id = zeroed_array::<32>();
    let code = host.signers_id(&account_id.0, &mut id);
    id_from_host_answer(code, id)
}

/// The ID of the Ticket entry of `owner` with sequence `seq`.
pub fn ticket_id<H: HostBindings>(host: &mut Host<H>, owner: &AccountID, seq: u32) -> (r: Result<
    LedgerEntryIdBytes,
    Error,
>)
    requires
        forall|code: i32, w: Seq<u8>|
            #[trigger] old(host).bindings().ticket_id_answers(owner.0@, u32_le(seq), zero_bytes(32), code, w)
                ==> is_expected_bytes_answer(code, 32),
    ensures
        made_calls(*old(host), *final(host), seq![HostCall::TicketId]),
        exists|code: i32, id: [u8; 32]|
            #[trigger] old(host).bindings().ticket_id_answers(owner.0@, u32_le(seq), zero_bytes(32), code, id@)
                && r == spec_id_result(code, id),
{
    let seq_bytes = u32_to_le_bytes(seq);
    let mut id = zeroed_array::<32>();
    let code = host.ticket_id(&owner.0, &seq_bytes, &mut id);
    id_from_host_answer(code, id)
}

/// The ID of the Vault entry created by `account` with sequence `seq`.
pub fn vault_id<H: HostBindings>(host: &mut Host<H>, account: &AccountID, seq: u32) -> (r: Result<
    LedgerEntryIdBytes,
    Error,
>)
    requires
        forall|code: i32, w: Seq<u8>|
            #[trigger] old(host).bindings().vault_id_answers(account.0@, u32_le(seq), zero_bytes(32), code, w)
                ==> is_expected_bytes_answer(code, 32),
    ensures
        made_calls(*old(host), *final(host), seq![HostCall::VaultId]),
        exists|code: i32, id: [u8; 32]|
            #[trigger] old(host).bindings().vault_id_answers(account.0@, u32_le(seq), zero_bytes(32), code, id@)
                && r == spec_id_result(code, id),
{
    let seq_bytes = u32_to_le_bytes(seq);
    let mut id = zeroed_array::<32>();
    let code = host.vault_id(&account.0, &seq_bytes, &mut id);
    id_from_host_answer(code, id)
}

} // verus!
