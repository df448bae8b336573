//! The host as this library calls it: a handle on the bindings that logs every call.
//!
//! Every host call this library makes goes through a [`Host`]. Its log of calls is ghost state,
//! so the contract of each function can say how many calls it makes, and of which host
//! function, besides what it hands over and what it makes of the answer.

use vstd::prelude::*;
use crate::host::bindings::{HostBindings, writes_within};

verus! {

/// A host function, as it appears in the log of a [`Host`].
#[derive(Debug, Clone, Copy, PartialEq, Eq, Structural)]
pub enum HostCall {
    LdgrIndex,
    ParentLdgrTime,
    ParentLdgrHash,
    BaseFee,
    AmendmentEnabled,
    CacheLe,
    TxField,
    HomeLeField,
    LeField,
    TxInner,
    HomeLeInner,
    LeInner,
    TxInnerArrLen,
    HomeLeInnerArrLen,
    LeInnerArrLen,
    Sha512Half,
    CheckSig,
    AccountrootId,
    AmmId,
    CheckId,
    CredentialId,
    DelegateId,
    DepositPreauthId,
    DidId,
    EscrowId,
    TrustlineId,
    MptIssuanceId,
    MptokenId,
    NftOfferId,
    OfferId,
    OracleId,
    PaychanId,
    PermissionedDomainId,
    SignersId,
    TicketId,
    VaultId,
    Trace,
}

/// A handle on host bindings, with the log of the calls made through it, oldest first.
pub struct Host<'a, H: HostBindings> {
    bindings: &'a H,
    calls: Ghost<Seq<HostCall>>,
}

/// Whether `post` is the handle `pre` after the calls `calls` and no other: same bindings, and
/// `calls` added to the log.
pub open spec fn made_calls<'a, H: HostBindings>(
    pre: Host<'a, H>,
    post: Host<'a, H>,
    calls: Seq<HostCall>,
) -> bool {
    &&& post.bindings() == pre.bindings()
    &&& post.calls() =~= pre.calls() + calls
}

impl<'a, H: HostBindings> Host<'a, H> {
    /// The bindings the calls go to.
    pub closed spec fn bindings(&self) -> &'a H {
        self.bindings
    }

    /// The calls made through this handle so far, oldest first.
    pub closed spec fn calls(&self) -> Seq<HostCall> {
        self.calls@
    }

    /// A handle on `bindings` that has made no call.
    pub fn new(bindings: &'a H) -> (r: Self)
        ensures
            r.bindings() == bindings,
            r.calls() == Seq::<HostCall>::empty(),
    {
        Host { bindings, calls: Ghost(Seq::empty()) }
    }

    /// Writes the index of the ledger being built. Logs the call.
    pub fn ldgr_index(&mut self, out: &mut [u8]) -> (r: i32)
        ensures
            made_calls(*old(self), *final(self), seq![HostCall::LdgrIndex]),
            old(self).bindings().ldgr_index_answers(old(out)@, r, final(out)@),
            writes_within(old(out)@, r, final(out)@),
    {
        let r = self.bindings.ldgr_index(out);
        self.calls = Ghost(self.calls@.push(HostCall::LdgrIndex));
        r
    }

    /// Writes the close time of the parent ledger. Logs the call.
    pub fn parent_ldgr_time(&mut self, out: &mut [u8]) -> (r: i32)
        ensures
            made_calls(*old(self), *final(self), seq![HostCall::ParentLdgrTime]),
            old(self).bindings().parent_ldgr_time_answers(old(out)@, r, final(out)@),
            writes_within(old(out)@, r, final(out)@),
    {
        let r = self.bindings.parent_ldgr_time(out);
        self.calls = Ghost(self.calls@.push(HostCall::ParentLdgrTime));
        r
    }

    /// Writes the hash of the parent ledger. Logs the call.
    pub fn parent_ldgr_hash(&mut self, out: &mut [u8]) -> (r: i32)
        ensures
            made_calls(*old(self), *final(self), seq![HostCall::ParentLdgrHash]),
            old(self).bindings().parent_ldgr_hash_answers(old(out)@, r, final(out)@),
            writes_within(old(out)@, r, final(out)@),
    {
        let r = self.bindings.parent_ldgr_hash(out);
        self.calls = Ghost(self.calls@.push(HostCall::ParentLdgrHash));
        r
    }

    /// Writes the base fee of the ledger being built. Logs the call.
    pub fn base_fee(&mut self, out: &mut [u8]) -> (r: i32)
        ensures
            made_calls(*old(self), *final(self), seq![HostCall::BaseFee]),
            old(self).bindings().base_fee_answers(old(out)@, r, final(out)@),
            writes_within(old(out)@, r, final(out)@),
    {
        let r = self.bindings.base_fee(out);
        self.calls = Ghost(self.calls@.push(HostCall::BaseFee));
        r
    }

    /// Answers 1 if the amendment with the given ID is enabled and 0 if it is not. Logs the call.
    pub fn amendment_enabled(&mut self, amendment: &[u8]) -> (r: i32)
        ensures
            made_calls(*old(self), *final(self), seq![HostCall::AmendmentEnabled]),
            old(self).bindings().amendment_enabled_answers(amendment@, r),
    {
        let r = self.bindings.amendment_enabled(amendment);
        self.calls = Ghost(self.calls@.push(HostCall::AmendmentEnabled));
        r
    }

    /// Loads the ledger entry with the given ID into a cache slot (0: the next free one) and
    /// answers the slot. Logs the call.
    pub fn cache_le(&mut self, id: &[u8], cache_num: i32) -> (r: i32)
        ensures
            made_calls(*old(self), *final(self), seq![HostCall::CacheLe]),
            old(self).bindings().cache_le_answers(id@, cache_num, r),
    {
        let r = self.bindings.cache_le(id, cache_num);
        self.calls = Ghost(self.calls@.push(HostCall::CacheLe));
        r
    }

    /// Writes a top-level field of the current transaction. Logs the call.
    pub fn tx_field(&mut self, field: i32, out: &mut [u8]) -> (r: i32)
        ensures
            made_calls(*old(self), *final(self), seq![HostCall::TxField]),
            old(self).bindings().tx_field_answers(field, old(out)@, r, final(out)@),
            writes_within(old(out)@, r, final(out)@),
    {
        let r = self.bindings.tx_field(field, out);
        self.calls = Ghost(self.calls@.push(HostCall::TxField));
        r
    }

    /// Writes a top-level field of the current ledger object. Logs the call.
    pub fn home_le_field(&mut self, field: i32, out: &mut [u8]) -> (r: i32)
        ensures
            made_calls(*old(self), *final(self), seq![HostCall::HomeLeField]),
            old(self).bindings().home_le_field_answers(field, old(out)@, r, final(out)@),
            writes_within(old(out)@, r, final(out)@),
    {
        let r = self.bindings.home_le_field(field, out);
        self.calls = Ghost(self.calls@.push(HostCall::HomeLeField));
        r
    }

    /// Writes a top-level field of the ledger object cached in a slot. Logs the call.
    pub fn le_field(&mut self, cache_num: i32, field: i32, out: &mut [u8]) -> (r: i32)
        ensures
            made_calls(*old(self), *final(self), seq![HostCall::LeField]),
            old(self).bindings().le_field_answers(cache_num, field, old(out)@, r, final(out)@),
            writes_within(old(out)@, r, final(out)@),
    {
        let r = self.bindings.le_field(cache_num, field, out);
        self.calls = Ghost(self.calls@.push(HostCall::LeField));
        r
    }

    /// Writes the field of the current transaction that a packed locator points at. Logs the call.
    pub fn tx_inner(&mut self, locator: &[u8], out: &mut [u8]) -> (r: i32)
        ensures
            made_calls(*old(self), *final(self), seq![HostCall::TxInner]),
            old(self).bindings().tx_inner_answers(locator@, old(out)@, r, final(out)@),
            writes_within(old(out)@, r, final(out)@),
    {
        let r = self.bindings.tx_inner(locator, out);
        self.calls = Ghost(self.calls@.push(HostCall::TxInner));
        r
    }

    /// Writes the field of the current ledger object that a packed locator points at. Logs the call.
    pub fn home_le_inner(&mut self, locator: &[u8], out: &mut [u8]) -> (r: i32)
        ensures
            made_calls(*old(self), *final(self), seq![HostCall::HomeLeInner]),
            old(self).bindings().home_le_inner_answers(locator@, old(out)@, r, final(out)@),
            writes_within(old(out)@, r, final(out)@),
    {
        let r = self.bindings.home_le_inner(locator, out);
        self.calls = Ghost(self.calls@.push(HostCall::HomeLeInner));
        r
    }

    /// Writes the field of a slot-cached ledger object that a packed locator points at. Logs the call.
    pub fn le_inner(&mut self, cache_num: i32, locator: &[u8], out: &mut [u8]) -> (r: i32)
        ensures
            made_calls(*old(self), *final(self), seq![HostCall::LeInner]),
            old(self).bindings().le_inner_answers(cache_num, locator@, old(out)@, r, final(out)@),
            writes_within(old(out)@, r, final(out)@),
    {
        let r = self.bindings.le_inner(cache_num, locator, out);
        self.calls = Ghost(self.calls@.push(HostCall::LeInner));
        r
    }

    /// Answers the length of the array in the current transaction that a locator points at. Logs the call.
    pub fn tx_inner_arr_len(&mut self, locator: &[u8]) -> (r: i32)
        ensures
            made_calls(*old(self), *final(self), seq![HostCall::TxInnerArrLen]),
            old(self).bindings().tx_inner_arr_len_answers(locator@, r),
    {
        let r = self.bindings.tx_inner_arr_len(locator);
        self.calls = Ghost(self.calls@.push(HostCall::TxInnerArrLen));
        r
    }

    /// Answers the length of the array in the current ledger object that a locator points at. Logs the call.
    pub fn home_le_inner_arr_len(&mut self, locator: &[u8]) -> (r: i32)
        ensures
            made_calls(*old(self), *final(self), seq![HostCall::HomeLeInnerArrLen]),
            old(self).bindings().home_le_inner_arr_len_answers(locator@, r),
    {
        let r = self.bindings.home_le_inner_arr_len(locator);
        self.calls = Ghost(self.calls@.push(HostCall::HomeLeInnerArrLen));
        r
    }

    /// Answers the length of the array in a slot-cached ledger object that a locator points at. Logs the call.
    pub fn le_inner_arr_len(&mut self, cache_num: i32, locator: &[u8]) -> (r: i32)
        ensures
            made_calls(*old(self), *final(self), seq![HostCall::LeInnerArrLen]),
            old(self).bindings().le_inner_arr_len_answers(cache_num, locator@, r),
    {
        let r = self.bindings.le_inner_arr_len(cache_num, locator);
        self.calls = Ghost(self.calls@.push(HostCall::LeInnerArrLen));
        r
    }

    /// Writes the first half of the SHA-512 digest of `data`. Logs the call.
    pub fn sha512_half(&mut self, data: &[u8], out: &mut [u8]) -> (r: i32)
        ensures
            made_calls(*old(self), *final(self), seq![HostCall::Sha512Half]),
            old(self).bindings().sha512_half_answers(data@, old(out)@, r, final(out)@),
            writes_within(old(out)@, r, final(out)@),
    {
        let r = self.bindings.sha512_half(data, out);
        self.calls = Ghost(self.calls@.push(HostCall::Sha512Half));
        r
    }

    /// Answers 1 if `signature` is a valid signature of `message` by `pubkey` and 0 if it is not. Logs the call.
    pub fn check_sig(&mut self, message: &[u8], signature: &[u8], pubkey: &[u8]) -> (r: i32)
        ensures
            made_calls(*old(self), *final(self), seq![HostCall::CheckSig]),
            old(self).bindings().check_sig_answers(message@, signature@, pubkey@, r),
    {
        let r = self.bindings.check_sig(message, signature, pubkey);
        self.calls = Ghost(self.calls@.push(HostCall::CheckSig));
        r
    }

    /// Writes the ID of an account's AccountRoot entry. Logs the call.
    pub fn accountroot_id(&mut self, account: &[u8], out: &mut [u8]) -> (r: i32)
        ensures
            made_calls(*old(self), *final(self), seq![HostCall::AccountrootId]),
            old(self).bindings().accountroot_id_answers(account@, old(out)@, r, final(out)@),
            writes_within(old(out)@, r, final(out)@),
    {
        let r = self.bindings.accountroot_id(account, out);
        self.calls = Ghost(self.calls@.push(HostCall::AccountrootId));
        r
    }

    /// Writes the ID of the AMM entry of an asset pair. Logs the call.
    pub fn amm_id(&mut self, issue1: &[u8], issue2: &[u8], out: &mut [u8]) -> (r: i32)
        ensures
            made_calls(*old(self), *final(self), seq![HostCall::AmmId]),
            old(self).bindings().amm_id_answers(issue1@, issue2@, old(out)@, r, final(out)@),
            writes_within(old(out)@, r, final(out)@),
    {
        let r = self.bindings.amm_id(issue1, issue2, out);
        self.calls = Ghost(self.calls@.push(HostCall::AmmId));
        r
    }

    /// Writes the ID of a Check entry. Logs the call.
    pub fn check_id(&mut self, account: &[u8], sequence: &[u8], out: &mut [u8]) -> (r: i32)
        ensures
            made_calls(*old(self), *final(self), seq![HostCall::CheckId]),
            old(self).bindings().check_id_answers(account@, sequence@, old(out)@, r, final(out)@),
            writes_within(old(out)@, r, final(out)@),
    {
        let r = self.bindings.check_id(account, sequence, out);
        self.calls = Ghost(self.calls@.push(HostCall::CheckId));
        r
    }

    /// Writes the ID of a Credential entry. Logs the call.
    pub fn credential_id(
        &mut self,
        subject: &[u8],
        issuer: &[u8],
        cred_type: &[u8],
        out: &mut [u8],
    ) -> (r: i32)
        ensures
            made_calls(*old(self), *final(self), seq![HostCall::CredentialId]),
            old(self).bindings().credential_id_answers(
                subject@,
                issuer@,
                cred_type@,
                old(out)@,
                r,
                final(out)@,
            ),
            writes_within(old(out)@, r, final(out)@),
    {
        let r = self.bindings.credential_id(subject, issuer, cred_type, out);
        self.calls = Ghost(self.calls@.push(HostCall::CredentialId));
        r
    }

    /// Writes the ID of a Delegate entry. Logs the call.
    pub fn delegate_id(&mut self, account: &[u8], authorize: &[u8], out: &mut [u8]) -> (r: i32)
        ensures
            made_calls(*old(self), *final(self), seq![HostCall::DelegateId]),
            old(self).bindings().delegate_id_answers(
                account@,
                authorize@,
                old(out)@,
                r,
                final(out)@,
            ),
            writes_within(old(out)@, r, final(out)@),
    {
        let r = self.bindings.delegate_id(account, authorize, out);
        self.calls = Ghost(self.calls@.push(HostCall::DelegateId));
        r
    }

    /// Writes the ID of a DepositPreauth entry. Logs the call.
    pub fn deposit_preauth_id(
        &mut self,
        account: &[u8],
        authorize: &[u8],
        out: &mut [u8],
    ) -> (r: i32)
        ensures
            made_calls(*old(self), *final(self), seq![HostCall::DepositPreauthId]),
            old(self).bindings().deposit_preauth_id_answers(
                account@,
                authorize@,
                old(out)@,
                r,
                final(out)@,
            ),
            writes_within(old(out)@, r, final(out)@),
    {
        let r = self.bindings.deposit_preauth_id(account, authorize, out);
        self.calls = Ghost(self.calls@.push(HostCall::DepositPreauthId));
        r
    }

    /// Writes the ID of an account's DID entry. Logs the call.
    pub fn did_id(&mut self, account: &[u8], out: &mut [u8]) -> (r: i32)
        ensures
            made_calls(*old(self), *final(self), seq![HostCall::DidId]),
            old(self).bindings().did_id_answers(account@, old(out)@, r, final(out)@),
            writes_within(old(out)@, r, final(out)@),
    {
        let r = self.bindings.did_id(account, out);
        self.calls = Ghost(self.calls@.push(HostCall::DidId));
        r
    }

    /// Writes the ID of an Escrow entry. Logs the call.
    pub fn escrow_id(&mut self, account: &[u8], sequence: &[u8], out: &mut [u8]) -> (r: i32)
        ensures
            made_calls(*old(self), *final(self), seq![HostCall::EscrowId]),
            old(self).bindings().escrow_id_answers(account@, sequence@, old(out)@, r, final(out)@),
            writes_within(old(out)@, r, final(out)@),
    {
        let r = self.bindings.escrow_id(account, sequence, out);
        self.calls = Ghost(self.calls@.push(HostCall::EscrowId));
        r
    }

    /// Writes the ID of the trust line between two accounts for a currency. Logs the call.
    pub fn trustline_id(
        &mut self,
        account1: &[u8],
        account2: &[u8],
        currency: &[u8],
        out: &mut [u8],
    ) -> (r: i32)
        ensures
            made_calls(*old(self), *final(self), seq![HostCall::TrustlineId]),
            old(self).bindings().trustline_id_answers(
                account1@,
                account2@,
                currency@,
                old(out)@,
                r,
                final(out)@,
            ),
            writes_within(old(out)@, r, final(out)@),
    {
        let r = self.bindings.trustline_id(account1, account2, currency, out);
        self.calls = Ghost(self.calls@.push(HostCall::TrustlineId));
        r
    }

    /// Writes the ID of an MPTokenIssuance entry. Logs the call.
    pub fn mpt_issuance_id(&mut self, issuer: &[u8], sequence: &[u8], out: &mut [u8]) -> (r: i32)
        ensures
            made_calls(*old(self), *final(self), seq![HostCall::MptIssuanceId]),
            old(self).bindings().mpt_issuance_id_answers(
                issuer@,
                sequence@,
                old(out)@,
                r,
                final(out)@,
            ),
            writes_within(old(out)@, r, final(out)@),
    {
        let r = self.bindings.mpt_issuance_id(issuer, sequence, out);
        self.calls = Ghost(self.calls@.push(HostCall::MptIssuanceId));
        r
    }

    /// Writes the ID of an MPToken entry. Logs the call.
    pub fn mptoken_id(&mut self, mptid: &[u8], holder: &[u8], out: &mut [u8]) -> (r: i32)
        ensures
            made_calls(*old(self), *final(self), seq![HostCall::MptokenId]),
            old(self).bindings().mptoken_id_answers(mptid@, holder@, old(out)@, r, final(out)@),
            writes_within(old(out)@, r, final(out)@),
    {
        let r = self.bindings.mptoken_id(mptid, holder, out);
        self.calls = Ghost(self.calls@.push(HostCall::MptokenId));
        r
    }

    /// Writes the ID of an NFTokenOffer entry. Logs the call.
    pub fn nft_offer_id(&mut self, account: &[u8], sequence: &[u8], out: &mut [u8]) -> (r: i32)
        ensures
            made_calls(*old(self), *final(self), seq![HostCall::NftOfferId]),
            old(self).bindings().nft_offer_id_answers(
                account@,
                sequence@,
                old(out)@,
                r,
                final(out)@,
            ),
            writes_within(old(out)@, r, final(out)@),
    {
        let r = self.bindings.nft_offer_id(account, sequence, out);
        self.calls = Ghost(self.calls@.push(HostCall::NftOfferId));
        r
    }

    /// Writes the ID of an Offer entry. Logs the call.
    pub fn offer_id(&mut self, account: &[u8], sequence: &[u8], out: &mut [u8]) -> (r: i32)
        ensures
            made_calls(*old(self), *final(self), seq![HostCall::OfferId]),
            old(self).bindings().offer_id_answers(account@, sequence@, old(out)@, r, final(out)@),
            writes_within(old(out)@, r, final(out)@),
    {
        let r = self.bindings.offer_id(account, sequence, out);
        self.calls = Ghost(self.calls@.push(HostCall::OfferId));
        r
    }

    /// Writes the ID of an Oracle entry. Logs the call.
    pub fn oracle_id(&mut self, account: &[u8], document_id: &[u8], out: &mut [u8]) -> (r: i32)
        ensures
            made_calls(*old(self), *final(self), seq![HostCall::OracleId]),
            old(self).bindings().oracle_id_answers(
                account@,
                document_id@,
                old(out)@,
                r,
                final(out)@,
            ),
            writes_within(old(out)@, r, final(out)@),
    {
        let r = self.bindings.oracle_id(account, document_id, out);
        self.calls = Ghost(self.calls@.push(HostCall::OracleId));
        r
    }

    /// Writes the ID of a PayChannel entry. Logs the call.
    pub fn paychan_id(
        &mut self,
        account: &[u8],
        destination: &[u8],
        sequence: &[u8],
        out: &mut [u8],
    ) -> (r: i32)
        ensures
            made_calls(*old(self), *final(self), seq![HostCall::PaychanId]),
            old(self).bindings().paychan_id_answers(
                account@,
                destination@,
                sequence@,
                old(out)@,
                r,
                final(out)@,
            ),
            writes_within(old(out)@, r, final(out)@),
    {
        let r = self.bindings.paychan_id(account, destination, sequence, out);
        self.calls = Ghost(self.calls@.push(HostCall::PaychanId));
        r
    }

    /// Writes the ID of a PermissionedDomain entry. Logs the call.
    pub fn permissioned_domain_id(
        &mut self,
        account: &[u8],
        sequence: &[u8],
        out: &mut [u8],
    ) -> (r: i32)
        ensures
            made_calls(*old(self), *final(self), seq![HostCall::PermissionedDomainId]),
            old(self).bindings().permissioned_domain_id_answers(
                account@,
                sequence@,
                old(out)@,
                r,
                final(out)@,
            ),
            writes_within(old(out)@, r, final(out)@),
    {
        let r = self.bindings.permissioned_domain_id(account, sequence, out);
        self.calls = Ghost(self.calls@.push(HostCall::PermissionedDomainId));
        r
    }

    /// Writes the ID of an account's SignerList entry. Logs the call.
    pub fn signers_id(&mut self, account: &[u8], out: &mut [u8]) -> (r: i32)
        ensures
            made_calls(*old(self), *final(self), seq![HostCall::SignersId]),
            old(self).bindings().signers_id_answers(account@, old(out)@, r, final(out)@),
            writes_within(old(out)@, r, final(out)@),
    {
        let r = self.bindings.signers_id(account, out);
        self.calls = Ghost(self.calls@.push(HostCall::SignersId));
        r
    }

    /// Writes the ID of a Ticket entry. Logs the call.
    pub fn ticket_id(&mut self, account: &[u8], sequence: &[u8], out: &mut [u8]) -> (r: i32)
        ensures
            made_calls(*old(self), *final(self), seq![HostCall::TicketId]),
            old(self).bindings().ticket_id_answers(account@, sequence@, old(out)@, r, final(out)@),
            writes_within(old(out)@, r, final(out)@),
    {
        let r = self.bindings.ticket_id(account, sequence, out);
        self.calls = Ghost(self.calls@.push(HostCall::TicketId));
        r
    }

    /// Writes the ID of a Vault entry. Logs the call.
    pub fn vault_id(&mut self, account: &[u8], sequence: &[u8], out: &mut [u8]) -> (r: i32)
        ensures
            made_calls(*old(self), *final(self), seq![HostCall::VaultId]),
            old(self).bindings().vault_id_answers(account@, sequence@, old(out)@, r, final(out)@),
            writes_within(old(out)@, r, final(out)@),
    {
        let r = self.bindings.vault_id(account, sequence, out);
        self.calls = Ghost(self.calls@.push(HostCall::VaultId));
        r
    }

    /// Writes `msg` and `data` to the trace log; `data_type` says how the host renders `data`.
    /// Logs the call.
    pub fn trace(&mut self, msg: &str, data_type: i32, data: &[u8])
        ensures
            made_calls(*old(self), *final(self), seq![HostCall::Trace]),
            old(self).bindings().traced(msg@, data_type, data@),
    {
        self.bindings.trace(msg, data_type, data);
        self.calls = Ghost(self.calls@.push(HostCall::Trace));
    }
}

} // verus!
