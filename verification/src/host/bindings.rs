//! The functions the host exposes to a contract.
//!
//! Every read of ledger or transaction data, every hash and every trace line goes through a
//! [`HostBindings`] value, reached through a logging [`Host`](crate::host::Host) handle, so the
//! logic of this library is the same whether it runs against the real host or against a
//! stand-in. Each method mirrors one host function: a buffer the host reads is a `&[u8]`, a
//! buffer it writes is a `&mut [u8]`, and the returned `i32` is the host's result code (a byte
//! count or other non-negative answer on success, a negative error code otherwise).
//!
//! Each method comes with a relation, a spec function named after it with `_answers`, that holds
//! of the arguments of the call (output buffers as handed over) and of what came back; an
//! implementation may define it to describe its host. By default it holds only what the host's
//! interface promises: an ID, a digest or a ledger value fills its buffer or is an error, a
//! signature check answers 1, 0 or an error, and a transaction's `SigningPubKey` is empty or 33
//! bytes; every other default says nothing. The contracts of this library speak of these
//! relations, and so say which call was made and that the result is what the library makes of
//! some answer to it. Functions whose answer the interface constrains require it of the host's
//! relation: any other answer would mean the host broke its interface.
//!
//! These relations, and the promise of every writing method to change no byte past the count it
//! answers, are assumptions about the implementation: Verus checks them of [`DefaultHost`], and
//! nothing checks them of a host implemented outside this crate.
//!
//! [`DefaultHost`] is a stub host that answers every call with plausible success values.

use vstd::prelude::*;
use crate::sfield::{SField, SigningPubKey};

verus! {

/// The serialized type code of amount fields (the high 16 bits of their field code).
pub const STI_AMOUNT: i32 = 6;

/// The stub host's answer to a read of `field` into a buffer of `out_len` bytes: an amount field
/// reports an 8-byte (XRP) write, any other field a write that fills the buffer.
pub fn stub_field_answer(field: i32, out_len: usize) -> (r: i32)
    ensures
        r == stub_field_code(field, out_len as nat),
{
    if field >> 16i32 == STI_AMOUNT {
        8
    } else {
        out_len as i32
    }
}

/// The stub host's answer to a read of `field` into a buffer of `out_len` bytes.
pub open spec fn stub_field_code(field: i32, out_len: nat) -> i32 {
    if field >> 16i32 == STI_AMOUNT {
        8
    } else {
        out_len as i32
    }
}

/// Whether `written`, what an output buffer holds after a host call answered with `code`, is the
/// buffer `before` it was handed, but for the first `code` bytes when `code` is not negative.
pub open spec fn writes_within(before: Seq<u8>, code: i32, written: Seq<u8>) -> bool {
    &&& written.len() == before.len()
    &&& forall|i: int| 0 <= code <= i < before.len() ==> #[trigger] written[i] == before[i]
}

/// The host functions a contract can call.
///
/// Every method that writes an output buffer leaves it as long as it was, and changes no byte
/// past the count it answers.
pub trait HostBindings {
    /// Whether the host may answer `ldgr_index`, handed the output buffer `before`, with the result
    /// code `code`, leaving `written` in the buffer.
    ///
    /// The host promises an error or a write that fills the buffer.
    open spec fn ldgr_index_answers(&self, before: Seq<u8>, code: i32, written: Seq<u8>) -> bool {
        code < 0 || code == before.len()
    }

    /// Writes the index of the ledger being built.
    fn ldgr_index(&self, out: &mut [u8]) -> (r: i32)
        ensures
            self.ldgr_index_answers(old(out)@, r, final(out)@),
            writes_within(old(out)@, r, final(out)@),
    ;

    /// Whether the host may answer `parent_ldgr_time`, handed the output buffer `before`, with the
    /// result code `code`, leaving `written` in the buffer.
    ///
    /// The host promises an error or a write that fills the buffer.
    open spec fn parent_ldgr_time_answers(
        &self,
        before: Seq<u8>,
        code: i32,
        written: Seq<u8>,
    ) -> bool {
        code < 0 || code == before.len()
    }

    /// Writes the close time of the parent ledger.
    fn parent_ldgr_time(&self, out: &mut [u8]) -> (r: i32)
        ensures
            self.parent_ldgr_time_answers(old(out)@, r, final(out)@),
            writes_within(old(out)@, r, final(out)@),
    ;

    /// Whether the host may answer `parent_ldgr_hash`, handed the output buffer `before`, with the
    /// result code `code`, leaving `written` in the buffer.
    ///
    /// The host promises an error or a write that fills the buffer.
    open spec fn parent_ldgr_hash_answers(
        &self,
        before: Seq<u8>,
        code: i32,
        written: Seq<u8>,
    ) -> bool {
        code < 0 || code == before.len()
    }

    /// Writes the hash of the parent ledger.
    fn parent_ldgr_hash(&self, out: &mut [u8]) -> (r: i32)
        ensures
            self.parent_ldgr_hash_answers(old(out)@, r, final(out)@),
            writes_within(old(out)@, r, final(out)@),
    ;

    /// Whether the host may answer `base_fee`, handed the output buffer `before`, with the result
    /// code `code`, leaving `written` in the buffer.
    ///
    /// The host promises an error or a write that fills the buffer.
    open spec fn base_fee_answers(&self, before: Seq<u8>, code: i32, written: Seq<u8>) -> bool {
        code < 0 || code == before.len()
    }

    /// Writes the base fee of the ledger being built.
    fn base_fee(&self, out: &mut [u8]) -> (r: i32)
        ensures
            self.base_fee_answers(old(out)@, r, final(out)@),
            writes_within(old(out)@, r, final(out)@),
    ;

    /// Whether the host may answer `amendment_enabled` with the result code `code`.
    closed spec fn amendment_enabled_answers(&self, amendment: Seq<u8>, code: i32) -> bool {
        true
    }

    /// Answers 1 if the amendment with the given ID is enabled and 0 if it is not.
    fn amendment_enabled(&self, amendment: &[u8]) -> (r: i32)
        ensures
            self.amendment_enabled_answers(amendment@, r),
    ;

    /// Whether the host may answer `cache_le` with the result code `code`.
    closed spec fn cache_le_answers(&self, id: Seq<u8>, cache_num: i32, code: i32) -> bool {
        true
    }

    /// Loads the ledger entry with the given ID into a cache slot (0: the next free one) and
    /// answers the slot.
    fn cache_le(&self, id: &[u8], cache_num: i32) -> (r: i32)
        ensures
            self.cache_le_answers(id@, cache_num, r),
    ;

    /// Whether the host may answer `tx_field`, handed the output buffer `before`, with the result
    /// code `code`, leaving `written` in the buffer.
    ///
    /// The host promises that a transaction's `SigningPubKey` is empty (a multi-signed
    /// transaction) or a 33-byte key: the ledger admits no other.
    open spec fn tx_field_answers(
        &self,
        field: i32,
        before: Seq<u8>,
        code: i32,
        written: Seq<u8>,
    ) -> bool {
        field == SigningPubKey::spec_code() ==> (code < 0 || code == 0 || code == 33)
    }

    /// Writes a top-level field of the current transaction.
    fn tx_field(&self, field: i32, out: &mut [u8]) -> (r: i32)
        ensures
            self.tx_field_answers(field, old(out)@, r, final(out)@),
            writes_within(old(out)@, r, final(out)@),
    ;

    /// Whether the host may answer `home_le_field`, handed the output buffer `before`, with the
    /// result code `code`, leaving `written` in the buffer.
    closed spec fn home_le_field_answers(
        &self,
        field: i32,
        before: Seq<u8>,
        code: i32,
        written: Seq<u8>,
    ) -> bool {
        true
    }

    /// Writes a top-level field of the current ledger object.
    fn home_le_field(&self, field: i32, out: &mut [u8]) -> (r: i32)
        ensures
            self.home_le_field_answers(field, old(out)@, r, final(out)@),
            writes_within(old(out)@, r, final(out)@),
    ;

    /// Whether the host may answer `le_field`, handed the output buffer `before`, with the result
    /// code `code`, leaving `written` in the buffer.
    closed spec fn le_field_answers(
        &self,
        cache_num: i32,
        field: i32,
        before: Seq<u8>,
        code: i32,
        written: Seq<u8>,
    ) -> bool {
        true
    }

    /// Writes a top-level field of the ledger object cached in a slot.
    fn le_field(&self, cache_num: i32, field: i32, out: &mut [u8]) -> (r: i32)
        ensures
            self.le_field_answers(cache_num, field, old(out)@, r, final(out)@),
            writes_within(old(out)@, r, final(out)@),
    ;

    /// Whether the host may answer `tx_inner`, handed the output buffer `before`, with the result
    /// code `code`, leaving `written` in the buffer.
    closed spec fn tx_inner_answers(
        &self,
        locator: Seq<u8>,
        before: Seq<u8>,
        code: i32,
        written: Seq<u8>,
    ) -> bool {
        true
    }

    /// Writes the field of the current transaction that a packed locator points at.
    fn tx_inner(&self, locator: &[u8], out: &mut [u8]) -> (r: i32)
        ensures
            self.tx_inner_answers(locator@, old(out)@, r, final(out)@),
            writes_within(old(out)@, r, final(out)@),
    ;

    /// Whether the host may answer `home_le_inner`, handed the output buffer `before`, with the
    /// result code `code`, leaving `written` in the buffer.
    closed spec fn home_le_inner_answers(
        &self,
        locator: Seq<u8>,
        before: Seq<u8>,
        code: i32,
        written: Seq<u8>,
    ) -> bool {
        true
    }

    /// Writes the field of the current ledger object that a packed locator points at.
    fn home_le_inner(&self, locator: &[u8], out: &mut [u8]) -> (r: i32)
        ensures
            self.home_le_inner_answers(locator@, old(out)@, r, final(out)@),
            writes_within(old(out)@, r, final(out)@),
    ;

    /// Whether the host may answer `le_inner`, handed the output buffer `before`, with the result
    /// code `code`, leaving `written` in the buffer.
    closed spec fn le_inner_answers(
        &self,
        cache_num: i32,
        locator: Seq<u8>,
        before: Seq<u8>,
        code: i32,
        written: Seq<u8>,
    ) -> bool {
        true
    }

    /// Writes the field of a slot-cached ledger object that a packed locator points at.
    fn le_inner(&self, cache_num: i32, locator: &[u8], out: &mut [u8]) -> (r: i32)
        ensures
            self.le_inner_answers(cache_num, locator@, old(out)@, r, final(out)@),
            writes_within(old(out)@, r, final(out)@),
    ;

    /// Whether the host may answer `tx_inner_arr_len` with the result code `code`.
    closed spec fn tx_inner_arr_len_answers(&self, locator: Seq<u8>, code: i32) -> bool {
        true
    }

    /// Answers the length of the array in the current transaction that a locator points at.
    fn tx_inner_arr_len(&self, locator: &[u8]) -> (r: i32)
        ensures
            self.tx_inner_arr_len_answers(locator@, r),
    ;

    /// Whether the host may answer `home_le_inner_arr_len` with the result code `code`.
    closed spec fn home_le_inner_arr_len_answers(&self, locator: Seq<u8>, code: i32) -> bool {
        true
    }

    /// Answers the length of the array in the current ledger object that a locator points at.
    fn home_le_inner_arr_len(&self, locator: &[u8]) -> (r: i32)
        ensures
            self.home_le_inner_arr_len_answers(locator@, r),
    ;

    /// Whether the host may answer `le_inner_arr_len` with the result code `code`.
    closed spec fn le_inner_arr_len_answers(
        &self,
        cache_num: i32,
        locator: Seq<u8>,
        code: i32,
    ) -> bool {
        true
    }

    /// Answers the length of the array in a slot-cached ledger object that a locator points at.
    fn le_inner_arr_len(&self, cache_num: i32, locator: &[u8]) -> (r: i32)
        ensures
            self.le_inner_arr_len_answers(cache_num, locator@, r),
    ;

    /// Whether the host may answer `sha512_half`, handed the output buffer `before`, with the
    /// result code `code`, leaving `written` in the buffer.
    ///
    /// The host promises an error or a write that fills the buffer.
    open spec fn sha512_half_answers(
        &self,
        data: Seq<u8>,
        before: Seq<u8>,
        code: i32,
        written: Seq<u8>,
    ) -> bool {
        code < 0 || code == before.len()
    }

    /// Writes the first half of the SHA-512 digest of `data`.
    fn sha512_half(&self, data: &[u8], out: &mut [u8]) -> (r: i32)
        ensures
            self.sha512_half_answers(data@, old(out)@, r, final(out)@),
            writes_within(old(out)@, r, final(out)@),
    ;

    /// Whether the host may answer `check_sig` with the result code `code`.
    ///
    /// The host promises 1, 0 or a negative error code.
    open spec fn check_sig_answers(
        &self,
        message: Seq<u8>,
        signature: Seq<u8>,
        pubkey: Seq<u8>,
        code: i32,
    ) -> bool {
        code < 2
    }

    /// Answers 1 if `signature` is a valid signature of `message` by `pubkey` and 0 if it is not.
    fn check_sig(&self, message: &[u8], signature: &[u8], pubkey: &[u8]) -> (r: i32)
        ensures
            self.check_sig_answers(message@, signature@, pubkey@, r),
    ;

    /// Whether the host may answer `accountroot_id`, handed the output buffer `before`, with the
    /// result code `code`, leaving `written` in the buffer.
    ///
    /// The host promises an error or a write that fills the buffer.
    open spec fn accountroot_id_answers(
        &self,
        account: Seq<u8>,
        before: Seq<u8>,
        code: i32,
        written: Seq<u8>,
    ) -> bool {
        code < 0 || code == before.len()
    }

    /// Writes the ID of an account's AccountRoot entry.
    fn accountroot_id(&self, account: &[u8], out: &mut [u8]) -> (r: i32)
        ensures
            self.accountroot_id_answers(account@, old(out)@, r, final(out)@),
            writes_within(old(out)@, r, final(out)@),
    ;

    /// Whether the host may answer `amm_id`, handed the output buffer `before`, with the result
    /// code `code`, leaving `written` in the buffer.
    ///
    /// The host promises an error or a write that fills the buffer.
    open spec fn amm_id_answers(
        &self,
        issue1: Seq<u8>,
        issue2: Seq<u8>,
        before: Seq<u8>,
        code: i32,
        written: Seq<u8>,
    ) -> bool {
        code < 0 || code == before.len()
    }

    /// Writes the ID of the AMM entry of an asset pair.
    fn amm_id(&self, issue1: &[u8], issue2: &[u8], out: &mut [u8]) -> (r: i32)
        ensures
            self.amm_id_answers(issue1@, issue2@, old(out)@, r, final(out)@),
            writes_within(old(out)@, r, final(out)@),
    ;

    /// Whether the host may answer `check_id`, handed the output buffer `before`, with the result
    /// code `code`, leaving `written` in the buffer.
    ///
    /// The host promises an error or a write that fills the buffer.
    open spec fn check_id_answers(
        &self,
        account: Seq<u8>,
        sequence: Seq<u8>,
        before: Seq<u8>,
        code: i32,
        written: Seq<u8>,
    ) -> bool {
        code < 0 || code == before.len()
    }

    /// Writes the ID of a Check entry.
    fn check_id(&self, account: &[u8], sequence: &[u8], out: &mut [u8]) -> (r: i32)
        ensures
            self.check_id_answers(account@, sequence@, old(out)@, r, final(out)@),
            writes_within(old(out)@, r, final(out)@),
    ;

    /// Whether the host may answer `credential_id`, handed the output buffer `before`, with the
    /// result code `code`, leaving `written` in the buffer.
    ///
    /// The host promises an error or a write that fills the buffer.
    open spec fn credential_id_answers(
        &self,
        subject: Seq<u8>,
        issuer: Seq<u8>,
        cred_type: Seq<u8>,
        before: Seq<u8>,
        code: i32,
        written: Seq<u8>,
    ) -> bool {
        code < 0 || code == before.len()
    }

    /// Writes the ID of a Credential entry.
    fn credential_id(
        &self,
        subject: &[u8],
        issuer: &[u8],
        cred_type: &[u8],
        out: &mut [u8],
    ) -> (r: i32)
        ensures
            self.credential_id_answers(subject@, issuer@, cred_type@, old(out)@, r, final(out)@),
            writes_within(old(out)@, r, final(out)@),
    ;

    /// Whether the host may answer `delegate_id`, handed the output buffer `before`, with the
    /// result code `code`, leaving `written` in the buffer.
    ///
    /// The host promises an error or a write that fills the buffer.
    open spec fn delegate_id_answers(
        &self,
        account: Seq<u8>,
        authorize: Seq<u8>,
        before: Seq<u8>,
        code: i32,
        written: Seq<u8>,
    ) -> bool {
        code < 0 || code == before.len()
    }

    /// Writes the ID of a Delegate entry.
    fn delegate_id(&self, account: &[u8], authorize: &[u8], out: &mut [u8]) -> (r: i32)
        ensures
            self.delegate_id_answers(account@, authorize@, old(out)@, r, final(out)@),
            writes_within(old(out)@, r, final(out)@),
    ;

    /// Whether the host may answer `deposit_preauth_id`, handed the output buffer `before`, with
    /// the result code `code`, leaving `written` in the buffer.
    ///
    /// The host promises an error or a write that fills the buffer.
    open spec fn deposit_preauth_id_answers(
        &self,
        account: Seq<u8>,
        authorize: Seq<u8>,
        before: Seq<u8>,
        code: i32,
        written: Seq<u8>,
    ) -> bool {
        code < 0 || code == before.len()
    }

    /// Writes the ID of a DepositPreauth entry.
    fn deposit_preauth_id(&self, account: &[u8], authorize: &[u8], out: &mut [u8]) -> (r: i32)
        ensures
            self.deposit_preauth_id_answers(account@, authorize@, old(out)@, r, final(out)@),
            writes_within(old(out)@, r, final(out)@),
    ;

    /// Whether the host may answer `did_id`, handed the output buffer `before`, with the result
    /// code `code`, leaving `written` in the buffer.
    ///
    /// The host promises an error or a write that fills the buffer.
    open spec fn did_id_answers(
        &self,
        account: Seq<u8>,
        before: Seq<u8>,
        code: i32,
        written: Seq<u8>,
    ) -> bool {
        code < 0 || code == before.len()
    }

    /// Writes the ID of an account's DID entry.
    fn did_id(&self, account: &[u8], out: &mut [u8]) -> (r: i32)
        ensures
            self.did_id_answers(account@, old(out)@, r, final(out)@),
            writes_within(old(out)@, r, final(out)@),
    ;

    /// Whether the host may answer `escrow_id`, handed the output buffer `before`, with the result
    /// code `code`, leaving `written` in the buffer.
    ///
    /// The host promises an error or a write that fills the buffer.
    open spec fn escrow_id_answers(
        &self,
        account: Seq<u8>,
        sequence: Seq<u8>,
        before: Seq<u8>,
        code: i32,
        written: Seq<u8>,
    ) -> bool {
        code < 0 || code == before.len()
    }

    /// Writes the ID of an Escrow entry.
    fn escrow_id(&self, account: &[u8], sequence: &[u8], out: &mut [u8]) -> (r: i32)
        ensures
            self.escrow_id_answers(account@, sequence@, old(out)@, r, final(out)@),
            writes_within(old(out)@, r, final(out)@),
    ;

    /// Whether the host may answer `trustline_id`, handed the output buffer `before`, with the
    /// result code `code`, leaving `written` in the buffer.
    ///
    /// The host promises an error or a write that fills the buffer.
    open spec fn trustline_id_answers(
        &self,
        account1: Seq<u8>,
        account2: Seq<u8>,
        currency: Seq<u8>,
        before: Seq<u8>,
        code: i32,
        written: Seq<u8>,
    ) -> bool {
        code < 0 || code == before.len()
    }

    /// Writes the ID of the trust line between two accounts for a currency.
    fn trustline_id(
        &self,
        account1: &[u8],
        account2: &[u8],
        currency: &[u8],
        out: &mut [u8],
    ) -> (r: i32)
        ensures
            self.trustline_id_answers(account1@, account2@, currency@, old(out)@, r, final(out)@),
            writes_within(old(out)@, r, final(out)@),
    ;

    /// Whether the host may answer `mpt_issuance_id`, handed the output buffer `before`, with the
    /// result code `code`, leaving `written` in the buffer.
    ///
    /// The host promises an error or a write that fills the buffer.
    open spec fn mpt_issuance_id_answers(
        &self,
        issuer: Seq<u8>,
        sequence: Seq<u8>,
        before: Seq<u8>,
        code: i32,
        written: Seq<u8>,
    ) -> bool {
        code < 0 || code == before.len()
    }

    /// Writes the ID of an MPTokenIssuance entry.
    fn mpt_issuance_id(&self, issuer: &[u8], sequence: &[u8], out: &mut [u8]) -> (r: i32)
        ensures
            self.mpt_issuance_id_answers(issuer@, sequence@, old(out)@, r, final(out)@),
            writes_within(old(out)@, r, final(out)@),
    ;

    /// Whether the host may answer `mptoken_id`, handed the output buffer `before`, with the result
    /// code `code`, leaving `written` in the buffer.
    ///
    /// The host promises an error or a write that fills the buffer.
    open spec fn mptoken_id_answers(
        &self,
        mptid: Seq<u8>,
        holder: Seq<u8>,
        before: Seq<u8>,
        code: i32,
        written: Seq<u8>,
    ) -> bool {
        code < 0 || code == before.len()
    }

    /// Writes the ID of an MPToken entry.
    fn mptoken_id(&self, mptid: &[u8], holder: &[u8], out: &mut [u8]) -> (r: i32)
        ensures
            self.mptoken_id_answers(mptid@, holder@, old(out)@, r, final(out)@),
            writes_within(old(out)@, r, final(out)@),
    ;

    /// Whether the host may answer `nft_offer_id`, handed the output buffer `before`, with the
    /// result code `code`, leaving `written` in the buffer.
    ///
    /// The host promises an error or a write that fills the buffer.
    open spec fn nft_offer_id_answers(
        &self,
        account: Seq<u8>,
        sequence: Seq<u8>,
        before: Seq<u8>,
        code: i32,
        written: Seq<u8>,
    ) -> bool {
        code < 0 || code == before.len()
    }

    /// Writes the ID of an NFTokenOffer entry.
    fn nft_offer_id(&self, account: &[u8], sequence: &[u8], out: &mut [u8]) -> (r: i32)
        ensures
            self.nft_offer_id_answers(account@, sequence@, old(out)@, r, final(out)@),
            writes_within(old(out)@, r, final(out)@),
    ;

    /// Whether the host may answer `offer_id`, handed the output buffer `before`, with the result
    /// code `code`, leaving `written` in the buffer.
    ///
    /// The host promises an error or a write that fills the buffer.
    open spec fn offer_id_answers(
        &self,
        account: Seq<u8>,
        sequence: Seq<u8>,
        before: Seq<u8>,
        code: i32,
        written: Seq<u8>,
    ) -> bool {
        code < 0 || code == before.len()
    }

    /// Writes the ID of an Offer entry.
    fn offer_id(&self, account: &[u8], sequence: &[u8], out: &mut [u8]) -> (r: i32)
        ensures
            self.offer_id_answers(account@, sequence@, old(out)@, r, final(out)@),
            writes_within(old(out)@, r, final(out)@),
    ;

    /// Whether the host may answer `oracle_id`, handed the output buffer `before`, with the result
    /// code `code`, leaving `written` in the buffer.
    ///
    /// The host promises an error or a write that fills the buffer.
    open spec fn oracle_id_answers(
        &self,
        account: Seq<u8>,
        document_id: Seq<u8>,
        before: Seq<u8>,
        code: i32,
        written: Seq<u8>,
    ) -> bool {
        code < 0 || code == before.len()
    }

    /// Writes the ID of an Oracle entry.
    fn oracle_id(&self, account: &[u8], document_id: &[u8], out: &mut [u8]) -> (r: i32)
        ensures
            self.oracle_id_answers(account@, document_id@, old(out)@, r, final(out)@),
            writes_within(old(out)@, r, final(out)@),
    ;

    /// Whether the host may answer `paychan_id`, handed the output buffer `before`, with the result
    /// code `code`, leaving `written` in the buffer.
    ///
    /// The host promises an error or a write that fills the buffer.
    open spec fn paychan_id_answers(
        &self,
        account: Seq<u8>,
        destination: Seq<u8>,
        sequence: Seq<u8>,
        before: Seq<u8>,
        code: i32,
        written: Seq<u8>,
    ) -> bool {
        code < 0 || code == before.len()
    }

    /// Writes the ID of a PayChannel entry.
    fn paychan_id(
        &self,
        account: &[u8],
        destination: &[u8],
        sequence: &[u8],
        out: &mut [u8],
    ) -> (r: i32)
        ensures
            self.paychan_id_answers(account@, destination@, sequence@, old(out)@, r, final(out)@),
            writes_within(old(out)@, r, final(out)@),
    ;

    /// Whether the host may answer `permissioned_domain_id`, handed the output buffer `before`,
    /// with the result code `code`, leaving `written` in the buffer.
    ///
    /// The host promises an error or a write that fills the buffer.
    open spec fn permissioned_domain_id_answers(
        &self,
        account: Seq<u8>,
        sequence: Seq<u8>,
        before: Seq<u8>,
        code: i32,
        written: Seq<u8>,
    ) -> bool {
        code < 0 || code == before.len()
    }

    /// Writes the ID of a PermissionedDomain entry.
    fn permissioned_domain_id(&self, account: &[u8], sequence: &[u8], out: &mut [u8]) -> (r: i32)
        ensures
            self.permissioned_domain_id_answers(account@, sequence@, old(out)@, r, final(out)@),
            writes_within(old(out)@, r, final(out)@),
    ;

    /// Whether the host may answer `signers_id`, handed the output buffer `before`, with the result
    /// code `code`, leaving `written` in the buffer.
    ///
    /// The host promises an error or a write that fills the buffer.
    open spec fn signers_id_answers(
        &self,
        account: Seq<u8>,
        before: Seq<u8>,
        code: i32,
        written: Seq<u8>,
    ) -> bool {
        code < 0 || code == before.len()
    }

    /// Writes the ID of an account's SignerList entry.
    fn signers_id(&self, account: &[u8], out: &mut [u8]) -> (r: i32)
        ensures
            self.signers_id_answers(account@, old(out)@, r, final(out)@),
            writes_within(old(out)@, r, final(out)@),
    ;

    /// Whether the host may answer `ticket_id`, handed the output buffer `before`, with the result
    /// code `code`, leaving `written` in the buffer.
    ///
    /// The host promises an error or a write that fills the buffer.
    open spec fn ticket_id_answers(
        &self,
        account: Seq<u8>,
        sequence: Seq<u8>,
        before: Seq<u8>,
        code: i32,
        written: Seq<u8>,
    ) -> bool {
        code < 0 || code == before.len()
    }

    /// Writes the ID of a Ticket entry.
    fn ticket_id(&self, account: &[u8], sequence: &[u8], out: &mut [u8]) -> (r: i32)
        ensures
            self.ticket_id_answers(account@, sequence@, old(out)@, r, final(out)@),
            writes_within(old(out)@, r, final(out)@),
    ;

    /// Whether the host may answer `vault_id`, handed the output buffer `before`, with the result
    /// code `code`, leaving `written` in the buffer.
    ///
    /// The host promises an error or a write that fills the buffer.
    open spec fn vault_id_answers(
        &self,
        account: Seq<u8>,
        sequence: Seq<u8>,
        before: Seq<u8>,
        code: i32,
        written: Seq<u8>,
    ) -> bool {
        code < 0 || code == before.len()
    }

    /// Writes the ID of a Vault entry.
    fn vault_id(&self, account: &[u8], sequence: &[u8], out: &mut [u8]) -> (r: i32)
        ensures
            self.vault_id_answers(account@, sequence@, old(out)@, r, final(out)@),
            writes_within(old(out)@, r, final(out)@),
    ;

    /// Whether the host may have received a trace call of `msg` and `data` with the data type
    /// code `data_type`.
    closed spec fn traced(&self, msg: Seq<char>, data_type: i32, data: Seq<u8>) -> bool {
        true
    }

    /// Writes `msg` and `data` to the trace log; `data_type` says how the host renders `data`.
    fn trace(&self, msg: &str, data_type: i32, data: &[u8])
        ensures
            self.traced(msg@, data_type, data@),
    ;
}

/// A stub host: every read succeeds and fills its buffer (an amount field reports an 8-byte
/// XRP write), every ID and digest is 32 bytes, no signature is valid, an array in the current
/// transaction is empty.
#[derive(Debug, Clone, Copy, PartialEq, Eq, Structural)]
pub struct DefaultHost;

impl HostBindings for DefaultHost {
    open spec fn ldgr_index_answers(&self, before: Seq<u8>, code: i32, written: Seq<u8>) -> bool {
        code == before.len() as i32 && written == before
    }

    fn ldgr_index(&self, out: &mut [u8]) -> (r: i32) {
        out.len() as i32
    }

    open spec fn parent_ldgr_time_answers(
        &self,
        before: Seq<u8>,
        code: i32,
        written: Seq<u8>,
    ) -> bool {
        code == before.len() as i32 && written == before
    }

    fn parent_ldgr_time(&self, out: &mut [u8]) -> (r: i32) {
        out.len() as i32
    }

    open spec fn parent_ldgr_hash_answers(
        &self,
        before: Seq<u8>,
        code: i32,
        written: Seq<u8>,
    ) -> bool {
        code == before.len() as i32 && written == before
    }

    fn parent_ldgr_hash(&self, out: &mut [u8]) -> (r: i32) {
        out.len() as i32
    }

    open spec fn base_fee_answers(&self, before: Seq<u8>, code: i32, written: Seq<u8>) -> bool {
        code == before.len() as i32 && written == before
    }

    fn base_fee(&self, out: &mut [u8]) -> (r: i32) {
        out.len() as i32
    }

    open spec fn amendment_enabled_answers(&self, amendment: Seq<u8>, code: i32) -> bool {
        code == amendment.len() as i32
    }

    fn amendment_enabled(&self, amendment: &[u8]) -> (r: i32) {
        amendment.len() as i32
    }

    open spec fn cache_le_answers(&self, id: Seq<u8>, cache_num: i32, code: i32) -> bool {
        code == id.len() as i32
    }

    fn cache_le(&self, id: &[u8], cache_num: i32) -> (r: i32) {
        id.len() as i32
    }

    open spec fn tx_field_answers(
        &self,
        field: i32,
        before: Seq<u8>,
        code: i32,
        written: Seq<u8>,
    ) -> bool {
        code == stub_field_code(field, before.len()) && written == before
    }

    fn tx_field(&self, field: i32, out: &mut [u8]) -> (r: i32) {
        stub_field_answer(field, out.len())
    }

    open spec fn home_le_field_answers(
        &self,
        field: i32,
        before: Seq<u8>,
        code: i32,
        written: Seq<u8>,
    ) -> bool {
        code == stub_field_code(field, before.len()) && written == before
    }

    fn home_le_field(&self, field: i32, out: &mut [u8]) -> (r: i32) {
        stub_field_answer(field, out.len())
    }

    open spec fn le_field_answers(
        &self,
        cache_num: i32,
        field: i32,
        before: Seq<u8>,
        code: i32,
        written: Seq<u8>,
    ) -> bool {
        code == stub_field_code(field, before.len()) && written == before
    }

    fn le_field(&self, cache_num: i32, field: i32, out: &mut [u8]) -> (r: i32) {
        stub_field_answer(field, out.len())
    }

    open spec fn tx_inner_answers(
        &self,
        locator: Seq<u8>,
        before: Seq<u8>,
        code: i32,
        written: Seq<u8>,
    ) -> bool {
        code == before.len() as i32 && written == before
    }

    fn tx_inner(&self, locator: &[u8], out: &mut [u8]) -> (r: i32) {
        out.len() as i32
    }

    open spec fn home_le_inner_answers(
        &self,
        locator: Seq<u8>,
        before: Seq<u8>,
        code: i32,
        written: Seq<u8>,
    ) -> bool {
        code == before.len() as i32 && written == before
    }

    fn home_le_inner(&self, locator: &[u8], out: &mut [u8]) -> (r: i32) {
        out.len() as i32
    }

    open spec fn le_inner_answers(
        &self,
        cache_num: i32,
        locator: Seq<u8>,
        before: Seq<u8>,
        code: i32,
        written: Seq<u8>,
    ) -> bool {
        code == before.len() as i32 && written == before
    }

    fn le_inner(&self, cache_num: i32, locator: &[u8], out: &mut [u8]) -> (r: i32) {
        out.len() as i32
    }

    open spec fn tx_inner_arr_len_answers(&self, locator: Seq<u8>, code: i32) -> bool {
        code == 0
    }

    fn tx_inner_arr_len(&self, locator: &[u8]) -> (r: i32) {
        0
    }

    open spec fn home_le_inner_arr_len_answers(&self, locator: Seq<u8>, code: i32) -> bool {
        code == locator.len() as i32
    }

    fn home_le_inner_arr_len(&self, locator: &[u8]) -> (r: i32) {
        locator.len() as i32
    }

    open spec fn le_inner_arr_len_answers(
        &self,
        cache_num: i32,
        locator: Seq<u8>,
        code: i32,
    ) -> bool {
        code == locator.len() as i32
    }

    fn le_inner_arr_len(&self, cache_num: i32, locator: &[u8]) -> (r: i32) {
        locator.len() as i32
    }

    open spec fn sha512_half_answers(
        &self,
        data: Seq<u8>,
        before: Seq<u8>,
        code: i32,
        written: Seq<u8>,
    ) -> bool {
        code == before.len() as i32 && written == before
    }

    fn sha512_half(&self, data: &[u8], out: &mut [u8]) -> (r: i32) {
        out.len() as i32
    }

    open spec fn check_sig_answers(
        &self,
        message: Seq<u8>,
        signature: Seq<u8>,
        pubkey: Seq<u8>,
        code: i32,
    ) -> bool {
        code == 0
    }

    fn check_sig(&self, message: &[u8], signature: &[u8], pubkey: &[u8]) -> (r: i32) {
        0
    }

    open spec fn accountroot_id_answers(
        &self,
        account: Seq<u8>,
        before: Seq<u8>,
        code: i32,
        written: Seq<u8>,
    ) -> bool {
        code == before.len() as i32 && written == before
    }

    fn accountroot_id(&self, account: &[u8], out: &mut [u8]) -> (r: i32) {
        out.len() as i32
    }

    open spec fn amm_id_answers(
        &self,
        issue1: Seq<u8>,
        issue2: Seq<u8>,
        before: Seq<u8>,
        code: i32,
        written: Seq<u8>,
    ) -> bool {
        code == before.len() as i32 && written == before
    }

    fn amm_id(&self, issue1: &[u8], issue2: &[u8], out: &mut [u8]) -> (r: i32) {
        out.len() as i32
    }

    open spec fn check_id_answers(
        &self,
        account: Seq<u8>,
        sequence: Seq<u8>,
        before: Seq<u8>,
        code: i32,
        written: Seq<u8>,
    ) -> bool {
        code == before.len() as i32 && written == before
    }

    fn check_id(&self, account: &[u8], sequence: &[u8], out: &mut [u8]) -> (r: i32) {
        out.len() as i32
    }

    open spec fn credential_id_answers(
        &self,
        subject: Seq<u8>,
        issuer: Seq<u8>,
        cred_type: Seq<u8>,
        before: Seq<u8>,
        code: i32,
        written: Seq<u8>,
    ) -> bool {
        code == before.len() as i32 && written == before
    }

    fn credential_id(
        &self,
        subject: &[u8],
        issuer: &[u8],
        cred_type: &[u8],
        out: &mut [u8],
    ) -> (r: i32) {
        out.len() as i32
    }

    open spec fn delegate_id_answers(
        &self,
        account: Seq<u8>,
        authorize: Seq<u8>,
        before: Seq<u8>,
        code: i32,
        written: Seq<u8>,
    ) -> bool {
        code == before.len() as i32 && written == before
    }

    fn delegate_id(&self, account: &[u8], authorize: &[u8], out: &mut [u8]) -> (r: i32) {
        out.len() as i32
    }

    open spec fn deposit_preauth_id_answers(
        &self,
        account: Seq<u8>,
        authorize: Seq<u8>,
        before: Seq<u8>,
        code: i32,
        written: Seq<u8>,
    ) -> bool {
        code == before.len() as i32 && written == before
    }

    fn deposit_preauth_id(&self, account: &[u8], authorize: &[u8], out: &mut [u8]) -> (r: i32) {
        out.len() as i32
    }

    open spec fn did_id_answers(
        &self,
        account: Seq<u8>,
        before: Seq<u8>,
        code: i32,
        written: Seq<u8>,
    ) -> bool {
        code == before.len() as i32 && written == before
    }

    fn did_id(&self, account: &[u8], out: &mut [u8]) -> (r: i32) {
        out.len() as i32
    }

    open spec fn escrow_id_answers(
        &self,
        account: Seq<u8>,
        sequence: Seq<u8>,
        before: Seq<u8>,
        code: i32,
        written: Seq<u8>,
    ) -> bool {
        code == before.len() as i32 && written == before
    }

    fn escrow_id(&self, account: &[u8], sequence: &[u8], out: &mut [u8]) -> (r: i32) {
        out.len() as i32
    }

    open spec fn trustline_id_answers(
        &self,
        account1: Seq<u8>,
        account2: Seq<u8>,
        currency: Seq<u8>,
        before: Seq<u8>,
        code: i32,
        written: Seq<u8>,
    ) -> bool {
        code == before.len() as i32 && written == before
    }

    fn trustline_id(
        &self,
        account1: &[u8],
        account2: &[u8],
        currency: &[u8],
        out: &mut [u8],
    ) -> (r: i32) {
        out.len() as i32
    }

    open spec fn mpt_issuance_id_answers(
        &self,
        issuer: Seq<u8>,
        sequence: Seq<u8>,
        before: Seq<u8>,
        code: i32,
        written: Seq<u8>,
    ) -> bool {
        code == before.len() as i32 && written == before
    }

    fn mpt_issuance_id(&self, issuer: &[u8], sequence: &[u8], out: &mut [u8]) -> (r: i32) {
        out.len() as i32
    }

    open spec fn mptoken_id_answers(
        &self,
        mptid: Seq<u8>,
        holder: Seq<u8>,
        before: Seq<u8>,
        code: i32,
        written: Seq<u8>,
    ) -> bool {
        code == before.len() as i32 && written == before
    }

    fn mptoken_id(&self, mptid: &[u8], holder: &[u8], out: &mut [u8]) -> (r: i32) {
        out.len() as i32
    }

    open spec fn nft_offer_id_answers(
        &self,
        account: Seq<u8>,
        sequence: Seq<u8>,
        before: Seq<u8>,
        code: i32,
        written: Seq<u8>,
    ) -> bool {
        code == before.len() as i32 && written == before
    }

    fn nft_offer_id(&self, account: &[u8], sequence: &[u8], out: &mut [u8]) -> (r: i32) {
        out.len() as i32
    }

    open spec fn offer_id_answers(
        &self,
        account: Seq<u8>,
        sequence: Seq<u8>,
        before: Seq<u8>,
        code: i32,
        written: Seq<u8>,
    ) -> bool {
        code == before.len() as i32 && written == before
    }

    fn offer_id(&self, account: &[u8], sequence: &[u8], out: &mut [u8]) -> (r: i32) {
        out.len() as i32
    }

    open spec fn oracle_id_answers(
        &self,
        account: Seq<u8>,
        document_id: Seq<u8>,
        before: Seq<u8>,
        code: i32,
        written: Seq<u8>,
    ) -> bool {
        code == before.len() as i32 && written == before
    }

    fn oracle_id(&self, account: &[u8], document_id: &[u8], out: &mut [u8]) -> (r: i32) {
        out.len() as i32
    }

    open spec fn paychan_id_answers(
        &self,
        account: Seq<u8>,
        destination: Seq<u8>,
        sequence: Seq<u8>,
        before: Seq<u8>,
        code: i32,
        written: Seq<u8>,
    ) -> bool {
        code == before.len() as i32 && written == before
    }

    fn paychan_id(
        &self,
        account: &[u8],
        destination: &[u8],
        sequence: &[u8],
        out: &mut [u8],
    ) -> (r: i32) {
        out.len() as i32
    }

    open spec fn permissioned_domain_id_answers(
        &self,
        account: Seq<u8>,
        sequence: Seq<u8>,
        before: Seq<u8>,
        code: i32,
        written: Seq<u8>,
    ) -> bool {
        code == before.len() as i32 && written == before
    }

    fn permissioned_domain_id(&self, account: &[u8], sequence: &[u8], out: &mut [u8]) -> (r: i32) {
        out.len() as i32
    }

    open spec fn signers_id_answers(
        &self,
        account: Seq<u8>,
        before: Seq<u8>,
        code: i32,
        written: Seq<u8>,
    ) -> bool {
        code == before.len() as i32 && written == before
    }

    fn signers_id(&self, account: &[u8], out: &mut [u8]) -> (r: i32) {
        out.len() as i32
    }

    open spec fn ticket_id_answers(
        &self,
        account: Seq<u8>,
        sequence: Seq<u8>,
        before: Seq<u8>,
        code: i32,
        written: Seq<u8>,
    ) -> bool {
        code == before.len() as i32 && written == before
    }

    fn ticket_id(&self, account: &[u8], sequence: &[u8], out: &mut [u8]) -> (r: i32) {
        out.len() as i32
    }

    open spec fn vault_id_answers(
        &self,
        account: Seq<u8>,
        sequence: Seq<u8>,
        before: Seq<u8>,
        code: i32,
        written: Seq<u8>,
    ) -> bool {
        code == before.len() as i32 && written == before
    }

    fn vault_id(&self, account: &[u8], sequence: &[u8], out: &mut [u8]) -> (r: i32) {
        out.len() as i32
    }

    fn trace(&self, msg: &str, data_type: i32, data: &[u8]) {
    }
}

/// The stub host answers as a default scripted host: the ledger index, parent close time and base
/// fee fill their buffer and leave it as handed over, a cache request answers the length of the
/// ID, no signature is valid, and an array of the current transaction is empty.
pub proof fn lemma_default_host_answers(
    host: DefaultHost,
    before: Seq<u8>,
    id: Seq<u8>,
    slot: i32,
    message: Seq<u8>,
    signature: Seq<u8>,
    pubkey: Seq<u8>,
    locator: Seq<u8>,
    code: i32,
    written: Seq<u8>,
)
    ensures
        host.ldgr_index_answers(before, code, written) <==> (code == before.len() as i32 && written
            == before),
        host.parent_ldgr_time_answers(before, code, written) <==> (code == before.len() as i32
            && written == before),
        host.base_fee_answers(before, code, written) <==> (code == before.len() as i32 && written
            == before),
        host.cache_le_answers(id, slot, code) <==> code == id.len() as i32,
        host.check_sig_answers(message, signature, pubkey, code) <==> code == 0,
        host.tx_inner_arr_len_answers(locator, code) <==> code == 0,
{
}

/// A host with the stub's answer to every call.
pub fn create_default_mock() -> (r: DefaultHost)
    ensures
        r == DefaultHost,
{
    DefaultHost
}

} // verus!
