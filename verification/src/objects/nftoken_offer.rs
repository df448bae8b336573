//! The `NFTokenOffer` ledger object: typed accessors for its fields.

use vstd::prelude::*;
use crate::host::calls::{Host, HostCall, made_calls};
use crate::fields::{current_ledger_obj, ledger_obj};
use crate::host::{Error, HostBindings};
use crate::objects::traits::{CurrentLedgerObjectCommonFields, LedgerObjectCommonFields};
use crate::bytes::{u32_le, zero_bytes};
use crate::host::error_codes::is_expected_bytes_answer;
use crate::ledger_entry_ids::{nft_offer_id, spec_id_result};
use crate::objects::cache::{load_calls, load_entry, loaded};
use crate::sfield;
use crate::sfield::SField;
use crate::types::account_id::AccountID;
use crate::types::amount::Amount;
use crate::types::uint::Hash256;

verus! {

/// Trait providing access to fields specific to NFTokenOffer objects in any ledger.
pub trait NFTokenOfferFields: LedgerObjectCommonFields {
    /// The Owner field (Required).
    fn get_owner<H: HostBindings>(&self, host: &mut Host<H>) -> (r: Result<AccountID, Error>)
        ensures
            ledger_obj::slot_read::<H, AccountID, 20>(
                *old(host),
                *final(host),
                self.spec_slot_num(),
                sfield::Owner::spec_code(),
                r,
            ),
    {
        ledger_obj::get_field(host, self.get_slot_num(), sfield::Owner)
    }

    /// The NFTokenID field (Required).
    fn get_nftoken_id<H: HostBindings>(&self, host: &mut Host<H>) -> (r: Result<Hash256, Error>)
        ensures
            ledger_obj::slot_read::<H, Hash256, 32>(
                *old(host),
                *final(host),
                self.spec_slot_num(),
                sfield::NFTokenID::spec_code(),
                r,
            ),
    {
        ledger_obj::get_field(host, self.get_slot_num(), sfield::NFTokenID)
    }

    /// The Amount field (Required).
    fn get_amount<H: HostBindings>(&self, host: &mut Host<H>) -> (r: Result<Amount, Error>)
        ensures
            ledger_obj::slot_read::<H, Amount, 48>(
                *old(host),
                *final(host),
                self.spec_slot_num(),
                sfield::Amount::spec_code(),
                r,
            ),
    {
        ledger_obj::get_field(host, self.get_slot_num(), sfield::Amount)
    }

    /// The OwnerNode field (Required).
    fn get_owner_node<H: HostBindings>(&self, host: &mut Host<H>) -> (r: Result<u64, Error>)
        ensures
            ledger_obj::slot_read::<H, u64, 8>(
                *old(host),
                *final(host),
                self.spec_slot_num(),
                sfield::OwnerNode::spec_code(),
                r,
            ),
    {
        ledger_obj::get_field(host, self.get_slot_num(), sfield::OwnerNode)
    }

    /// The NFTokenOfferNode field (Required).
    fn get_nftoken_offer_node<H: HostBindings>(&self, host: &mut Host<H>) -> (r: Result<u64, Error>)
        ensures
            ledger_obj::slot_read::<H, u64, 8>(
                *old(host),
                *final(host),
                self.spec_slot_num(),
                sfield::NFTokenOfferNode::spec_code(),
                r,
            ),
    {
        ledger_obj::get_field(host, self.get_slot_num(), sfield::NFTokenOfferNode)
    }

    /// The Destination field (Optional).
    fn get_destination<H: HostBindings>(&self, host: &mut Host<H>) -> (r: Result<Option<AccountID>, Error>)
        ensures
            ledger_obj::slot_read_optional::<H, AccountID, 20>(
                *old(host),
                *final(host),
                self.spec_slot_num(),
                sfield::Destination::spec_code(),
                r,
            ),
    {
        ledger_obj::get_field_optional(host, self.get_slot_num(), sfield::Destination)
    }

    /// The Expiration field (Optional).
    fn get_expiration<H: HostBindings>(&self, host: &mut Host<H>) -> (r: Result<Option<u32>, Error>)
        ensures
            ledger_obj::slot_read_optional::<H, u32, 4>(
                *old(host),
                *final(host),
                self.spec_slot_num(),
                sfield::Expiration::spec_code(),
                r,
            ),
    {
        ledger_obj::get_field_optional(host, self.get_slot_num(), sfield::Expiration)
    }

    /// The PreviousTxnID field (Required).
    fn get_previous_txn_id<H: HostBindings>(&self, host: &mut Host<H>) -> (r: Result<Hash256, Error>)
        ensures
            ledger_obj::slot_read::<H, Hash256, 32>(
                *old(host),
                *final(host),
                self.spec_slot_num(),
                sfield::PreviousTxnID::spec_code(),
                r,
            ),
    {
        ledger_obj::get_field(host, self.get_slot_num(), sfield::PreviousTxnID)
    }

    /// The PreviousTxnLgrSeq field (Required).
    fn get_previous_txn_lgr_seq<H: HostBindings>(&self, host: &mut Host<H>) -> (r: Result<u32, Error>)
        ensures
            ledger_obj::slot_read::<H, u32, 4>(
                *old(host),
                *final(host),
                self.spec_slot_num(),
                sfield::PreviousTxnLgrSeq::spec_code(),
                r,
            ),
    {
        ledger_obj::get_field(host, self.get_slot_num(), sfield::PreviousTxnLgrSeq)
    }
}

/// Trait providing access to fields specific to the current NFTokenOffer object.
pub trait CurrentNFTokenOfferFields: CurrentLedgerObjectCommonFields {
    /// The Owner field (Required).
    fn get_owner<H: HostBindings>(&self, host: &mut Host<H>) -> (r: Result<AccountID, Error>)
        ensures
            current_ledger_obj::home_read::<H, AccountID, 20>(*old(host), *final(host), sfield::Owner::spec_code(), r),
    {
        current_ledger_obj::get_field(host, sfield::Owner)
    }

    /// The NFTokenID field (Required).
    fn get_nftoken_id<H: HostBindings>(&self, host: &mut Host<H>) -> (r: Result<Hash256, Error>)
        ensures
            current_ledger_obj::home_read::<H, Hash256, 32>(
                *old(host),
                *final(host),
                sfield::NFTokenID::spec_code(),
                r,
            ),
    {
        current_ledger_obj::get_field(host, sfield::NFTokenID)
    }

    /// The Amount field (Required).
    fn get_amount<H: HostBindings>(&self, host: &mut Host<H>) -> (r: Result<Amount, Error>)
        ensures
            current_ledger_obj::home_read::<H, Amount, 48>(*old(host), *final(host), sfield::Amount::spec_code(), r),
    {
        current_ledger_obj::get_field(host, sfield::Amount)
    }

    /// The OwnerNode field (Required).
    fn get_owner_node<H: HostBindings>(&self, host: &mut Host<H>) -> (r: Result<u64, Error>)
        ensures
            current_ledger_obj::home_read::<H, u64, 8>(*old(host), *final(host), sfield::OwnerNode::spec_code(), r),
    {
        current_ledger_obj::get_field(host, sfield::OwnerNode)
    }

    /// The NFTokenOfferNode field (Required).
    fn get_nftoken_offer_node<H: HostBindings>(&self, host: &mut Host<H>) -> (r: Result<u64, Error>)
        ensures
            current_ledger_obj::home_read::<H, u64, 8>(
                *old(host),
                *final(host),
                sfield::NFTokenOfferNode::spec_code(),
                r,
            ),
    {
        current_ledger_obj::get_field(host, sfield::NFTokenOfferNode)
    }

    /// The Destination field (Optional).
    fn get_destination<H: HostBindings>(&self, host: &mut Host<H>) -> (r: Result<Option<AccountID>, Error>)
        ensures
            current_ledger_obj::home_read_optional::<H, AccountID, 20>(
                *old(host),
                *final(host),
                sfield::Destination::spec_code(),
                r,
            ),
    {
        current_ledger_obj::get_field_optional(host, sfield::Destination)
    }

    /// The Expiration field (Optional).
    fn get_expiration<H: HostBindings>(&self, host: &mut Host<H>) -> (r: Result<Option<u32>, Error>)
        ensures
            current_ledger_obj::home_read_optional::<H, u32, 4>(
                *old(host),
                *final(host),
                sfield::Expiration::spec_code(),
                r,
            ),
    {
        current_ledger_obj::get_field_optional(host, sfield::Expiration)
    }

    /// The PreviousTxnID field (Required).
    fn get_previous_txn_id<H: HostBindings>(&self, host: &mut Host<H>) -> (r: Result<Hash256, Error>)
        ensures
            current_ledger_obj::home_read::<H, Hash256, 32>(
                *old(host),
                *final(host),
                sfield::PreviousTxnID::spec_code(),
                r,
            ),
    {
        current_ledger_obj::get_field(host, sfield::PreviousTxnID)
    }

    /// The PreviousTxnLgrSeq field (Required).
    fn get_previous_txn_lgr_seq<H: HostBindings>(&self, host: &mut Host<H>) -> (r: Result<u32, Error>)
        ensures
            current_ledger_obj::home_read::<H, u32, 4>(
                *old(host),
                *final(host),
                sfield::PreviousTxnLgrSeq::spec_code(),
                r,
            ),
    {
        current_ledger_obj::get_field(host, sfield::PreviousTxnLgrSeq)
    }
}

/// A handle to an NFTokenOffer object cached in a host slot.
#[derive(Debug, Clone, Copy, PartialEq, Eq, Structural)]
pub struct NFTokenOffer {
    pub slot_num: i32,
}

impl NFTokenOffer {
    /// Wraps the slot an NFTokenOffer object is cached in.
    pub fn new(slot_num: i32) -> (r: NFTokenOffer)
        ensures
            r.slot_num == slot_num,
    {
        NFTokenOffer { slot_num }
    }

    /// Loads the NFTokenOffer of `owner` with sequence `seq` into the next free host slot.
    pub fn load<H: HostBindings>(host: &mut Host<H>, owner: &AccountID, seq: u32) -> (r: Result<NFTokenOffer, Error>)
        requires
            forall|code: i32, w: Seq<u8>|
                #[trigger] old(host).bindings().nft_offer_id_answers(owner.0@, u32_le(seq), zero_bytes(32), code, w)
                    ==> is_expected_bytes_answer(code, 32),
        ensures
            exists|code: i32, id: [u8; 32]|
                #[trigger] old(host).bindings().nft_offer_id_answers(owner.0@, u32_le(seq), zero_bytes(32), code, id@)
                    && made_calls(
                    *old(host),
                    *final(host),
                    seq![HostCall::NftOfferId] + load_calls(spec_id_result(code, id)),
                ) && loaded(
                    old(host).bindings(),
                    spec_id_result(code, id),
                    (match r {
                        Ok(offer) => Ok(offer.slot_num),
                        Err(e) => Err(e),
                    }),
                ),
            r is Ok ==> r->Ok_0.slot_num >= 0,
    {
        let id = nft_offer_id(host, owner, seq);
        let loaded_slot = load_entry(host, id);
        assert(host.calls() =~= old(host).calls() + (seq![HostCall::NftOfferId] + load_calls(id)));
        match loaded_slot {
            Ok(slot) => Ok(NFTokenOffer { slot_num: slot }),
            Err(e) => Err(e),
        }
    }
}

impl LedgerObjectCommonFields for NFTokenOffer {
    open spec fn spec_slot_num(&self) -> i32 {
        self.slot_num
    }

    fn get_slot_num(&self) -> (r: i32) {
        assert(self.spec_slot_num() == self.slot_num);
        self.slot_num
    }
}

impl NFTokenOfferFields for NFTokenOffer {

}

} // verus!
