//! The `AMM` ledger object: typed accessors for its fields.

use vstd::prelude::*;
use crate::host::calls::Host;
use crate::fields::{current_ledger_obj, ledger_obj};
use crate::host::{Error, HostBindings};
use crate::objects::traits::{CurrentLedgerObjectCommonFields, LedgerObjectCommonFields};
use crate::sfield;
use crate::sfield::SField;
use crate::types::account_id::AccountID;
use crate::types::amount::Amount;
use crate::types::issue::Issue;
use crate::types::uint::Hash256;

verus! {

/// Trait providing access to fields specific to AMM objects in any ledger.
pub trait AMMFields: LedgerObjectCommonFields {
    /// The address of the special account that holds this AMM's assets.
    fn account<H: HostBindings>(&self, host: &mut Host<H>) -> (r: Result<AccountID, Error>)
        ensures
            ledger_obj::slot_read::<H, AccountID, 20>(
                *old(host),
                *final(host),
                self.spec_slot_num(),
                sfield::Account::spec_code(),
                r,
            ),
    {
        ledger_obj::get_field(host, self.get_slot_num(), sfield::Account)
    }

    /// The percentage fee to be charged for trades against this AMM instance, in units of
    /// 1/100,000. The maximum value is 1000, for a 1% fee.
    fn trading_fee<H: HostBindings>(&self, host: &mut Host<H>) -> (r: Result<Option<u16>, Error>)
        ensures
            ledger_obj::slot_read_optional::<H, u16, 2>(
                *old(host),
                *final(host),
                self.spec_slot_num(),
                sfield::TradingFee::spec_code(),
                r,
            ),
    {
        ledger_obj::get_field_optional(host, self.get_slot_num(), sfield::TradingFee)
    }

    /// The total outstanding balance of liquidity provider tokens from this AMM instance. The
    /// holders of these tokens can vote on the AMM's trading fee in proportion to their holdings,
    /// or redeem the tokens for a share of the AMM's assets which grows with the trading fees
    /// collected.
    fn lp_token_balance<H: HostBindings>(&self, host: &mut Host<H>) -> (r: Result<Amount, Error>)
        ensures
            ledger_obj::slot_read::<H, Amount, 48>(
                *old(host),
                *final(host),
                self.spec_slot_num(),
                sfield::LPTokenBalance::spec_code(),
                r,
            ),
    {
        ledger_obj::get_field(host, self.get_slot_num(), sfield::LPTokenBalance)
    }

    /// The definition for one of the two assets this AMM holds. In JSON, this is an object with
    /// `currency` and `issuer` fields.
    fn asset<H: HostBindings>(&self, host: &mut Host<H>) -> (r: Result<Issue, Error>)
        ensures
            ledger_obj::slot_read::<H, Issue, 40>(
                *old(host),
                *final(host),
                self.spec_slot_num(),
                sfield::Asset::spec_code(),
                r,
            ),
    {
        ledger_obj::get_field(host, self.get_slot_num(), sfield::Asset)
    }

    /// The definition for the other asset this AMM holds. In JSON, this is an object with
    /// `currency` and `issuer` fields.
    fn asset2<H: HostBindings>(&self, host: &mut Host<H>) -> (r: Result<Issue, Error>)
        ensures
            ledger_obj::slot_read::<H, Issue, 40>(
                *old(host),
                *final(host),
                self.spec_slot_num(),
                sfield::Asset2::spec_code(),
                r,
            ),
    {
        ledger_obj::get_field(host, self.get_slot_num(), sfield::Asset2)
    }

    /// The OwnerNode field (Required).
    fn owner_node<H: HostBindings>(&self, host: &mut Host<H>) -> (r: Result<u64, Error>)
        ensures
            ledger_obj::slot_read::<H, u64, 8>(
                *old(host),
                *final(host),
                self.spec_slot_num(),
                sfield::OwnerNode::spec_code(),
                r,
            ),
    {
        ledger_obj::get_field(host, self.get_slot_num(), sfield::OwnerNode)
    }

    /// The identifying hash of the transaction that most recently modified this entry.
    fn previous_txn_id<H: HostBindings>(&self, host: &mut Host<H>) -> (r: Result<Option<Hash256>, Error>)
        ensures
            ledger_obj::slot_read_optional::<H, Hash256, 32>(
                *old(host),
                *final(host),
                self.spec_slot_num(),
                sfield::PreviousTxnID::spec_code(),
                r,
            ),
    {
        ledger_obj::get_field_optional(host, self.get_slot_num(), sfield::PreviousTxnID)
    }

    /// The index of the ledger that contains the transaction that most recently modified this
    /// entry.
    fn previous_txn_lgr_seq<H: HostBindings>(&self, host: &mut Host<H>) -> (r: Result<Option<u32>, Error>)
        ensures
            ledger_obj::slot_read_optional::<H, u32, 4>(
                *old(host),
                *final(host),
                self.spec_slot_num(),
                sfield::PreviousTxnLgrSeq::spec_code(),
                r,
            ),
    {
        ledger_obj::get_field_optional(host, self.get_slot_num(), sfield::PreviousTxnLgrSeq)
    }
}

/// Trait providing access to fields specific to the current AMM object.
pub trait CurrentAMMFields: CurrentLedgerObjectCommonFields {
    /// The address of the special account that holds this AMM's assets.
    fn account<H: HostBindings>(&self, host: &mut Host<H>) -> (r: Result<AccountID, Error>)
        ensures
            current_ledger_obj::home_read::<H, AccountID, 20>(
                *old(host),
                *final(host),
                sfield::Account::spec_code(),
                r,
            ),
    {
        current_ledger_obj::get_field(host, sfield::Account)
    }

    /// The percentage fee to be charged for trades against this AMM instance, in units of
    /// 1/100,000. The maximum value is 1000, for a 1% fee.
    fn trading_fee<H: HostBindings>(&self, host: &mut Host<H>) -> (r: Result<Option<u16>, Error>)
        ensures
            current_ledger_obj::home_read_optional::<H, u16, 2>(
                *old(host),
                *final(host),
                sfield::TradingFee::spec_code(),
                r,
            ),
    {
        current_ledger_obj::get_field_optional(host, sfield::TradingFee)
    }

    /// The total outstanding balance of liquidity provider tokens from this AMM instance. The
    /// holders of these tokens can vote on the AMM's trading fee in proportion to their holdings,
    /// or redeem the tokens for a share of the AMM's assets which grows with the trading fees
    /// collected.
    fn lp_token_balance<H: HostBindings>(&self, host: &mut Host<H>) -> (r: Result<Amount, Error>)
        ensures
            current_ledger_obj::home_read::<H, Amount, 48>(
                *old(host),
                *final(host),
                sfield::LPTokenBalance::spec_code(),
                r,
            ),
    {
        current_ledger_obj::get_field(host, sfield::LPTokenBalance)
    }

    /// The definition for one of the two assets this AMM holds. In JSON, this is an object with
    /// `currency` and `issuer` fields.
    fn asset<H: HostBindings>(&self, host: &mut Host<H>) -> (r: Result<Issue, Error>)
        ensures
            current_ledger_obj::home_read::<H, Issue, 40>(*old(host), *final(host), sfield::Asset::spec_code(), r),
    {
        current_ledger_obj::get_field(host, sfield::Asset)
    }

    /// The definition for the other asset this AMM holds. In JSON, this is an object with
    /// `currency` and `issuer` fields.
    fn asset2<H: HostBindings>(&self, host: &mut Host<H>) -> (r: Result<Issue, Error>)
        ensures
            current_ledger_obj::home_read::<H, Issue, 40>(*old(host), *final(host), sfield::Asset2::spec_code(), r),
    {
        current_ledger_obj::get_field(host, sfield::Asset2)
    }

    /// The OwnerNode field (Required).
    fn owner_node<H: HostBindings>(&self, host: &mut Host<H>) -> (r: Result<u64, Error>)
        ensures
            current_ledger_obj::home_read::<H, u64, 8>(*old(host), *final(host), sfield::OwnerNode::spec_code(), r),
    {
        current_ledger_obj::get_field(host, sfield::OwnerNode)
    }

    /// The identifying hash of the transaction that most recently modified this entry.
    fn previous_txn_id<H: HostBindings>(&self, host: &mut Host<H>) -> (r: Result<Option<Hash256>, Error>)
        ensures
            current_ledger_obj::home_read_optional::<H, Hash256, 32>(
                *old(host),
                *final(host),
                sfield::PreviousTxnID::spec_code(),
                r,
            ),
    {
        current_ledger_obj::get_field_optional(host, sfield::PreviousTxnID)
    }

    /// The index of the ledger that contains the transaction that most recently modified this
    /// entry.
    fn previous_txn_lgr_seq<H: HostBindings>(&self, host: &mut Host<H>) -> (r: Result<Option<u32>, Error>)
        ensures
            current_ledger_obj::home_read_optional::<H, u32, 4>(
                *old(host),
                *final(host),
                sfield::PreviousTxnLgrSeq::spec_code(),
                r,
            ),
    {
        current_ledger_obj::get_field_optional(host, sfield::PreviousTxnLgrSeq)
    }
}

/// A handle to an AMM object cached in a host slot.
#[derive(Debug, Clone, Copy, PartialEq, Eq, Structural)]
pub struct AMM {
    pub slot_num: i32,
}

impl AMM {
    /// Wraps the slot an AMM object is cached in.
    pub fn new(slot_num: i32) -> (r: AMM)
        ensures
            r.slot_num == slot_num,
    {
        AMM { slot_num }
    }
}

impl LedgerObjectCommonFields for AMM {
    open spec fn spec_slot_num(&self) -> i32 {
        self.slot_num
    }

    fn get_slot_num(&self) -> (r: i32) {
        assert(self.spec_slot_num() == self.slot_num);
        self.slot_num
    }
}

impl AMMFields for AMM {

}

} // verus!
