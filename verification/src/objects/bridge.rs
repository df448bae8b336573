//! The `Bridge` ledger object: typed accessors for its fields.

use vstd::prelude::*;
use crate::host::calls::Host;
use crate::fields::{current_ledger_obj, ledger_obj};
use crate::host::{Error, HostBindings};
use crate::objects::traits::{CurrentLedgerObjectCommonFields, LedgerObjectCommonFields};
use crate::sfield;
use crate::sfield::SField;
use crate::types::account_id::AccountID;
use crate::types::amount::Amount;
use crate::types::uint::Hash256;

verus! {

/// Trait providing access to fields specific to Bridge objects in any ledger.
pub trait BridgeFields: LedgerObjectCommonFields {
    /// The account that submitted the `XChainCreateBridge` transaction on the blockchain.
    fn account<H: HostBindings>(&self, host: &mut Host<H>) -> (r: Result<AccountID, Error>)
        ensures
            ledger_obj::slot_read::<H, AccountID, 20>(
                *old(host),
                *final(host),
                self.spec_slot_num(),
                sfield::Account::spec_code(),
                r,
            ),
    {
        ledger_obj::get_field(host, self.get_slot_num(), sfield::Account)
    }

    /// The total amount, in XRP, to be rewarded for providing a signature for cross-chain transfer or for signing for the cross-chain reward. This amount will be split among the signers.
    fn signature_reward<H: HostBindings>(&self, host: &mut Host<H>) -> (r: Result<Amount, Error>)
        ensures
            ledger_obj::slot_read::<H, Amount, 48>(
                *old(host),
                *final(host),
                self.spec_slot_num(),
                sfield::SignatureReward::spec_code(),
                r,
            ),
    {
        ledger_obj::get_field(host, self.get_slot_num(), sfield::SignatureReward)
    }

    /// The minimum amount, in XRP, required for an `XChainAccountCreateCommit` transaction. If this isn't present, the `XChainAccountCreateCommit` transaction will fail. This field can only be present on XRP-XRP bridges.
    fn min_account_create_amount<H: HostBindings>(&self, host: &mut Host<H>) -> (r: Result<
        Option<Amount>,
        Error,
    >)
        ensures
            ledger_obj::slot_read_optional::<H, Amount, 48>(
                *old(host),
                *final(host),
                self.spec_slot_num(),
                sfield::MinAccountCreateAmount::spec_code(),
                r,
            ),
    {
        ledger_obj::get_field_optional(host, self.get_slot_num(), sfield::MinAccountCreateAmount)
    }

    /// The door accounts and assets of the bridge this object correlates to.
    /// Raw bytes; XCHAIN_BRIDGE is not yet typed in Rust.
    fn xchain_bridge<H: HostBindings>(&self, host: &mut Host<H>) -> (r: Result<[u8; 512], Error>)
        ensures
            ledger_obj::slot_raw_read(
                *old(host),
                *final(host),
                self.spec_slot_num(),
                sfield::XChainBridge::spec_code(),
                r,
            ),
    {
        ledger_obj::get_raw_field(host, self.get_slot_num(), sfield::XChainBridge)
    }

    /// The value of the next `XChainClaimID` to be created.
    fn xchain_claim_id<H: HostBindings>(&self, host: &mut Host<H>) -> (r: Result<u64, Error>)
        ensures
            ledger_obj::slot_read::<H, u64, 8>(
                *old(host),
                *final(host),
                self.spec_slot_num(),
                sfield::XChainClaimID::spec_code(),
                r,
            ),
    {
        ledger_obj::get_field(host, self.get_slot_num(), sfield::XChainClaimID)
    }

    /// A counter used to order the execution of account create transactions. It is incremented every time a successful `XChainAccountCreateCommit` transaction is run for the source chain.
    fn xchain_account_create_count<H: HostBindings>(&self, host: &mut Host<H>) -> (r: Result<u64, Error>)
        ensures
            ledger_obj::slot_read::<H, u64, 8>(
                *old(host),
                *final(host),
                self.spec_slot_num(),
                sfield::XChainAccountCreateCount::spec_code(),
                r,
            ),
    {
        ledger_obj::get_field(host, self.get_slot_num(), sfield::XChainAccountCreateCount)
    }

    /// A counter used to order the execution of account create transactions. It is incremented every time a `XChainAccountCreateCommit` transaction is "claimed" on the destination chain. When the "claim" transaction is run on the destination chain, the `XChainAccountClaimCount` must match the value that the `XChainAccountCreateCount` had at the time the `XChainAccountClaimCount` was run on the source chain. This orders the claims so that they run in the same order that the `XChainAccountCreateCommit` transactions ran on the source chain, to prevent transaction replay.
    fn xchain_account_claim_count<H: HostBindings>(&self, host: &mut Host<H>) -> (r: Result<u64, Error>)
        ensures
            ledger_obj::slot_read::<H, u64, 8>(
                *old(host),
                *final(host),
                self.spec_slot_num(),
                sfield::XChainAccountClaimCount::spec_code(),
                r,
            ),
    {
        ledger_obj::get_field(host, self.get_slot_num(), sfield::XChainAccountClaimCount)
    }

    /// The OwnerNode field (Required).
    fn owner_node<H: HostBindings>(&self, host: &mut Host<H>) -> (r: Result<u64, Error>)
        ensures
            ledger_obj::slot_read::<H, u64, 8>(
                *old(host),
                *final(host),
                self.spec_slot_num(),
                sfield::OwnerNode::spec_code(),
                r,
            ),
    {
        ledger_obj::get_field(host, self.get_slot_num(), sfield::OwnerNode)
    }

    /// The PreviousTxnID field (Required).
    fn previous_txn_id<H: HostBindings>(&self, host: &mut Host<H>) -> (r: Result<Hash256, Error>)
        ensures
            ledger_obj::slot_read::<H, Hash256, 32>(
                *old(host),
                *final(host),
                self.spec_slot_num(),
                sfield::PreviousTxnID::spec_code(),
                r,
            ),
    {
        ledger_obj::get_field(host, self.get_slot_num(), sfield::PreviousTxnID)
    }

    /// The PreviousTxnLgrSeq field (Required).
    fn previous_txn_lgr_seq<H: HostBindings>(&self, host: &mut Host<H>) -> (r: Result<u32, Error>)
        ensures
            ledger_obj::slot_read::<H, u32, 4>(
                *old(host),
                *final(host),
                self.spec_slot_num(),
                sfield::PreviousTxnLgrSeq::spec_code(),
                r,
            ),
    {
        ledger_obj::get_field(host, self.get_slot_num(), sfield::PreviousTxnLgrSeq)
    }
}

/// Trait providing access to fields specific to the current Bridge object.
pub trait CurrentBridgeFields: CurrentLedgerObjectCommonFields {
    /// The account that submitted the `XChainCreateBridge` transaction on the blockchain.
    fn account<H: HostBindings>(&self, host: &mut Host<H>) -> (r: Result<AccountID, Error>)
        ensures
            current_ledger_obj::home_read::<H, AccountID, 20>(
                *old(host),
                *final(host),
                sfield::Account::spec_code(),
                r,
            ),
    {
        current_ledger_obj::get_field(host, sfield::Account)
    }

    /// The total amount, in XRP, to be rewarded for providing a signature for cross-chain transfer or for signing for the cross-chain reward. This amount will be split among the signers.
    fn signature_reward<H: HostBindings>(&self, host: &mut Host<H>) -> (r: Result<Amount, Error>)
        ensures
            current_ledger_obj::home_read::<H, Amount, 48>(
                *old(host),
                *final(host),
                sfield::SignatureReward::spec_code(),
                r,
            ),
    {
        current_ledger_obj::get_field(host, sfield::SignatureReward)
    }

    /// The minimum amount, in XRP, required for an `XChainAccountCreateCommit` transaction. If this isn't present, the `XChainAccountCreateCommit` transaction will fail. This field can only be present on XRP-XRP bridges.
    fn min_account_create_amount<H: HostBindings>(&self, host: &mut Host<H>) -> (r: Result<
        Option<Amount>,
        Error,
    >)
        ensures
            current_ledger_obj::home_read_optional::<H, Amount, 48>(
                *old(host),
                *final(host),
                sfield::MinAccountCreateAmount::spec_code(),
                r,
            ),
    {
        current_ledger_obj::get_field_optional(host, sfield::MinAccountCreateAmount)
    }

    /// The door accounts and assets of the bridge this object correlates to.
    /// Raw bytes; XCHAIN_BRIDGE is not yet typed in Rust.
    fn xchain_bridge<H: HostBindings>(&self, host: &mut Host<H>) -> (r: Result<[u8; 512], Error>)
        ensures
            current_ledger_obj::home_raw_read(*old(host), *final(host), sfield::XChainBridge::spec_code(), r),
    {
        current_ledger_obj::get_raw_field(host, sfield::XChainBridge)
    }

    /// The value of the next `XChainClaimID` to be created.
    fn xchain_claim_id<H: HostBindings>(&self, host: &mut Host<H>) -> (r: Result<u64, Error>)
        ensures
            current_ledger_obj::home_read::<H, u64, 8>(*old(host), *final(host), sfield::XChainClaimID::spec_code(), r),
    {
        current_ledger_obj::get_field(host, sfield::XChainClaimID)
    }

    /// A counter used to order the execution of account create transactions. It is incremented every time a successful `XChainAccountCreateCommit` transaction is run for the source chain.
    fn xchain_account_create_count<H: HostBindings>(&self, host: &mut Host<H>) -> (r: Result<u64, Error>)
        ensures
            current_ledger_obj::home_read::<H, u64, 8>(
                *old(host),
                *final(host),
                sfield::XChainAccountCreateCount::spec_code(),
                r,
            ),
    {
        current_ledger_obj::get_field(host, sfield::XChainAccountCreateCount)
    }

    /// A counter used to order the execution of account create transactions. It is incremented every time a `XChainAccountCreateCommit` transaction is "claimed" on the destination chain. When the "claim" transaction is run on the destination chain, the `XChainAccountClaimCount` must match the value that the `XChainAccountCreateCount` had at the time the `XChainAccountClaimCount` was run on the source chain. This orders the claims so that they run in the same order that the `XChainAccountCreateCommit` transactions ran on the source chain, to prevent transaction replay.
    fn xchain_account_claim_count<H: HostBindings>(&self, host: &mut Host<H>) -> (r: Result<u64, Error>)
        ensures
            current_ledger_obj::home_read::<H, u64, 8>(
                *old(host),
                *final(host),
                sfield::XChainAccountClaimCount::spec_code(),
                r,
            ),
    {
        current_ledger_obj::get_field(host, sfield::XChainAccountClaimCount)
    }

    /// The OwnerNode field (Required).
    fn owner_node<H: HostBindings>(&self, host: &mut Host<H>) -> (r: Result<u64, Error>)
        ensures
            current_ledger_obj::home_read::<H, u64, 8>(*old(host), *final(host), sfield::OwnerNode::spec_code(), r),
    {
        current_ledger_obj::get_field(host, sfield::OwnerNode)
    }

    /// The PreviousTxnID field (Required).
    fn previous_txn_id<H: HostBindings>(&self, host: &mut Host<H>) -> (r: Result<Hash256, Error>)
        ensures
            current_ledger_obj::home_read::<H, Hash256, 32>(
                *old(host),
                *final(host),
                sfield::PreviousTxnID::spec_code(),
                r,
            ),
    {
        current_ledger_obj::get_field(host, sfield::PreviousTxnID)
    }

    /// The PreviousTxnLgrSeq field (Required).
    fn previous_txn_lgr_seq<H: HostBindings>(&self, host: &mut Host<H>) -> (r: Result<u32, Error>)
        ensures
            current_ledger_obj::home_read::<H, u32, 4>(
                *old(host),
                *final(host),
                sfield::PreviousTxnLgrSeq::spec_code(),
                r,
            ),
    {
        current_ledger_obj::get_field(host, sfield::PreviousTxnLgrSeq)
    }
}

/// A handle to a Bridge object cached in a host slot.
#[derive(Debug, Clone, Copy, PartialEq, Eq, Structural)]
pub struct Bridge {
    pub slot_num: i32,
}

impl Bridge {
    /// Wraps the slot a Bridge object is cached in.
    pub fn new(slot_num: i32) -> (r: Bridge)
        ensures
            r.slot_num == slot_num,
    {
        Bridge { slot_num }
    }
}

impl LedgerObjectCommonFields for Bridge {
    open spec fn spec_slot_num(&self) -> i32 {
        self.slot_num
    }

    fn get_slot_num(&self) -> (r: i32) {
        assert(self.spec_slot_num() == self.slot_num);
        self.slot_num
    }
}

impl BridgeFields for Bridge {

}

} // verus!
