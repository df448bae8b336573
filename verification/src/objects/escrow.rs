//! The `Escrow` ledger object: typed accessors for its fields.

use vstd::prelude::*;
use crate::host::calls::Host;
use crate::fields::ledger_obj;
use crate::host::{Error, HostBindings};
use crate::objects::traits::LedgerObjectCommonFields;
use crate::sfield;
use crate::sfield::SField;
use crate::types::account_id::AccountID;
use crate::types::amount::Amount;
use crate::types::blob::{ConditionBlob, StandardBlob, WasmBlob};
use crate::types::uint::Hash256;

verus! {

/// Trait providing access to fields specific to Escrow objects in any ledger.
pub trait EscrowFields: LedgerObjectCommonFields {
    /// The address of the owner (sender) of this escrow. This is the account that provided the
    /// funds, and gets it back if the escrow is canceled.
    fn account<H: HostBindings>(&self, host: &mut Host<H>) -> (r: Result<AccountID, Error>)
        ensures
            ledger_obj::slot_read::<H, AccountID, 20>(
                *old(host),
                *final(host),
                self.spec_slot_num(),
                sfield::Account::spec_code(),
                r,
            ),
    {
        ledger_obj::get_field(host, self.get_slot_num(), sfield::Account)
    }

    /// The Sequence field (Optional).
    fn sequence<H: HostBindings>(&self, host: &mut Host<H>) -> (r: Result<Option<u32>, Error>)
        ensures
            ledger_obj::slot_read_optional::<H, u32, 4>(
                *old(host),
                *final(host),
                self.spec_slot_num(),
                sfield::Sequence::spec_code(),
                r,
            ),
    {
        ledger_obj::get_field_optional(host, self.get_slot_num(), sfield::Sequence)
    }

    /// The destination address where the XRP is paid if the escrow is successful.
    fn destination<H: HostBindings>(&self, host: &mut Host<H>) -> (r: Result<AccountID, Error>)
        ensures
            ledger_obj::slot_read::<H, AccountID, 20>(
                *old(host),
                *final(host),
                self.spec_slot_num(),
                sfield::Destination::spec_code(),
                r,
            ),
    {
        ledger_obj::get_field(host, self.get_slot_num(), sfield::Destination)
    }

    /// The amount to be delivered by the payment in escrow. The amount can be XRP, or with the
    /// TokenEscrow amendment, a fungible token.
    fn amount<H: HostBindings>(&self, host: &mut Host<H>) -> (r: Result<Amount, Error>)
        ensures
            ledger_obj::slot_read::<H, Amount, 48>(
                *old(host),
                *final(host),
                self.spec_slot_num(),
                sfield::Amount::spec_code(),
                r,
            ),
    {
        ledger_obj::get_field(host, self.get_slot_num(), sfield::Amount)
    }

    /// A PREIMAGE-SHA-256 crypto-condition, as hexadecimal. If present, the EscrowFinish
    /// transaction must contain a fulfillment that satisfies this condition.
    fn condition<H: HostBindings>(&self, host: &mut Host<H>) -> (r: Result<Option<ConditionBlob>, Error>)
        ensures
            ledger_obj::slot_read_optional::<H, ConditionBlob, 128>(
                *old(host),
                *final(host),
                self.spec_slot_num(),
                sfield::Condition::spec_code(),
                r,
            ),
    {
        ledger_obj::get_field_optional(host, self.get_slot_num(), sfield::Condition)
    }

    /// The escrow can be canceled if and only if this field is present _and_ the time it specifies
    /// has passed. Specifically, this is specified as seconds since the Ripple Epoch and it "has
    /// passed" if it's earlier than the close time of the previous validated ledger.
    fn cancel_after<H: HostBindings>(&self, host: &mut Host<H>) -> (r: Result<Option<u32>, Error>)
        ensures
            ledger_obj::slot_read_optional::<H, u32, 4>(
                *old(host),
                *final(host),
                self.spec_slot_num(),
                sfield::CancelAfter::spec_code(),
                r,
            ),
    {
        ledger_obj::get_field_optional(host, self.get_slot_num(), sfield::CancelAfter)
    }

    /// The time, in seconds since the Ripple Epoch, after which this escrow can be finished. Any
    /// EscrowFinish transaction before this time fails. (Specifically, this is compared with the
    /// close time of the previous validated ledger.)
    fn finish_after<H: HostBindings>(&self, host: &mut Host<H>) -> (r: Result<Option<u32>, Error>)
        ensures
            ledger_obj::slot_read_optional::<H, u32, 4>(
                *old(host),
                *final(host),
                self.spec_slot_num(),
                sfield::FinishAfter::spec_code(),
                r,
            ),
    {
        ledger_obj::get_field_optional(host, self.get_slot_num(), sfield::FinishAfter)
    }

    /// The Bytecode field (Optional).
    fn bytecode<H: HostBindings>(&self, host: &mut Host<H>) -> (r: Result<Option<WasmBlob>, Error>)
        ensures
            ledger_obj::slot_read_optional::<H, WasmBlob, 4096>(
                *old(host),
                *final(host),
                self.spec_slot_num(),
                sfield::Bytecode::spec_code(),
                r,
            ),
    {
        ledger_obj::get_field_optional(host, self.get_slot_num(), sfield::Bytecode)
    }

    /// The Data field (Optional).
    fn data<H: HostBindings>(&self, host: &mut Host<H>) -> (r: Result<Option<StandardBlob>, Error>)
        ensures
            ledger_obj::slot_read_optional::<H, StandardBlob, 1024>(
                *old(host),
                *final(host),
                self.spec_slot_num(),
                sfield::Data::spec_code(),
                r,
            ),
    {
        ledger_obj::get_field_optional(host, self.get_slot_num(), sfield::Data)
    }

    /// An arbitrary tag to further specify the source for this escrow, such as a hosted recipient
    /// at the owner's address.
    fn source_tag<H: HostBindings>(&self, host: &mut Host<H>) -> (r: Result<Option<u32>, Error>)
        ensures
            ledger_obj::slot_read_optional::<H, u32, 4>(
                *old(host),
                *final(host),
                self.spec_slot_num(),
                sfield::SourceTag::spec_code(),
                r,
            ),
    {
        ledger_obj::get_field_optional(host, self.get_slot_num(), sfield::SourceTag)
    }

    /// An arbitrary tag to further specify the destination for this escrow, such as a hosted
    /// recipient at the destination address.
    fn destination_tag<H: HostBindings>(&self, host: &mut Host<H>) -> (r: Result<Option<u32>, Error>)
        ensures
            ledger_obj::slot_read_optional::<H, u32, 4>(
                *old(host),
                *final(host),
                self.spec_slot_num(),
                sfield::DestinationTag::spec_code(),
                r,
            ),
    {
        ledger_obj::get_field_optional(host, self.get_slot_num(), sfield::DestinationTag)
    }

    /// A hint indicating which page of the sender's owner directory links to this entry, in case
    /// the directory consists of multiple pages.
    fn owner_node<H: HostBindings>(&self, host: &mut Host<H>) -> (r: Result<u64, Error>)
        ensures
            ledger_obj::slot_read::<H, u64, 8>(
                *old(host),
                *final(host),
                self.spec_slot_num(),
                sfield::OwnerNode::spec_code(),
                r,
            ),
    {
        ledger_obj::get_field(host, self.get_slot_num(), sfield::OwnerNode)
    }

    /// The identifying hash of the transaction that most recently modified this entry.
    fn previous_txn_id<H: HostBindings>(&self, host: &mut Host<H>) -> (r: Result<Hash256, Error>)
        ensures
            ledger_obj::slot_read::<H, Hash256, 32>(
                *old(host),
                *final(host),
                self.spec_slot_num(),
                sfield::PreviousTxnID::spec_code(),
                r,
            ),
    {
        ledger_obj::get_field(host, self.get_slot_num(), sfield::PreviousTxnID)
    }

    /// The index of the ledger that contains the transaction that most recently modified this
    /// entry.
    fn previous_txn_lgr_seq<H: HostBindings>(&self, host: &mut Host<H>) -> (r: Result<u32, Error>)
        ensures
            ledger_obj::slot_read::<H, u32, 4>(
                *old(host),
                *final(host),
                self.spec_slot_num(),
                sfield::PreviousTxnLgrSeq::spec_code(),
                r,
            ),
    {
        ledger_obj::get_field(host, self.get_slot_num(), sfield::PreviousTxnLgrSeq)
    }

    /// A hint indicating which page of the destination's owner directory links to this object, in
    /// case the directory consists of multiple pages. Omitted on escrows created before enabling
    /// the fix1523 amendment.
    fn destination_node<H: HostBindings>(&self, host: &mut Host<H>) -> (r: Result<Option<u64>, Error>)
        ensures
            ledger_obj::slot_read_optional::<H, u64, 8>(
                *old(host),
                *final(host),
                self.spec_slot_num(),
                sfield::DestinationNode::spec_code(),
                r,
            ),
    {
        ledger_obj::get_field_optional(host, self.get_slot_num(), sfield::DestinationNode)
    }

    /// The transfer rate or fee to charge when users finish an escrow, locked at the creation of an
    /// escrow contract and used during settlement. Applicable to Trust Line Tokens and MPTs only.
    fn transfer_rate<H: HostBindings>(&self, host: &mut Host<H>) -> (r: Result<Option<u32>, Error>)
        ensures
            ledger_obj::slot_read_optional::<H, u32, 4>(
                *old(host),
                *final(host),
                self.spec_slot_num(),
                sfield::TransferRate::spec_code(),
                r,
            ),
    {
        ledger_obj::get_field_optional(host, self.get_slot_num(), sfield::TransferRate)
    }

    /// The ledger index of the issuer's directory node associated with the `Escrow`. Used when the
    /// issuer is neither the source nor destination account.
    fn issuer_node<H: HostBindings>(&self, host: &mut Host<H>) -> (r: Result<Option<u64>, Error>)
        ensures
            ledger_obj::slot_read_optional::<H, u64, 8>(
                *old(host),
                *final(host),
                self.spec_slot_num(),
                sfield::IssuerNode::spec_code(),
                r,
            ),
    {
        ledger_obj::get_field_optional(host, self.get_slot_num(), sfield::IssuerNode)
    }
}

/// A handle to an Escrow object cached in a host slot.
#[derive(Debug, Clone, Copy, PartialEq, Eq, Structural)]
pub struct Escrow {
    pub slot_num: i32,
}

impl Escrow {
    /// Wraps the slot an Escrow object is cached in.
    pub fn new(slot_num: i32) -> (r: Escrow)
        ensures
            r.slot_num == slot_num,
    {
        Escrow { slot_num }
    }
}

impl LedgerObjectCommonFields for Escrow {
    open spec fn spec_slot_num(&self) -> i32 {
        self.slot_num
    }

    fn get_slot_num(&self) -> (r: i32) {
        assert(self.spec_slot_num() == self.slot_num);
        self.slot_num
    }
}

impl EscrowFields for Escrow {

}

} // verus!
