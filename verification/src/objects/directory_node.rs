//! The `DirectoryNode` ledger object: typed accessors for its fields.

use vstd::prelude::*;
use crate::host::calls::Host;
use crate::fields::{current_ledger_obj, ledger_obj};
use crate::host::{Error, HostBindings};
use crate::objects::traits::{CurrentLedgerObjectCommonFields, LedgerObjectCommonFields};
use crate::sfield;
use crate::sfield::SField;
use crate::types::account_id::AccountID;
use crate::types::uint::{Hash160, Hash192, Hash256};

verus! {

/// Trait providing access to fields specific to DirectoryNode objects in any ledger.
pub trait DirectoryNodeFields: LedgerObjectCommonFields {
    /// (Owner directories only) The address of the account that owns the objects in this directory.
    fn owner<H: HostBindings>(&self, host: &mut Host<H>) -> (r: Result<Option<AccountID>, Error>)
        ensures
            ledger_obj::slot_read_optional::<H, AccountID, 20>(
                *old(host),
                *final(host),
                self.spec_slot_num(),
                sfield::Owner::spec_code(),
                r,
            ),
    {
        ledger_obj::get_field_optional(host, self.get_slot_num(), sfield::Owner)
    }

    /// (Offer directories only) The currency code of the `TakerPays` amount from the offers in this
    /// directory.
    fn taker_pays_currency<H: HostBindings>(&self, host: &mut Host<H>) -> (r: Result<Option<Hash160>, Error>)
        ensures
            ledger_obj::slot_read_optional::<H, Hash160, 20>(
                *old(host),
                *final(host),
                self.spec_slot_num(),
                sfield::TakerPaysCurrency::spec_code(),
                r,
            ),
    {
        ledger_obj::get_field_optional(host, self.get_slot_num(), sfield::TakerPaysCurrency)
    }

    /// (Offer directories only) The issuer of the `TakerPays` amount from the offers in this
    /// directory.
    fn taker_pays_issuer<H: HostBindings>(&self, host: &mut Host<H>) -> (r: Result<Option<Hash160>, Error>)
        ensures
            ledger_obj::slot_read_optional::<H, Hash160, 20>(
                *old(host),
                *final(host),
                self.spec_slot_num(),
                sfield::TakerPaysIssuer::spec_code(),
                r,
            ),
    {
        ledger_obj::get_field_optional(host, self.get_slot_num(), sfield::TakerPaysIssuer)
    }

    /// The TakerPaysMPT field (Optional).
    fn taker_pays_mpt<H: HostBindings>(&self, host: &mut Host<H>) -> (r: Result<Option<Hash192>, Error>)
        ensures
            ledger_obj::slot_read_optional::<H, Hash192, 24>(
                *old(host),
                *final(host),
                self.spec_slot_num(),
                sfield::TakerPaysMPT::spec_code(),
                r,
            ),
    {
        ledger_obj::get_field_optional(host, self.get_slot_num(), sfield::TakerPaysMPT)
    }

    /// (Offer directories only) The currency code of the `TakerGets` amount from the offers in this
    /// directory.
    fn taker_gets_currency<H: HostBindings>(&self, host: &mut Host<H>) -> (r: Result<Option<Hash160>, Error>)
        ensures
            ledger_obj::slot_read_optional::<H, Hash160, 20>(
                *old(host),
                *final(host),
                self.spec_slot_num(),
                sfield::TakerGetsCurrency::spec_code(),
                r,
            ),
    {
        ledger_obj::get_field_optional(host, self.get_slot_num(), sfield::TakerGetsCurrency)
    }

    /// (Offer directories only) The issuer of the `TakerGets` amount from the offers in this
    /// directory.
    fn taker_gets_issuer<H: HostBindings>(&self, host: &mut Host<H>) -> (r: Result<Option<Hash160>, Error>)
        ensures
            ledger_obj::slot_read_optional::<H, Hash160, 20>(
                *old(host),
                *final(host),
                self.spec_slot_num(),
                sfield::TakerGetsIssuer::spec_code(),
                r,
            ),
    {
        ledger_obj::get_field_optional(host, self.get_slot_num(), sfield::TakerGetsIssuer)
    }

    /// The TakerGetsMPT field (Optional).
    fn taker_gets_mpt<H: HostBindings>(&self, host: &mut Host<H>) -> (r: Result<Option<Hash192>, Error>)
        ensures
            ledger_obj::slot_read_optional::<H, Hash192, 24>(
                *old(host),
                *final(host),
                self.spec_slot_num(),
                sfield::TakerGetsMPT::spec_code(),
                r,
            ),
    {
        ledger_obj::get_field_optional(host, self.get_slot_num(), sfield::TakerGetsMPT)
    }

    /// (Offer directories only) **DEPRECATED**. Do not use.
    fn exchange_rate<H: HostBindings>(&self, host: &mut Host<H>) -> (r: Result<Option<u64>, Error>)
        ensures
            ledger_obj::slot_read_optional::<H, u64, 8>(
                *old(host),
                *final(host),
                self.spec_slot_num(),
                sfield::ExchangeRate::spec_code(),
                r,
            ),
    {
        ledger_obj::get_field_optional(host, self.get_slot_num(), sfield::ExchangeRate)
    }

    /// The contents of this directory: an array of IDs of other objects.
    /// Raw bytes; VECTOR256 is not yet typed in Rust.
    fn indexes<H: HostBindings>(&self, host: &mut Host<H>) -> (r: Result<[u8; 512], Error>)
        ensures
            ledger_obj::slot_raw_read(*old(host), *final(host), self.spec_slot_num(), sfield::Indexes::spec_code(), r),
    {
        ledger_obj::get_raw_field(host, self.get_slot_num(), sfield::Indexes)
    }

    /// The ID of root object for this directory.
    fn root_index<H: HostBindings>(&self, host: &mut Host<H>) -> (r: Result<Hash256, Error>)
        ensures
            ledger_obj::slot_read::<H, Hash256, 32>(
                *old(host),
                *final(host),
                self.spec_slot_num(),
                sfield::RootIndex::spec_code(),
                r,
            ),
    {
        ledger_obj::get_field(host, self.get_slot_num(), sfield::RootIndex)
    }

    /// If this directory consists of multiple pages, this ID links to the next object in the chain,
    /// wrapping around at the end.
    fn index_next<H: HostBindings>(&self, host: &mut Host<H>) -> (r: Result<Option<u64>, Error>)
        ensures
            ledger_obj::slot_read_optional::<H, u64, 8>(
                *old(host),
                *final(host),
                self.spec_slot_num(),
                sfield::IndexNext::spec_code(),
                r,
            ),
    {
        ledger_obj::get_field_optional(host, self.get_slot_num(), sfield::IndexNext)
    }

    /// If this directory consists of multiple pages, this ID links to the previous object in the
    /// chain, wrapping around at the beginning.
    fn index_previous<H: HostBindings>(&self, host: &mut Host<H>) -> (r: Result<Option<u64>, Error>)
        ensures
            ledger_obj::slot_read_optional::<H, u64, 8>(
                *old(host),
                *final(host),
                self.spec_slot_num(),
                sfield::IndexPrevious::spec_code(),
                r,
            ),
    {
        ledger_obj::get_field_optional(host, self.get_slot_num(), sfield::IndexPrevious)
    }

    /// (NFT offer directories only) ID of the NFT in a buy or sell offer.
    fn nftoken_id<H: HostBindings>(&self, host: &mut Host<H>) -> (r: Result<Option<Hash256>, Error>)
        ensures
            ledger_obj::slot_read_optional::<H, Hash256, 32>(
                *old(host),
                *final(host),
                self.spec_slot_num(),
                sfield::NFTokenID::spec_code(),
                r,
            ),
    {
        ledger_obj::get_field_optional(host, self.get_slot_num(), sfield::NFTokenID)
    }

    /// The identifying hash of the transaction that most recently modified this entry.
    fn previous_txn_id<H: HostBindings>(&self, host: &mut Host<H>) -> (r: Result<Option<Hash256>, Error>)
        ensures
            ledger_obj::slot_read_optional::<H, Hash256, 32>(
                *old(host),
                *final(host),
                self.spec_slot_num(),
                sfield::PreviousTxnID::spec_code(),
                r,
            ),
    {
        ledger_obj::get_field_optional(host, self.get_slot_num(), sfield::PreviousTxnID)
    }

    /// The index of the ledger that contains the transaction that most recently modified this
    /// entry.
    fn previous_txn_lgr_seq<H: HostBindings>(&self, host: &mut Host<H>) -> (r: Result<Option<u32>, Error>)
        ensures
            ledger_obj::slot_read_optional::<H, u32, 4>(
                *old(host),
                *final(host),
                self.spec_slot_num(),
                sfield::PreviousTxnLgrSeq::spec_code(),
                r,
            ),
    {
        ledger_obj::get_field_optional(host, self.get_slot_num(), sfield::PreviousTxnLgrSeq)
    }

    /// (Offer directories only) The ledger entry ID of a permissioned domain. If present, this
    /// order book belongs to the corresponding Permissioned DEX. Otherwise, this order book is part
    /// of the open DEX.
    fn domain_id<H: HostBindings>(&self, host: &mut Host<H>) -> (r: Result<Option<Hash256>, Error>)
        ensures
            ledger_obj::slot_read_optional::<H, Hash256, 32>(
                *old(host),
                *final(host),
                self.spec_slot_num(),
                sfield::DomainID::spec_code(),
                r,
            ),
    {
        ledger_obj::get_field_optional(host, self.get_slot_num(), sfield::DomainID)
    }
}

/// Trait providing access to fields specific to the current DirectoryNode object.
pub trait CurrentDirectoryNodeFields: CurrentLedgerObjectCommonFields {
    /// (Owner directories only) The address of the account that owns the objects in this directory.
    fn owner<H: HostBindings>(&self, host: &mut Host<H>) -> (r: Result<Option<AccountID>, Error>)
        ensures
            current_ledger_obj::home_read_optional::<H, AccountID, 20>(
                *old(host),
                *final(host),
                sfield::Owner::spec_code(),
                r,
            ),
    {
        current_ledger_obj::get_field_optional(host, sfield::Owner)
    }

    /// (Offer directories only) The currency code of the `TakerPays` amount from the offers in this
    /// directory.
    fn taker_pays_currency<H: HostBindings>(&self, host: &mut Host<H>) -> (r: Result<Option<Hash160>, Error>)
        ensures
            current_ledger_obj::home_read_optional::<H, Hash160, 20>(
                *old(host),
                *final(host),
                sfield::TakerPaysCurrency::spec_code(),
                r,
            ),
    {
        current_ledger_obj::get_field_optional(host, sfield::TakerPaysCurrency)
    }

    /// (Offer directories only) The issuer of the `TakerPays` amount from the offers in this
    /// directory.
    fn taker_pays_issuer<H: HostBindings>(&self, host: &mut Host<H>) -> (r: Result<Option<Hash160>, Error>)
        ensures
            current_ledger_obj::home_read_optional::<H, Hash160, 20>(
                *old(host),
                *final(host),
                sfield::TakerPaysIssuer::spec_code(),
                r,
            ),
    {
        current_ledger_obj::get_field_optional(host, sfield::TakerPaysIssuer)
    }

    /// The TakerPaysMPT field (Optional).
    fn taker_pays_mpt<H: HostBindings>(&self, host: &mut Host<H>) -> (r: Result<Option<Hash192>, Error>)
        ensures
            current_ledger_obj::home_read_optional::<H, Hash192, 24>(
                *old(host),
                *final(host),
                sfield::TakerPaysMPT::spec_code(),
                r,
            ),
    {
        current_ledger_obj::get_field_optional(host, sfield::TakerPaysMPT)
    }

    /// (Offer directories only) The currency code of the `TakerGets` amount from the offers in this
    /// directory.
    fn taker_gets_currency<H: HostBindings>(&self, host: &mut Host<H>) -> (r: Result<Option<Hash160>, Error>)
        ensures
            current_ledger_obj::home_read_optional::<H, Hash160, 20>(
                *old(host),
                *final(host),
                sfield::TakerGetsCurrency::spec_code(),
                r,
            ),
    {
        current_ledger_obj::get_field_optional(host, sfield::TakerGetsCurrency)
    }

    /// (Offer directories only) The issuer of the `TakerGets` amount from the offers in this
    /// directory.
    fn taker_gets_issuer<H: HostBindings>(&self, host: &mut Host<H>) -> (r: Result<Option<Hash160>, Error>)
        ensures
            current_ledger_obj::home_read_optional::<H, Hash160, 20>(
                *old(host),
                *final(host),
                sfield::TakerGetsIssuer::spec_code(),
                r,
            ),
    {
        current_ledger_obj::get_field_optional(host, sfield::TakerGetsIssuer)
    }

    /// The TakerGetsMPT field (Optional).
    fn taker_gets_mpt<H: HostBindings>(&self, host: &mut Host<H>) -> (r: Result<Option<Hash192>, Error>)
        ensures
            current_ledger_obj::home_read_optional::<H, Hash192, 24>(
                *old(host),
                *final(host),
                sfield::TakerGetsMPT::spec_code(),
                r,
            ),
    {
        current_ledger_obj::get_field_optional(host, sfield::TakerGetsMPT)
    }

    /// (Offer directories only) **DEPRECATED**. Do not use.
    fn exchange_rate<H: HostBindings>(&self, host: &mut Host<H>) -> (r: Result<Option<u64>, Error>)
        ensures
            current_ledger_obj::home_read_optional::<H, u64, 8>(
                *old(host),
                *final(host),
                sfield::ExchangeRate::spec_code(),
                r,
            ),
    {
        current_ledger_obj::get_field_optional(host, sfield::ExchangeRate)
    }

    /// The contents of this directory: an array of IDs of other objects.
    /// Raw bytes; VECTOR256 is not yet typed in Rust.
    fn indexes<H: HostBindings>(&self, host: &mut Host<H>) -> (r: Result<[u8; 512], Error>)
        ensures
            current_ledger_obj::home_raw_read(*old(host), *final(host), sfield::Indexes::spec_code(), r),
    {
        current_ledger_obj::get_raw_field(host, sfield::Indexes)
    }

    /// The ID of root object for this directory.
    fn root_index<H: HostBindings>(&self, host: &mut Host<H>) -> (r: Result<Hash256, Error>)
        ensures
            current_ledger_obj::home_read::<H, Hash256, 32>(
                *old(host),
                *final(host),
                sfield::RootIndex::spec_code(),
                r,
            ),
    {
        current_ledger_obj::get_field(host, sfield::RootIndex)
    }

    /// If this directory consists of multiple pages, this ID links to the next object in the chain,
    /// wrapping around at the end.
    fn index_next<H: HostBindings>(&self, host: &mut Host<H>) -> (r: Result<Option<u64>, Error>)
        ensures
            current_ledger_obj::home_read_optional::<H, u64, 8>(
                *old(host),
                *final(host),
                sfield::IndexNext::spec_code(),
                r,
            ),
    {
        current_ledger_obj::get_field_optional(host, sfield::IndexNext)
    }

    /// If this directory consists of multiple pages, this ID links to the previous object in the
    /// chain, wrapping around at the beginning.
    fn index_previous<H: HostBindings>(&self, host: &mut Host<H>) -> (r: Result<Option<u64>, Error>)
        ensures
            current_ledger_obj::home_read_optional::<H, u64, 8>(
                *old(host),
                *final(host),
                sfield::IndexPrevious::spec_code(),
                r,
            ),
    {
        current_ledger_obj::get_field_optional(host, sfield::IndexPrevious)
    }

    /// (NFT offer directories only) ID of the NFT in a buy or sell offer.
    fn nftoken_id<H: HostBindings>(&self, host: &mut Host<H>) -> (r: Result<Option<Hash256>, Error>)
        ensures
            current_ledger_obj::home_read_optional::<H, Hash256, 32>(
                *old(host),
                *final(host),
                sfield::NFTokenID::spec_code(),
                r,
            ),
    {
        current_ledger_obj::get_field_optional(host, sfield::NFTokenID)
    }

    /// The identifying hash of the transaction that most recently modified this entry.
    fn previous_txn_id<H: HostBindings>(&self, host: &mut Host<H>) -> (r: Result<Option<Hash256>, Error>)
        ensures
            current_ledger_obj::home_read_optional::<H, Hash256, 32>(
                *old(host),
                *final(host),
                sfield::PreviousTxnID::spec_code(),
                r,
            ),
    {
        current_ledger_obj::get_field_optional(host, sfield::PreviousTxnID)
    }

    /// The index of the ledger that contains the transaction that most recently modified this
    /// entry.
    fn previous_txn_lgr_seq<H: HostBindings>(&self, host: &mut Host<H>) -> (r: Result<Option<u32>, Error>)
        ensures
            current_ledger_obj::home_read_optional::<H, u32, 4>(
                *old(host),
                *final(host),
                sfield::PreviousTxnLgrSeq::spec_code(),
                r,
            ),
    {
        current_ledger_obj::get_field_optional(host, sfield::PreviousTxnLgrSeq)
    }

    /// (Offer directories only) The ledger entry ID of a permissioned domain. If present, this
    /// order book belongs to the corresponding Permissioned DEX. Otherwise, this order book is part
    /// of the open DEX.
    fn domain_id<H: HostBindings>(&self, host: &mut Host<H>) -> (r: Result<Option<Hash256>, Error>)
        ensures
            current_ledger_obj::home_read_optional::<H, Hash256, 32>(
                *old(host),
                *final(host),
                sfield::DomainID::spec_code(),
                r,
            ),
    {
        current_ledger_obj::get_field_optional(host, sfield::DomainID)
    }
}

/// A handle to a DirectoryNode object cached in a host slot.
#[derive(Debug, Clone, Copy, PartialEq, Eq, Structural)]
pub struct DirectoryNode {
    pub slot_num: i32,
}

impl DirectoryNode {
    /// Wraps the slot a DirectoryNode object is cached in.
    pub fn new(slot_num: i32) -> (r: DirectoryNode)
        ensures
            r.slot_num == slot_num,
    {
        DirectoryNode { slot_num }
    }
}

impl LedgerObjectCommonFields for DirectoryNode {
    open spec fn spec_slot_num(&self) -> i32 {
        self.slot_num
    }

    fn get_slot_num(&self) -> (r: i32) {
        assert(self.spec_slot_num() == self.slot_num);
        self.slot_num
    }
}

impl DirectoryNodeFields for DirectoryNode {

}

} // verus!
