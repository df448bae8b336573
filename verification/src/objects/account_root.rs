//! The `AccountRoot` ledger object: typed accessors for its fields.

use vstd::prelude::*;
use crate::host::calls::Host;
use crate::fields::{current_ledger_obj, ledger_obj};
use crate::host::{Error, HostBindings};
use crate::objects::traits::{CurrentLedgerObjectCommonFields, LedgerObjectCommonFields};
use crate::sfield;
use crate::sfield::SField;
use crate::types::account_id::AccountID;
use crate::types::amount::Amount;
use crate::types::blob::{PublicKeyBlob, UriBlob};
use crate::types::uint::{Hash128, Hash256};

verus! {

/// Trait providing access to fields specific to AccountRoot objects in any ledger.
pub trait AccountRootFields: LedgerObjectCommonFields {
    /// The identifying (classic) address of this account.
    fn account<H: HostBindings>(&self, host: &mut Host<H>) -> (r: Result<AccountID, Error>)
        ensures
            ledger_obj::slot_read::<H, AccountID, 20>(
                *old(host),
                *final(host),
                self.spec_slot_num(),
                sfield::Account::spec_code(),
                r,
            ),
    {
        ledger_obj::get_field(host, self.get_slot_num(), sfield::Account)
    }

    /// The sequence number of the next valid transaction for this account.
    fn sequence<H: HostBindings>(&self, host: &mut Host<H>) -> (r: Result<u32, Error>)
        ensures
            ledger_obj::slot_read::<H, u32, 4>(
                *old(host),
                *final(host),
                self.spec_slot_num(),
                sfield::Sequence::spec_code(),
                r,
            ),
    {
        ledger_obj::get_field(host, self.get_slot_num(), sfield::Sequence)
    }

    /// The account's current [XRP balance in drops][XRP, in drops], represented as a string.
    fn balance<H: HostBindings>(&self, host: &mut Host<H>) -> (r: Result<Amount, Error>)
        ensures
            ledger_obj::slot_read::<H, Amount, 48>(
                *old(host),
                *final(host),
                self.spec_slot_num(),
                sfield::Balance::spec_code(),
                r,
            ),
    {
        ledger_obj::get_field(host, self.get_slot_num(), sfield::Balance)
    }

    /// The number of objects this account owns in the ledger, which contributes to its owner reserve.
    fn owner_count<H: HostBindings>(&self, host: &mut Host<H>) -> (r: Result<u32, Error>)
        ensures
            ledger_obj::slot_read::<H, u32, 4>(
                *old(host),
                *final(host),
                self.spec_slot_num(),
                sfield::OwnerCount::spec_code(),
                r,
            ),
    {
        ledger_obj::get_field(host, self.get_slot_num(), sfield::OwnerCount)
    }

    /// The identifying hash of the transaction that most recently modified this object.
    fn previous_txn_id<H: HostBindings>(&self, host: &mut Host<H>) -> (r: Result<Hash256, Error>)
        ensures
            ledger_obj::slot_read::<H, Hash256, 32>(
                *old(host),
                *final(host),
                self.spec_slot_num(),
                sfield::PreviousTxnID::spec_code(),
                r,
            ),
    {
        ledger_obj::get_field(host, self.get_slot_num(), sfield::PreviousTxnID)
    }

    /// The [index of the ledger][Ledger Index] that contains the transaction that most recently modified this object.
    fn previous_txn_lgr_seq<H: HostBindings>(&self, host: &mut Host<H>) -> (r: Result<u32, Error>)
        ensures
            ledger_obj::slot_read::<H, u32, 4>(
                *old(host),
                *final(host),
                self.spec_slot_num(),
                sfield::PreviousTxnLgrSeq::spec_code(),
                r,
            ),
    {
        ledger_obj::get_field(host, self.get_slot_num(), sfield::PreviousTxnLgrSeq)
    }

    /// The identifying hash of the transaction most recently sent by this account. This field must be enabled to use the `AccountTxnID` transaction field. To enable it, send an AccountSet transaction with the `asfAccountTxnID` flag enabled.
    fn account_txn_id<H: HostBindings>(&self, host: &mut Host<H>) -> (r: Result<Option<Hash256>, Error>)
        ensures
            ledger_obj::slot_read_optional::<H, Hash256, 32>(
                *old(host),
                *final(host),
                self.spec_slot_num(),
                sfield::AccountTxnID::spec_code(),
                r,
            ),
    {
        ledger_obj::get_field_optional(host, self.get_slot_num(), sfield::AccountTxnID)
    }

    /// The address of a key pair that can be used to sign transactions for this account instead of the master key. Use a [SetRegularKey transaction][] to change this value.
    fn regular_key<H: HostBindings>(&self, host: &mut Host<H>) -> (r: Result<Option<AccountID>, Error>)
        ensures
            ledger_obj::slot_read_optional::<H, AccountID, 20>(
                *old(host),
                *final(host),
                self.spec_slot_num(),
                sfield::RegularKey::spec_code(),
                r,
            ),
    {
        ledger_obj::get_field_optional(host, self.get_slot_num(), sfield::RegularKey)
    }

    /// The md5 hash of an email address. Clients can use this to look up an avatar through services such as Gravatar.
    fn email_hash<H: HostBindings>(&self, host: &mut Host<H>) -> (r: Result<Option<Hash128>, Error>)
        ensures
            ledger_obj::slot_read_optional::<H, Hash128, 16>(
                *old(host),
                *final(host),
                self.spec_slot_num(),
                sfield::EmailHash::spec_code(),
                r,
            ),
    {
        ledger_obj::get_field_optional(host, self.get_slot_num(), sfield::EmailHash)
    }

    /// An arbitrary 256-bit value that users can set.
    fn wallet_locator<H: HostBindings>(&self, host: &mut Host<H>) -> (r: Result<Option<Hash256>, Error>)
        ensures
            ledger_obj::slot_read_optional::<H, Hash256, 32>(
                *old(host),
                *final(host),
                self.spec_slot_num(),
                sfield::WalletLocator::spec_code(),
                r,
            ),
    {
        ledger_obj::get_field_optional(host, self.get_slot_num(), sfield::WalletLocator)
    }

    /// Unused. (The code supports this field but there is no way to set it.)
    fn wallet_size<H: HostBindings>(&self, host: &mut Host<H>) -> (r: Result<Option<u32>, Error>)
        ensures
            ledger_obj::slot_read_optional::<H, u32, 4>(
                *old(host),
                *final(host),
                self.spec_slot_num(),
                sfield::WalletSize::spec_code(),
                r,
            ),
    {
        ledger_obj::get_field_optional(host, self.get_slot_num(), sfield::WalletSize)
    }

    /// A public key that may be used to send encrypted messages to this account. In JSON, uses hexadecimal. Must be exactly 33 bytes, with the first byte indicating the key type: `0x02` or `0x03` for secp256k1 keys, `0xED` for Ed25519 keys.
    fn message_key<H: HostBindings>(&self, host: &mut Host<H>) -> (r: Result<Option<PublicKeyBlob>, Error>)
        ensures
            ledger_obj::slot_read_optional::<H, PublicKeyBlob, 33>(
                *old(host),
                *final(host),
                self.spec_slot_num(),
                sfield::MessageKey::spec_code(),
                r,
            ),
    {
        ledger_obj::get_field_optional(host, self.get_slot_num(), sfield::MessageKey)
    }

    /// A transfer fee to charge other users for sending currency issued by this account to each other.
    fn transfer_rate<H: HostBindings>(&self, host: &mut Host<H>) -> (r: Result<Option<u32>, Error>)
        ensures
            ledger_obj::slot_read_optional::<H, u32, 4>(
                *old(host),
                *final(host),
                self.spec_slot_num(),
                sfield::TransferRate::spec_code(),
                r,
            ),
    {
        ledger_obj::get_field_optional(host, self.get_slot_num(), sfield::TransferRate)
    }

    /// A domain associated with this account. In JSON, this is the hexadecimal for the ASCII representation of the domain. Cannot be more than 256 bytes in length.
    fn domain<H: HostBindings>(&self, host: &mut Host<H>) -> (r: Result<Option<UriBlob>, Error>)
        ensures
            ledger_obj::slot_read_optional::<H, UriBlob, 256>(
                *old(host),
                *final(host),
                self.spec_slot_num(),
                sfield::Domain::spec_code(),
                r,
            ),
    {
        ledger_obj::get_field_optional(host, self.get_slot_num(), sfield::Domain)
    }

    /// How many significant digits to use for exchange rates of Offers involving currencies issued by this address. Valid values are `3` to `15`, inclusive.
    fn tick_size<H: HostBindings>(&self, host: &mut Host<H>) -> (r: Result<Option<u8>, Error>)
        ensures
            ledger_obj::slot_read_optional::<H, u8, 1>(
                *old(host),
                *final(host),
                self.spec_slot_num(),
                sfield::TickSize::spec_code(),
                r,
            ),
    {
        ledger_obj::get_field_optional(host, self.get_slot_num(), sfield::TickSize)
    }

    /// How many Tickets this account owns in the ledger. This is updated automatically to ensure that the account stays within the hard limit of 250 Tickets at a time. This field is omitted if the account has zero Tickets.
    fn ticket_count<H: HostBindings>(&self, host: &mut Host<H>) -> (r: Result<Option<u32>, Error>)
        ensures
            ledger_obj::slot_read_optional::<H, u32, 4>(
                *old(host),
                *final(host),
                self.spec_slot_num(),
                sfield::TicketCount::spec_code(),
                r,
            ),
    {
        ledger_obj::get_field_optional(host, self.get_slot_num(), sfield::TicketCount)
    }

    /// Another account that can mint non-fungible tokens on behalf of this account.
    fn nftoken_minter<H: HostBindings>(&self, host: &mut Host<H>) -> (r: Result<Option<AccountID>, Error>)
        ensures
            ledger_obj::slot_read_optional::<H, AccountID, 20>(
                *old(host),
                *final(host),
                self.spec_slot_num(),
                sfield::NFTokenMinter::spec_code(),
                r,
            ),
    {
        ledger_obj::get_field_optional(host, self.get_slot_num(), sfield::NFTokenMinter)
    }

    /// How many total non-fungible tokens have been minted by and on behalf of this account.
    fn minted_nftokens<H: HostBindings>(&self, host: &mut Host<H>) -> (r: Result<Option<u32>, Error>)
        ensures
            ledger_obj::slot_read_optional::<H, u32, 4>(
                *old(host),
                *final(host),
                self.spec_slot_num(),
                sfield::MintedNFTokens::spec_code(),
                r,
            ),
    {
        ledger_obj::get_field_optional(host, self.get_slot_num(), sfield::MintedNFTokens)
    }

    /// How many total of this account's issued non-fungible tokens have been burned. This number is always equal or less than `MintedNFTokens`.
    fn burned_nftokens<H: HostBindings>(&self, host: &mut Host<H>) -> (r: Result<Option<u32>, Error>)
        ensures
            ledger_obj::slot_read_optional::<H, u32, 4>(
                *old(host),
                *final(host),
                self.spec_slot_num(),
                sfield::BurnedNFTokens::spec_code(),
                r,
            ),
    {
        ledger_obj::get_field_optional(host, self.get_slot_num(), sfield::BurnedNFTokens)
    }

    /// The account's [Sequence Number][] at the time it minted its first non-fungible-token.
    fn first_nftoken_sequence<H: HostBindings>(&self, host: &mut Host<H>) -> (r: Result<Option<u32>, Error>)
        ensures
            ledger_obj::slot_read_optional::<H, u32, 4>(
                *old(host),
                *final(host),
                self.spec_slot_num(),
                sfield::FirstNFTokenSequence::spec_code(),
                r,
            ),
    {
        ledger_obj::get_field_optional(host, self.get_slot_num(), sfield::FirstNFTokenSequence)
    }

    /// The ledger entry ID of the corresponding AMM ledger entry. Set during account creation; cannot be modified. If present, indicates that this is a special AMM pseudo-account AccountRoot; always omitted on non-AMM accounts.
    fn amm_id<H: HostBindings>(&self, host: &mut Host<H>) -> (r: Result<Option<Hash256>, Error>)
        ensures
            ledger_obj::slot_read_optional::<H, Hash256, 32>(
                *old(host),
                *final(host),
                self.spec_slot_num(),
                sfield::AMMID::spec_code(),
                r,
            ),
    {
        ledger_obj::get_field_optional(host, self.get_slot_num(), sfield::AMMID)
    }

    /// The ID of the `Vault` entry associated with this account. Set during account creation; cannot be modified. If present, indicates that this is a special Vault pseudo-account AccountRoot; always omitted on non-Vault accounts.
    fn vault_id<H: HostBindings>(&self, host: &mut Host<H>) -> (r: Result<Option<Hash256>, Error>)
        ensures
            ledger_obj::slot_read_optional::<H, Hash256, 32>(
                *old(host),
                *final(host),
                self.spec_slot_num(),
                sfield::VaultID::spec_code(),
                r,
            ),
    {
        ledger_obj::get_field_optional(host, self.get_slot_num(), sfield::VaultID)
    }

    /// The LoanBrokerID field (Optional).
    fn loan_broker_id<H: HostBindings>(&self, host: &mut Host<H>) -> (r: Result<Option<Hash256>, Error>)
        ensures
            ledger_obj::slot_read_optional::<H, Hash256, 32>(
                *old(host),
                *final(host),
                self.spec_slot_num(),
                sfield::LoanBrokerID::spec_code(),
                r,
            ),
    {
        ledger_obj::get_field_optional(host, self.get_slot_num(), sfield::LoanBrokerID)
    }

    /// The ContractID field (Optional).
    fn contract_id<H: HostBindings>(&self, host: &mut Host<H>) -> (r: Result<Option<Hash256>, Error>)
        ensures
            ledger_obj::slot_read_optional::<H, Hash256, 32>(
                *old(host),
                *final(host),
                self.spec_slot_num(),
                sfield::ContractID::spec_code(),
                r,
            ),
    {
        ledger_obj::get_field_optional(host, self.get_slot_num(), sfield::ContractID)
    }
}

/// Trait providing access to fields specific to the current AccountRoot object.
pub trait CurrentAccountRootFields: CurrentLedgerObjectCommonFields {
    /// The identifying (classic) address of this account.
    fn account<H: HostBindings>(&self, host: &mut Host<H>) -> (r: Result<AccountID, Error>)
        ensures
            current_ledger_obj::home_read::<H, AccountID, 20>(
                *old(host),
                *final(host),
                sfield::Account::spec_code(),
                r,
            ),
    {
        current_ledger_obj::get_field(host, sfield::Account)
    }

    /// The sequence number of the next valid transaction for this account.
    fn sequence<H: HostBindings>(&self, host: &mut Host<H>) -> (r: Result<u32, Error>)
        ensures
            current_ledger_obj::home_read::<H, u32, 4>(*old(host), *final(host), sfield::Sequence::spec_code(), r),
    {
        current_ledger_obj::get_field(host, sfield::Sequence)
    }

    /// The account's current [XRP balance in drops][XRP, in drops], represented as a string.
    fn balance<H: HostBindings>(&self, host: &mut Host<H>) -> (r: Result<Amount, Error>)
        ensures
            current_ledger_obj::home_read::<H, Amount, 48>(*old(host), *final(host), sfield::Balance::spec_code(), r),
    {
        current_ledger_obj::get_field(host, sfield::Balance)
    }

    /// The number of objects this account owns in the ledger, which contributes to its owner reserve.
    fn owner_count<H: HostBindings>(&self, host: &mut Host<H>) -> (r: Result<u32, Error>)
        ensures
            current_ledger_obj::home_read::<H, u32, 4>(*old(host), *final(host), sfield::OwnerCount::spec_code(), r),
    {
        current_ledger_obj::get_field(host, sfield::OwnerCount)
    }

    /// The identifying hash of the transaction that most recently modified this object.
    fn previous_txn_id<H: HostBindings>(&self, host: &mut Host<H>) -> (r: Result<Hash256, Error>)
        ensures
            current_ledger_obj::home_read::<H, Hash256, 32>(
                *old(host),
                *final(host),
                sfield::PreviousTxnID::spec_code(),
                r,
            ),
    {
        current_ledger_obj::get_field(host, sfield::PreviousTxnID)
    }

    /// The [index of the ledger][Ledger Index] that contains the transaction that most recently modified this object.
    fn previous_txn_lgr_seq<H: HostBindings>(&self, host: &mut Host<H>) -> (r: Result<u32, Error>)
        ensures
            current_ledger_obj::home_read::<H, u32, 4>(
                *old(host),
                *final(host),
                sfield::PreviousTxnLgrSeq::spec_code(),
                r,
            ),
    {
        current_ledger_obj::get_field(host, sfield::PreviousTxnLgrSeq)
    }

    /// The identifying hash of the transaction most recently sent by this account. This field must be enabled to use the `AccountTxnID` transaction field. To enable it, send an AccountSet transaction with the `asfAccountTxnID` flag enabled.
    fn account_txn_id<H: HostBindings>(&self, host: &mut Host<H>) -> (r: Result<Option<Hash256>, Error>)
        ensures
            current_ledger_obj::home_read_optional::<H, Hash256, 32>(
                *old(host),
                *final(host),
                sfield::AccountTxnID::spec_code(),
                r,
            ),
    {
        current_ledger_obj::get_field_optional(host, sfield::AccountTxnID)
    }

    /// The address of a key pair that can be used to sign transactions for this account instead of the master key. Use a [SetRegularKey transaction][] to change this value.
    fn regular_key<H: HostBindings>(&self, host: &mut Host<H>) -> (r: Result<Option<AccountID>, Error>)
        ensures
            current_ledger_obj::home_read_optional::<H, AccountID, 20>(
                *old(host),
                *final(host),
                sfield::RegularKey::spec_code(),
                r,
            ),
    {
        current_ledger_obj::get_field_optional(host, sfield::RegularKey)
    }

    /// The md5 hash of an email address. Clients can use this to look up an avatar through services such as Gravatar.
    fn email_hash<H: HostBindings>(&self, host: &mut Host<H>) -> (r: Result<Option<Hash128>, Error>)
        ensures
            current_ledger_obj::home_read_optional::<H, Hash128, 16>(
                *old(host),
                *final(host),
                sfield::EmailHash::spec_code(),
                r,
            ),
    {
        current_ledger_obj::get_field_optional(host, sfield::EmailHash)
    }

    /// An arbitrary 256-bit value that users can set.
    fn wallet_locator<H: HostBindings>(&self, host: &mut Host<H>) -> (r: Result<Option<Hash256>, Error>)
        ensures
            current_ledger_obj::home_read_optional::<H, Hash256, 32>(
                *old(host),
                *final(host),
                sfield::WalletLocator::spec_code(),
                r,
            ),
    {
        current_ledger_obj::get_field_optional(host, sfield::WalletLocator)
    }

    /// Unused. (The code supports this field but there is no way to set it.)
    fn wallet_size<H: HostBindings>(&self, host: &mut Host<H>) -> (r: Result<Option<u32>, Error>)
        ensures
            current_ledger_obj::home_read_optional::<H, u32, 4>(
                *old(host),
                *final(host),
                sfield::WalletSize::spec_code(),
                r,
            ),
    {
        current_ledger_obj::get_field_optional(host, sfield::WalletSize)
    }

    /// A public key that may be used to send encrypted messages to this account. In JSON, uses hexadecimal. Must be exactly 33 bytes, with the first byte indicating the key type: `0x02` or `0x03` for secp256k1 keys, `0xED` for Ed25519 keys.
    fn message_key<H: HostBindings>(&self, host: &mut Host<H>) -> (r: Result<Option<PublicKeyBlob>, Error>)
        ensures
            current_ledger_obj::home_read_optional::<H, PublicKeyBlob, 33>(
                *old(host),
                *final(host),
                sfield::MessageKey::spec_code(),
                r,
            ),
    {
        current_ledger_obj::get_field_optional(host, sfield::MessageKey)
    }

    /// A transfer fee to charge other users for sending currency issued by this account to each other.
    fn transfer_rate<H: HostBindings>(&self, host: &mut Host<H>) -> (r: Result<Option<u32>, Error>)
        ensures
            current_ledger_obj::home_read_optional::<H, u32, 4>(
                *old(host),
                *final(host),
                sfield::TransferRate::spec_code(),
                r,
            ),
    {
        current_ledger_obj::get_field_optional(host, sfield::TransferRate)
    }

    /// A domain associated with this account. In JSON, this is the hexadecimal for the ASCII representation of the domain. Cannot be more than 256 bytes in length.
    fn domain<H: HostBindings>(&self, host: &mut Host<H>) -> (r: Result<Option<UriBlob>, Error>)
        ensures
            current_ledger_obj::home_read_optional::<H, UriBlob, 256>(
                *old(host),
                *final(host),
                sfield::Domain::spec_code(),
                r,
            ),
    {
        current_ledger_obj::get_field_optional(host, sfield::Domain)
    }

    /// How many significant digits to use for exchange rates of Offers involving currencies issued by this address. Valid values are `3` to `15`, inclusive.
    fn tick_size<H: HostBindings>(&self, host: &mut Host<H>) -> (r: Result<Option<u8>, Error>)
        ensures
            current_ledger_obj::home_read_optional::<H, u8, 1>(
                *old(host),
                *final(host),
                sfield::TickSize::spec_code(),
                r,
            ),
    {
        current_ledger_obj::get_field_optional(host, sfield::TickSize)
    }

    /// How many Tickets this account owns in the ledger. This is updated automatically to ensure that the account stays within the hard limit of 250 Tickets at a time. This field is omitted if the account has zero Tickets.
    fn ticket_count<H: HostBindings>(&self, host: &mut Host<H>) -> (r: Result<Option<u32>, Error>)
        ensures
            current_ledger_obj::home_read_optional::<H, u32, 4>(
                *old(host),
                *final(host),
                sfield::TicketCount::spec_code(),
                r,
            ),
    {
        current_ledger_obj::get_field_optional(host, sfield::TicketCount)
    }

    /// Another account that can mint non-fungible tokens on behalf of this account.
    fn nftoken_minter<H: HostBindings>(&self, host: &mut Host<H>) -> (r: Result<Option<AccountID>, Error>)
        ensures
            current_ledger_obj::home_read_optional::<H, AccountID, 20>(
                *old(host),
                *final(host),
                sfield::NFTokenMinter::spec_code(),
                r,
            ),
    {
        current_ledger_obj::get_field_optional(host, sfield::NFTokenMinter)
    }

    /// How many total non-fungible tokens have been minted by and on behalf of this account.
    fn minted_nftokens<H: HostBindings>(&self, host: &mut Host<H>) -> (r: Result<Option<u32>, Error>)
        ensures
            current_ledger_obj::home_read_optional::<H, u32, 4>(
                *old(host),
                *final(host),
                sfield::MintedNFTokens::spec_code(),
                r,
            ),
    {
        current_ledger_obj::get_field_optional(host, sfield::MintedNFTokens)
    }

    /// How many total of this account's issued non-fungible tokens have been burned. This number is always equal or less than `MintedNFTokens`.
    fn burned_nftokens<H: HostBindings>(&self, host: &mut Host<H>) -> (r: Result<Option<u32>, Error>)
        ensures
            current_ledger_obj::home_read_optional::<H, u32, 4>(
                *old(host),
                *final(host),
                sfield::BurnedNFTokens::spec_code(),
                r,
            ),
    {
        current_ledger_obj::get_field_optional(host, sfield::BurnedNFTokens)
    }

    /// The account's [Sequence Number][] at the time it minted its first non-fungible-token.
    fn first_nftoken_sequence<H: HostBindings>(&self, host: &mut Host<H>) -> (r: Result<Option<u32>, Error>)
        ensures
            current_ledger_obj::home_read_optional::<H, u32, 4>(
                *old(host),
                *final(host),
                sfield::FirstNFTokenSequence::spec_code(),
                r,
            ),
    {
        current_ledger_obj::get_field_optional(host, sfield::FirstNFTokenSequence)
    }

    /// The ledger entry ID of the corresponding AMM ledger entry. Set during account creation; cannot be modified. If present, indicates that this is a special AMM pseudo-account AccountRoot; always omitted on non-AMM accounts.
    fn amm_id<H: HostBindings>(&self, host: &mut Host<H>) -> (r: Result<Option<Hash256>, Error>)
        ensures
            current_ledger_obj::home_read_optional::<H, Hash256, 32>(
                *old(host),
                *final(host),
                sfield::AMMID::spec_code(),
                r,
            ),
    {
        current_ledger_obj::get_field_optional(host, sfield::AMMID)
    }

    /// The ID of the `Vault` entry associated with this account. Set during account creation; cannot be modified. If present, indicates that this is a special Vault pseudo-account AccountRoot; always omitted on non-Vault accounts.
    fn vault_id<H: HostBindings>(&self, host: &mut Host<H>) -> (r: Result<Option<Hash256>, Error>)
        ensures
            current_ledger_obj::home_read_optional::<H, Hash256, 32>(
                *old(host),
                *final(host),
                sfield::VaultID::spec_code(),
                r,
            ),
    {
        current_ledger_obj::get_field_optional(host, sfield::VaultID)
    }

    /// The LoanBrokerID field (Optional).
    fn loan_broker_id<H: HostBindings>(&self, host: &mut Host<H>) -> (r: Result<Option<Hash256>, Error>)
        ensures
            current_ledger_obj::home_read_optional::<H, Hash256, 32>(
                *old(host),
                *final(host),
                sfield::LoanBrokerID::spec_code(),
                r,
            ),
    {
        current_ledger_obj::get_field_optional(host, sfield::LoanBrokerID)
    }

    /// The ContractID field (Optional).
    fn contract_id<H: HostBindings>(&self, host: &mut Host<H>) -> (r: Result<Option<Hash256>, Error>)
        ensures
            current_ledger_obj::home_read_optional::<H, Hash256, 32>(
                *old(host),
                *final(host),
                sfield::ContractID::spec_code(),
                r,
            ),
    {
        current_ledger_obj::get_field_optional(host, sfield::ContractID)
    }
}

/// A handle to an AccountRoot object cached in a host slot.
#[derive(Debug, Clone, Copy, PartialEq, Eq, Structural)]
pub struct AccountRoot {
    pub slot_num: i32,
}

impl AccountRoot {
    /// Wraps the slot an AccountRoot object is cached in.
    pub fn new(slot_num: i32) -> (r: AccountRoot)
        ensures
            r.slot_num == slot_num,
    {
        AccountRoot { slot_num }
    }
}

impl LedgerObjectCommonFields for AccountRoot {
    open spec fn spec_slot_num(&self) -> i32 {
        self.slot_num
    }

    fn get_slot_num(&self) -> (r: i32) {
        assert(self.spec_slot_num() == self.slot_num);
        self.slot_num
    }
}

impl AccountRootFields for AccountRoot {

}

} // verus!
