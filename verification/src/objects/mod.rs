//! Ledger objects: handles to slot-cached entries and to the current entry, with typed
//! accessors for their fields.

pub mod account_root;
pub mod amendments;
pub mod amm;
pub mod any_object;
pub mod array_object;
pub mod bridge;
pub mod cache;
pub mod check;
pub mod contract;
pub mod contract_data;
pub mod contract_source;
pub mod credential;
pub mod delegate;
pub mod deposit_preauth;
pub mod did;
pub mod did_document;
pub mod directory_node;
pub mod escrow;
pub mod fee_settings;
pub mod ledger_hashes;
pub mod loan;
pub mod loan_broker;
pub mod mptoken;
pub mod mptoken_issuance;
pub mod negative_unl;
pub mod nftoken_offer;
pub mod nftoken_page;
pub mod offer;
pub mod oracle;
pub mod pay_channel;
pub mod permissioned_domain;
pub mod ripple_state;
pub mod signer_list;
pub mod ticket;
pub mod traits;
pub mod vault;
pub mod x_chain_owned_claim_id;
pub mod x_chain_owned_create_account_claim_id;

pub use any_object::LedgerObject;
pub use cache::cache_ledger_entry;
pub use account_root::{AccountRoot, AccountRootFields, CurrentAccountRootFields};
pub use amendments::{Amendments, AmendmentsFields, CurrentAmendmentsFields};
pub use amm::{AMM, AMMFields, CurrentAMMFields};
pub use bridge::{Bridge, BridgeFields, CurrentBridgeFields};
pub use check::{Check, CheckFields, CurrentCheckFields};
pub use contract::{Contract, ContractFields, CurrentContractFields};
pub use contract_data::{ContractData, ContractDataFields, CurrentContractDataFields};
pub use contract_source::{ContractSource, ContractSourceFields, CurrentContractSourceFields};
pub use credential::{Credential, CredentialFields, CurrentCredentialFields};
pub use delegate::{CurrentDelegateFields, Delegate, DelegateFields};
pub use did::{CurrentDIDFields, DID, DIDFields};
pub use directory_node::{CurrentDirectoryNodeFields, DirectoryNode, DirectoryNodeFields};
pub use escrow::{Escrow, EscrowFields};
pub use fee_settings::{CurrentFeeSettingsFields, FeeSettings, FeeSettingsFields};
pub use ledger_hashes::{CurrentLedgerHashesFields, LedgerHashes, LedgerHashesFields};
pub use loan::{CurrentLoanFields, Loan, LoanFields};
pub use loan_broker::{CurrentLoanBrokerFields, LoanBroker, LoanBrokerFields};
pub use mptoken::{CurrentMPTokenFields, MPToken, MPTokenFields};
pub use mptoken_issuance::{CurrentMPTokenIssuanceFields, MPTokenIssuance, MPTokenIssuanceFields};
pub use negative_unl::{CurrentNegativeUNLFields, NegativeUNL, NegativeUNLFields};
pub use nftoken_offer::{CurrentNFTokenOfferFields, NFTokenOffer, NFTokenOfferFields};
pub use nftoken_page::{CurrentNFTokenPageFields, NFTokenPage, NFTokenPageFields};
pub use offer::{CurrentOfferFields, Offer, OfferFields};
pub use signer_list::{CurrentSignerListFields, SignerList, SignerListFields};
pub use ticket::{CurrentTicketFields, Ticket, TicketFields};
pub use deposit_preauth::{CurrentDepositPreauthFields, DepositPreauth, DepositPreauthFields};
pub use x_chain_owned_claim_id::{CurrentXChainOwnedClaimIDFields, XChainOwnedClaimID, XChainOwnedClaimIDFields};
pub use ripple_state::{CurrentRippleStateFields, RippleState, RippleStateFields};
pub use x_chain_owned_create_account_claim_id::{CurrentXChainOwnedCreateAccountClaimIDFields, XChainOwnedCreateAccountClaimID, XChainOwnedCreateAccountClaimIDFields};
pub use pay_channel::{CurrentPayChannelFields, PayChannel, PayChannelFields};
pub use oracle::{CurrentOracleFields, Oracle, OracleFields};
pub use permissioned_domain::{CurrentPermissionedDomainFields, PermissionedDomain, PermissionedDomainFields};
pub use vault::{CurrentVaultFields, Vault, VaultFields};
