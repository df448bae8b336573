use std::cell::RefCell;
use xrpl_common_stdlib::host::HostBindings;
use xrpl_common_stdlib::host::Host;

type FieldFn = Box<dyn Fn(i32, &mut [u8]) -> i32>;
type SlotFieldFn = Box<dyn Fn(i32, i32, &mut [u8]) -> i32>;
type InnerFn = Box<dyn Fn(&[u8], &mut [u8]) -> i32>;
type SlotInnerFn = Box<dyn Fn(i32, &[u8], &mut [u8]) -> i32>;
type ArrLenFn = Box<dyn Fn(&[u8]) -> i32>;
type SlotArrLenFn = Box<dyn Fn(i32, &[u8]) -> i32>;
type OutFn = Box<dyn Fn(&mut [u8]) -> i32>;
type IdFn = Box<dyn Fn(&[&[u8]], &mut [u8]) -> i32>;

/// A host whose answers the test scripts; every call is recorded, and a call with no script
/// panics, as an unexpected call would.
#[derive(Default)]
struct MockHost {
    tx_field: Option<FieldFn>,
    home_le_field: Option<FieldFn>,
    le_field: Option<SlotFieldFn>,
    tx_inner: Option<InnerFn>,
    home_le_inner: Option<InnerFn>,
    le_inner: Option<SlotInnerFn>,
    tx_inner_arr_len: Option<ArrLenFn>,
    home_le_inner_arr_len: Option<ArrLenFn>,
    le_inner_arr_len: Option<SlotArrLenFn>,
    ldgr_index: Option<OutFn>,
    parent_ldgr_time: Option<OutFn>,
    parent_ldgr_hash: Option<OutFn>,
    base_fee: Option<OutFn>,
    amendment_enabled: Option<Box<dyn Fn(&[u8]) -> i32>>,
    cache_le: Option<Box<dyn Fn(&[u8], i32) -> i32>>,
    sha512_half: Option<Box<dyn Fn(&[u8], &mut [u8]) -> i32>>,
    check_sig: Option<Box<dyn Fn(&[u8], &[u8], &[u8]) -> i32>>,
    id: Option<IdFn>,
    calls: RefCell<Vec<String>>,
    traces: RefCell<Vec<(String, i32, Vec<u8>)>>,
}

#[allow(dead_code)]
impl MockHost {
    fn new() -> Self {
        Self::default()
    }

    fn record(&self, name: &str) {
        self.calls.borrow_mut().push(name.to_string());
    }

    fn count(&self, name: &str) -> usize {
        self.calls.borrow().iter().filter(|c| c.as_str() == name).count()
    }

    fn unexpected(name: &str) -> ! {
        panic!("unexpected call of {name}")
    }

    fn id_call(&self, name: &str, args: &[&[u8]], out: &mut [u8]) -> i32 {
        self.record(name);
        match &self.id {
            Some(f) => f(args, out),
            None => Self::unexpected(name),
        }
    }
}

impl HostBindings for MockHost {
    fn ldgr_index(&self, out: &mut [u8]) -> i32 {
        self.record("ldgr_index");
        (self.ldgr_index.as_ref().unwrap_or_else(|| Self::unexpected("ldgr_index")))(out)
    }
    fn parent_ldgr_time(&self, out: &mut [u8]) -> i32 {
        self.record("parent_ldgr_time");
        (self.parent_ldgr_time.as_ref().unwrap_or_else(|| Self::unexpected("parent_ldgr_time")))(out)
    }
    fn parent_ldgr_hash(&self, out: &mut [u8]) -> i32 {
        self.record("parent_ldgr_hash");
        (self.parent_ldgr_hash.as_ref().unwrap_or_else(|| Self::unexpected("parent_ldgr_hash")))(out)
    }
    fn base_fee(&self, out: &mut [u8]) -> i32 {
        self.record("base_fee");
        (self.base_fee.as_ref().unwrap_or_else(|| Self::unexpected("base_fee")))(out)
    }
    fn amendment_enabled(&self, amendment: &[u8]) -> i32 {
        self.record("amendment_enabled");
        (self.amendment_enabled.as_ref().unwrap_or_else(|| Self::unexpected("amendment_enabled")))(amendment)
    }
    fn cache_le(&self, id: &[u8], cache_num: i32) -> i32 {
        self.record("cache_le");
        (self.cache_le.as_ref().unwrap_or_else(|| Self::unexpected("cache_le")))(id, cache_num)
    }
    fn tx_field(&self, field: i32, out: &mut [u8]) -> i32 {
        self.record("tx_field");
        (self.tx_field.as_ref().unwrap_or_else(|| Self::unexpected("tx_field")))(field, out)
    }
    fn home_le_field(&self, field: i32, out: &mut [u8]) -> i32 {
        self.record("home_le_field");
        (self.home_le_field.as_ref().unwrap_or_else(|| Self::unexpected("home_le_field")))(field, out)
    }
    fn le_field(&self, cache_num: i32, field: i32, out: &mut [u8]) -> i32 {
        self.record("le_field");
        (self.le_field.as_ref().unwrap_or_else(|| Self::unexpected("le_field")))(cache_num, field, out)
    }
    fn tx_inner(&self, locator: &[u8], out: &mut [u8]) -> i32 {
        self.record("tx_inner");
        (self.tx_inner.as_ref().unwrap_or_else(|| Self::unexpected("tx_inner")))(locator, out)
    }
    fn home_le_inner(&self, locator: &[u8], out: &mut [u8]) -> i32 {
        self.record("home_le_inner");
        (self.home_le_inner.as_ref().unwrap_or_else(|| Self::unexpected("home_le_inner")))(locator, out)
    }
    fn le_inner(&self, cache_num: i32, locator: &[u8], out: &mut [u8]) -> i32 {
        self.record("le_inner");
        (self.le_inner.as_ref().unwrap_or_else(|| Self::unexpected("le_inner")))(cache_num, locator, out)
    }
    fn tx_inner_arr_len(&self, locator: &[u8]) -> i32 {
        self.record("tx_inner_arr_len");
        (self.tx_inner_arr_len.as_ref().unwrap_or_else(|| Self::unexpected("tx_inner_arr_len")))(locator)
    }
    fn home_le_inner_arr_len(&self, locator: &[u8]) -> i32 {
        self.record("home_le_inner_arr_len");
        (self.home_le_inner_arr_len.as_ref().unwrap_or_else(|| Self::unexpected("home_le_inner_arr_len")))(locator)
    }
    fn le_inner_arr_len(&self, cache_num: i32, locator: &[u8]) -> i32 {
        self.record("le_inner_arr_len");
        (self.le_inner_arr_len.as_ref().unwrap_or_else(|| Self::unexpected("le_inner_arr_len")))(cache_num, locator)
    }
    fn sha512_half(&self, data: &[u8], out: &mut [u8]) -> i32 {
        self.record("sha512_half");
        (self.sha512_half.as_ref().unwrap_or_else(|| Self::unexpected("sha512_half")))(data, out)
    }
    fn check_sig(&self, message: &[u8], signature: &[u8], pubkey: &[u8]) -> i32 {
        self.record("check_sig");
        (self.check_sig.as_ref().unwrap_or_else(|| Self::unexpected("check_sig")))(message, signature, pubkey)
    }
    fn accountroot_id(&self, account: &[u8], out: &mut [u8]) -> i32 {
        self.id_call("accountroot_id", &[account], out)
    }
    fn amm_id(&self, issue1: &[u8], issue2: &[u8], out: &mut [u8]) -> i32 {
        self.id_call("amm_id", &[issue1, issue2], out)
    }
    fn check_id(&self, account: &[u8], sequence: &[u8], out: &mut [u8]) -> i32 {
        self.id_call("check_id", &[account, sequence], out)
    }
    fn credential_id(&self, subject: &[u8], issuer: &[u8], cred_type: &[u8], out: &mut [u8]) -> i32 {
        self.id_call("credential_id", &[subject, issuer, cred_type], out)
    }
    fn delegate_id(&self, account: &[u8], authorize: &[u8], out: &mut [u8]) -> i32 {
        self.id_call("delegate_id", &[account, authorize], out)
    }
    fn deposit_preauth_id(&self, account: &[u8], authorize: &[u8], out: &mut [u8]) -> i32 {
        self.id_call("deposit_preauth_id", &[account, authorize], out)
    }
    fn did_id(&self, account: &[u8], out: &mut [u8]) -> i32 {
        self.id_call("did_id", &[account], out)
    }
    fn escrow_id(&self, account: &[u8], sequence: &[u8], out: &mut [u8]) -> i32 {
        self.id_call("escrow_id", &[account, sequence], out)
    }
    fn trustline_id(&self, account1: &[u8], account2: &[u8], currency: &[u8], out: &mut [u8]) -> i32 {
        self.id_call("trustline_id", &[account1, account2, currency], out)
    }
    fn mpt_issuance_id(&self, issuer: &[u8], sequence: &[u8], out: &mut [u8]) -> i32 {
        self.id_call("mpt_issuance_id", &[issuer, sequence], out)
    }
    fn mptoken_id(&self, mptid: &[u8], holder: &[u8], out: &mut [u8]) -> i32 {
        self.id_call("mptoken_id", &[mptid, holder], out)
    }
    fn nft_offer_id(&self, account: &[u8], sequence: &[u8], out: &mut [u8]) -> i32 {
        self.id_call("nft_offer_id", &[account, sequence], out)
    }
    fn offer_id(&self, account: &[u8], sequence: &[u8], out: &mut [u8]) -> i32 {
        self.id_call("offer_id", &[account, sequence], out)
    }
    fn oracle_id(&self, account: &[u8], document_id: &[u8], out: &mut [u8]) -> i32 {
        self.id_call("oracle_id", &[account, document_id], out)
    }
    fn paychan_id(&self, account: &[u8], destination: &[u8], sequence: &[u8], out: &mut [u8]) -> i32 {
        self.id_call("paychan_id", &[account, destination, sequence], out)
    }
    fn permissioned_domain_id(&self, account: &[u8], sequence: &[u8], out: &mut [u8]) -> i32 {
        self.id_call("permissioned_domain_id", &[account, sequence], out)
    }
    fn signers_id(&self, account: &[u8], out: &mut [u8]) -> i32 {
        self.id_call("signers_id", &[account], out)
    }
    fn ticket_id(&self, account: &[u8], sequence: &[u8], out: &mut [u8]) -> i32 {
        self.id_call("ticket_id", &[account, sequence], out)
    }
    fn vault_id(&self, account: &[u8], sequence: &[u8], out: &mut [u8]) -> i32 {
        self.id_call("vault_id", &[account, sequence], out)
    }
    fn trace(&self, msg: &str, data_type: i32, data: &[u8]) {
        self.record("trace");
        self.traces.borrow_mut().push((msg.to_string(), data_type, data.to_vec()));
    }
}


use xrpl_common_stdlib::host::error_codes::FIELD_NOT_FOUND;
use xrpl_common_stdlib::objects::LedgerObject;
use xrpl_common_stdlib::objects::traits::{CurrentLedgerObjectCommonFields, LedgerObjectCommonFields};
use xrpl_common_stdlib::objects::{AMM, AccountRoot, Amendments, Bridge, Check, Contract, ContractData, ContractSource, Credential, DID, Delegate, DepositPreauth, DirectoryNode, Escrow, FeeSettings, LedgerHashes, Loan, LoanBroker, MPToken, MPTokenIssuance, NFTokenOffer, NFTokenPage, NegativeUNL, Offer, Oracle, PayChannel, PermissionedDomain, RippleState, SignerList, Ticket, Vault, XChainOwnedClaimID, XChainOwnedCreateAccountClaimID};
use xrpl_common_stdlib::host::Error;
use xrpl_common_stdlib::objects::account_root::{AccountRootFields, CurrentAccountRootFields};
use xrpl_common_stdlib::objects::amendments::{AmendmentsFields, CurrentAmendmentsFields};
use xrpl_common_stdlib::objects::amm::{AMMFields, CurrentAMMFields};
use xrpl_common_stdlib::objects::bridge::{BridgeFields, CurrentBridgeFields};
use xrpl_common_stdlib::objects::check::{CheckFields, CurrentCheckFields};
use xrpl_common_stdlib::objects::contract::{ContractFields, CurrentContractFields};
use xrpl_common_stdlib::objects::contract_data::{ContractDataFields, CurrentContractDataFields};
use xrpl_common_stdlib::objects::contract_source::{ContractSourceFields, CurrentContractSourceFields};
use xrpl_common_stdlib::objects::credential::{CredentialFields, CurrentCredentialFields};
use xrpl_common_stdlib::objects::delegate::{CurrentDelegateFields, DelegateFields};
use xrpl_common_stdlib::objects::deposit_preauth::{CurrentDepositPreauthFields, DepositPreauthFields};
use xrpl_common_stdlib::objects::did::{CurrentDIDFields, DIDFields};
use xrpl_common_stdlib::objects::directory_node::{CurrentDirectoryNodeFields, DirectoryNodeFields};
use xrpl_common_stdlib::objects::escrow::{EscrowFields};
use xrpl_common_stdlib::objects::fee_settings::{CurrentFeeSettingsFields, FeeSettingsFields};
use xrpl_common_stdlib::objects::ledger_hashes::{CurrentLedgerHashesFields, LedgerHashesFields};
use xrpl_common_stdlib::objects::loan::{CurrentLoanFields, LoanFields};
use xrpl_common_stdlib::objects::loan_broker::{CurrentLoanBrokerFields, LoanBrokerFields};
use xrpl_common_stdlib::objects::mptoken::{CurrentMPTokenFields, MPTokenFields};
use xrpl_common_stdlib::objects::mptoken_issuance::{CurrentMPTokenIssuanceFields, MPTokenIssuanceFields};
use xrpl_common_stdlib::objects::negative_unl::{CurrentNegativeUNLFields, NegativeUNLFields};
use xrpl_common_stdlib::objects::nftoken_offer::{CurrentNFTokenOfferFields, NFTokenOfferFields};
use xrpl_common_stdlib::objects::nftoken_page::{CurrentNFTokenPageFields, NFTokenPageFields};
use xrpl_common_stdlib::objects::offer::{CurrentOfferFields, OfferFields};
use xrpl_common_stdlib::objects::oracle::{CurrentOracleFields, OracleFields};
use xrpl_common_stdlib::objects::pay_channel::{CurrentPayChannelFields, PayChannelFields};
use xrpl_common_stdlib::objects::permissioned_domain::{CurrentPermissionedDomainFields, PermissionedDomainFields};
use xrpl_common_stdlib::objects::ripple_state::{CurrentRippleStateFields, RippleStateFields};
use xrpl_common_stdlib::objects::signer_list::{CurrentSignerListFields, SignerListFields};
use xrpl_common_stdlib::objects::ticket::{CurrentTicketFields, TicketFields};
use xrpl_common_stdlib::objects::vault::{CurrentVaultFields, VaultFields};
use xrpl_common_stdlib::objects::x_chain_owned_claim_id::{CurrentXChainOwnedClaimIDFields, XChainOwnedClaimIDFields};
use xrpl_common_stdlib::objects::x_chain_owned_create_account_claim_id::{CurrentXChainOwnedCreateAccountClaimIDFields, XChainOwnedCreateAccountClaimIDFields};
use xrpl_common_stdlib::sfield;
use xrpl_common_stdlib::sfield::SField;

/// A host on which every field of every object is present and fills its buffer.
fn all_fields_present() -> MockHost {
    let mut host = MockHost::new();
    host.le_field = Some(Box::new(|_, _, out| out.len() as i32));
    host.home_le_field = Some(Box::new(|_, out| out.len() as i32));
    host
}

/// A host on which no field of any object is present.
fn all_fields_not_found() -> MockHost {
    let mut host = MockHost::new();
    host.le_field = Some(Box::new(|_, _, _| FIELD_NOT_FOUND));
    host.home_le_field = Some(Box::new(|_, _| FIELD_NOT_FOUND));
    host
}

struct CurrentObject;
impl CurrentLedgerObjectCommonFields for CurrentObject {}

#[test]
fn test_new_stores_slot() {
    assert_eq!(LedgerObject::new(7).get_slot_num(), 7);
}

#[test]
fn test_inherits_common_fields() {
    let mut host = MockHost::new();
    host.le_field = Some(Box::new(|slot, field, out| {
        assert_eq!(slot, 3);
        assert_eq!(field, sfield::Flags.code());
        assert_eq!(out.len(), 4);
        4
    }));
    assert!(LedgerObject::new(3).get_flags(&mut Host::new(&host)).is_ok());
    assert_eq!(host.count("le_field"), 1);
}

#[test]
fn test_path_reads_inner_field_through_its_slot() {
    let mut host = MockHost::new();
    host.le_inner = Some(Box::new(|slot, loc, out| {
        assert_eq!(slot, 9);
        assert_eq!(loc.len(), 12);
        assert_eq!(out.len(), 8);
        8
    }));
    let result: Result<u64, xrpl_common_stdlib::host::Error> = LedgerObject::new(9)
        .path()
        .field(sfield::PriceDataSeries)
        .index(0)
        .field(sfield::AssetPrice)
        .get(&mut Host::new(&host));
    assert!(result.is_ok());
    assert_eq!(host.count("le_inner"), 1);
}

#[test]
fn test_current_object_reads_through_the_current_object_host_functions() {
    let mut host = MockHost::new();
    host.home_le_field = Some(Box::new(|field, out| {
        assert_eq!(field, sfield::Flags.code());
        out.copy_from_slice(&0x10u32.to_le_bytes());
        4
    }));
    assert_eq!(CurrentObject.get_flags(&mut Host::new(&host)), Ok(0x10));
    host.home_le_inner = Some(Box::new(|_, _| 4));
    let r: Result<u32, xrpl_common_stdlib::host::Error> = CurrentObject.path().field(sfield::Flags).get(&mut Host::new(&host));
    assert!(r.is_ok());
    assert_eq!(host.count("home_le_inner"), 1);
}


#[test]
fn account_root_read_all_fields() {
    let host = all_fields_present();
    let obj = AccountRoot::new(0);
    assert!(obj.account(&mut Host::new(&host)).is_ok());
    assert!(obj.sequence(&mut Host::new(&host)).is_ok());
    assert!(obj.balance(&mut Host::new(&host)).is_ok());
    assert!(obj.owner_count(&mut Host::new(&host)).is_ok());
    assert!(obj.previous_txn_id(&mut Host::new(&host)).is_ok());
    assert!(obj.previous_txn_lgr_seq(&mut Host::new(&host)).is_ok());
    assert!(obj.account_txn_id(&mut Host::new(&host)).is_ok());
    assert!(obj.regular_key(&mut Host::new(&host)).is_ok());
    assert!(obj.email_hash(&mut Host::new(&host)).is_ok());
    assert!(obj.wallet_locator(&mut Host::new(&host)).is_ok());
    assert!(obj.wallet_size(&mut Host::new(&host)).is_ok());
    assert!(obj.message_key(&mut Host::new(&host)).is_ok());
    assert!(obj.transfer_rate(&mut Host::new(&host)).is_ok());
    assert!(obj.domain(&mut Host::new(&host)).is_ok());
    assert!(obj.tick_size(&mut Host::new(&host)).is_ok());
    assert!(obj.ticket_count(&mut Host::new(&host)).is_ok());
    assert!(obj.nftoken_minter(&mut Host::new(&host)).is_ok());
    assert!(obj.minted_nftokens(&mut Host::new(&host)).is_ok());
    assert!(obj.burned_nftokens(&mut Host::new(&host)).is_ok());
    assert!(obj.first_nftoken_sequence(&mut Host::new(&host)).is_ok());
    assert!(obj.amm_id(&mut Host::new(&host)).is_ok());
    assert!(obj.vault_id(&mut Host::new(&host)).is_ok());
    assert!(obj.loan_broker_id(&mut Host::new(&host)).is_ok());
    assert!(obj.contract_id(&mut Host::new(&host)).is_ok());
}

#[test]
fn account_root_optional_fields_none() {
    let host = all_fields_not_found();
    let obj = AccountRoot::new(0);
    assert!(obj.account_txn_id(&mut Host::new(&host)).unwrap().is_none());
    assert!(obj.regular_key(&mut Host::new(&host)).unwrap().is_none());
    assert!(obj.email_hash(&mut Host::new(&host)).unwrap().is_none());
    assert!(obj.wallet_locator(&mut Host::new(&host)).unwrap().is_none());
    assert!(obj.wallet_size(&mut Host::new(&host)).unwrap().is_none());
    assert!(obj.transfer_rate(&mut Host::new(&host)).unwrap().is_none());
    assert!(obj.tick_size(&mut Host::new(&host)).unwrap().is_none());
    assert!(obj.ticket_count(&mut Host::new(&host)).unwrap().is_none());
    assert!(obj.nftoken_minter(&mut Host::new(&host)).unwrap().is_none());
    assert!(obj.minted_nftokens(&mut Host::new(&host)).unwrap().is_none());
    assert!(obj.burned_nftokens(&mut Host::new(&host)).unwrap().is_none());
    assert!(obj.first_nftoken_sequence(&mut Host::new(&host)).unwrap().is_none());
    assert!(obj.amm_id(&mut Host::new(&host)).unwrap().is_none());
    assert!(obj.vault_id(&mut Host::new(&host)).unwrap().is_none());
    assert!(obj.loan_broker_id(&mut Host::new(&host)).unwrap().is_none());
    assert!(obj.contract_id(&mut Host::new(&host)).unwrap().is_none());
}

#[test]
fn amendments_read_all_fields() {
    let host = all_fields_present();
    let obj = Amendments::new(0);
    assert!(obj.amendments(&mut Host::new(&host)).is_ok());
    assert!(obj.previous_txn_id(&mut Host::new(&host)).is_ok());
    assert!(obj.previous_txn_lgr_seq(&mut Host::new(&host)).is_ok());
}

#[test]
fn amendments_optional_fields_none() {
    let host = all_fields_not_found();
    let obj = Amendments::new(0);
    assert!(obj.previous_txn_id(&mut Host::new(&host)).unwrap().is_none());
    assert!(obj.previous_txn_lgr_seq(&mut Host::new(&host)).unwrap().is_none());
}

#[test]
fn amm_read_all_fields() {
    let host = all_fields_present();
    let obj = AMM::new(0);
    assert!(obj.account(&mut Host::new(&host)).is_ok());
    assert!(obj.lp_token_balance(&mut Host::new(&host)).is_ok());
    assert!(obj.asset(&mut Host::new(&host)).is_ok());
    assert!(obj.asset2(&mut Host::new(&host)).is_ok());
    assert!(obj.owner_node(&mut Host::new(&host)).is_ok());
    assert!(obj.trading_fee(&mut Host::new(&host)).is_ok());
    assert!(obj.previous_txn_id(&mut Host::new(&host)).is_ok());
    assert!(obj.previous_txn_lgr_seq(&mut Host::new(&host)).is_ok());
}

#[test]
fn amm_optional_fields_none() {
    let host = all_fields_not_found();
    let obj = AMM::new(0);
    assert!(obj.trading_fee(&mut Host::new(&host)).unwrap().is_none());
    assert!(obj.previous_txn_id(&mut Host::new(&host)).unwrap().is_none());
    assert!(obj.previous_txn_lgr_seq(&mut Host::new(&host)).unwrap().is_none());
}

#[test]
fn bridge_read_all_fields() {
    let host = all_fields_present();
    let obj = Bridge::new(0);
    assert!(obj.account(&mut Host::new(&host)).is_ok());
    assert!(obj.signature_reward(&mut Host::new(&host)).is_ok());
    assert!(obj.xchain_bridge(&mut Host::new(&host)).is_ok());
    assert!(obj.xchain_claim_id(&mut Host::new(&host)).is_ok());
    assert!(obj.xchain_account_create_count(&mut Host::new(&host)).is_ok());
    assert!(obj.xchain_account_claim_count(&mut Host::new(&host)).is_ok());
    assert!(obj.owner_node(&mut Host::new(&host)).is_ok());
    assert!(obj.previous_txn_id(&mut Host::new(&host)).is_ok());
    assert!(obj.previous_txn_lgr_seq(&mut Host::new(&host)).is_ok());
    assert!(obj.min_account_create_amount(&mut Host::new(&host)).is_ok());
}

#[test]
fn check_read_all_fields() {
    let host = all_fields_present();
    let obj = Check::new(0);
    assert!(obj.account(&mut Host::new(&host)).is_ok());
    assert!(obj.destination(&mut Host::new(&host)).is_ok());
    assert!(obj.send_max(&mut Host::new(&host)).is_ok());
    assert!(obj.sequence(&mut Host::new(&host)).is_ok());
    assert!(obj.owner_node(&mut Host::new(&host)).is_ok());
    assert!(obj.destination_node(&mut Host::new(&host)).is_ok());
    assert!(obj.previous_txn_id(&mut Host::new(&host)).is_ok());
    assert!(obj.previous_txn_lgr_seq(&mut Host::new(&host)).is_ok());
    assert!(obj.expiration(&mut Host::new(&host)).is_ok());
    assert!(obj.invoice_id(&mut Host::new(&host)).is_ok());
    assert!(obj.source_tag(&mut Host::new(&host)).is_ok());
    assert!(obj.destination_tag(&mut Host::new(&host)).is_ok());
}

#[test]
fn check_optional_fields_none() {
    let host = all_fields_not_found();
    let obj = Check::new(0);
    assert!(obj.expiration(&mut Host::new(&host)).unwrap().is_none());
    assert!(obj.invoice_id(&mut Host::new(&host)).unwrap().is_none());
    assert!(obj.source_tag(&mut Host::new(&host)).unwrap().is_none());
    assert!(obj.destination_tag(&mut Host::new(&host)).unwrap().is_none());
}

#[test]
fn contract_read_all_fields() {
    let host = all_fields_present();
    let obj = Contract::new(0);
    assert!(obj.get_previous_txn_id(&mut Host::new(&host)).is_ok());
    assert!(obj.get_previous_txn_lgr_seq(&mut Host::new(&host)).is_ok());
    assert!(obj.get_sequence(&mut Host::new(&host)).is_ok());
    assert!(obj.get_owner_node(&mut Host::new(&host)).is_ok());
    assert!(obj.get_owner(&mut Host::new(&host)).is_ok());
    assert!(obj.get_contract_account(&mut Host::new(&host)).is_ok());
    assert!(obj.get_contract_hash(&mut Host::new(&host)).is_ok());
    assert!(obj.get_uri(&mut Host::new(&host)).is_ok());
}

#[test]
fn contract_data_read_all_fields() {
    let host = all_fields_present();
    let obj = ContractData::new(0);
    assert!(obj.previous_txn_id(&mut Host::new(&host)).is_ok());
    assert!(obj.previous_txn_lgr_seq(&mut Host::new(&host)).is_ok());
    assert!(obj.owner_node(&mut Host::new(&host)).is_ok());
    assert!(obj.owner(&mut Host::new(&host)).is_ok());
    assert!(obj.contract_account(&mut Host::new(&host)).is_ok());
    assert!(obj.contract_json(&mut Host::new(&host)).is_ok());
}

#[test]
fn contract_source_read_all_fields() {
    let host = all_fields_present();
    let obj = ContractSource::new(0);
    assert!(obj.previous_txn_id(&mut Host::new(&host)).is_ok());
    assert!(obj.previous_txn_lgr_seq(&mut Host::new(&host)).is_ok());
    assert!(obj.contract_hash(&mut Host::new(&host)).is_ok());
    assert!(obj.contract_code(&mut Host::new(&host)).is_ok());
    assert!(obj.reference_count(&mut Host::new(&host)).is_ok());
}

#[test]
fn credential_read_all_fields() {
    let host = all_fields_present();
    let obj = Credential::new(0);
    assert!(obj.subject(&mut Host::new(&host)).is_ok());
    assert!(obj.issuer(&mut Host::new(&host)).is_ok());
    assert!(obj.credential_type(&mut Host::new(&host)).is_ok());
    assert!(obj.issuer_node(&mut Host::new(&host)).is_ok());
    assert!(obj.previous_txn_id(&mut Host::new(&host)).is_ok());
    assert!(obj.previous_txn_lgr_seq(&mut Host::new(&host)).is_ok());
    assert!(obj.expiration(&mut Host::new(&host)).is_ok());
    assert!(obj.uri(&mut Host::new(&host)).is_ok());
    assert!(obj.subject_node(&mut Host::new(&host)).is_ok());
}

#[test]
fn credential_optional_fields_none() {
    let host = all_fields_not_found();
    let obj = Credential::new(0);
    assert!(obj.expiration(&mut Host::new(&host)).unwrap().is_none());
    assert!(obj.subject_node(&mut Host::new(&host)).unwrap().is_none());
}

#[test]
fn delegate_read_all_fields() {
    let host = all_fields_present();
    let obj = Delegate::new(0);
    assert!(obj.account(&mut Host::new(&host)).is_ok());
    assert!(obj.authorize(&mut Host::new(&host)).is_ok());
    assert!(obj.owner_node(&mut Host::new(&host)).is_ok());
    assert!(obj.previous_txn_id(&mut Host::new(&host)).is_ok());
    assert!(obj.previous_txn_lgr_seq(&mut Host::new(&host)).is_ok());
    assert!(obj.destination_node(&mut Host::new(&host)).is_ok());
}

#[test]
fn delegate_optional_fields_none() {
    let host = all_fields_not_found();
    let obj = Delegate::new(0);
    assert!(obj.destination_node(&mut Host::new(&host)).unwrap().is_none());
}

#[test]
fn did_read_all_fields() {
    let host = all_fields_present();
    let obj = DID::new(0);
    assert!(obj.account(&mut Host::new(&host)).is_ok());
    assert!(obj.owner_node(&mut Host::new(&host)).is_ok());
    assert!(obj.previous_txn_id(&mut Host::new(&host)).is_ok());
    assert!(obj.previous_txn_lgr_seq(&mut Host::new(&host)).is_ok());
    assert!(obj.did_document(&mut Host::new(&host)).is_ok());
    assert!(obj.uri(&mut Host::new(&host)).is_ok());
    assert!(obj.data(&mut Host::new(&host)).is_ok());
}

#[test]
fn directory_node_read_all_fields() {
    let host = all_fields_present();
    let obj = DirectoryNode::new(0);
    assert!(obj.indexes(&mut Host::new(&host)).is_ok());
    assert!(obj.root_index(&mut Host::new(&host)).is_ok());
    assert!(obj.owner(&mut Host::new(&host)).is_ok());
    assert!(obj.taker_pays_currency(&mut Host::new(&host)).is_ok());
    assert!(obj.taker_pays_issuer(&mut Host::new(&host)).is_ok());
    assert!(obj.taker_pays_mpt(&mut Host::new(&host)).is_ok());
    assert!(obj.taker_gets_currency(&mut Host::new(&host)).is_ok());
    assert!(obj.taker_gets_issuer(&mut Host::new(&host)).is_ok());
    assert!(obj.taker_gets_mpt(&mut Host::new(&host)).is_ok());
    assert!(obj.exchange_rate(&mut Host::new(&host)).is_ok());
    assert!(obj.index_next(&mut Host::new(&host)).is_ok());
    assert!(obj.index_previous(&mut Host::new(&host)).is_ok());
    assert!(obj.nftoken_id(&mut Host::new(&host)).is_ok());
    assert!(obj.previous_txn_id(&mut Host::new(&host)).is_ok());
    assert!(obj.previous_txn_lgr_seq(&mut Host::new(&host)).is_ok());
    assert!(obj.domain_id(&mut Host::new(&host)).is_ok());
}

#[test]
fn directory_node_optional_fields_none() {
    let host = all_fields_not_found();
    let obj = DirectoryNode::new(0);
    assert!(obj.owner(&mut Host::new(&host)).unwrap().is_none());
    assert!(obj.taker_pays_currency(&mut Host::new(&host)).unwrap().is_none());
    assert!(obj.taker_pays_issuer(&mut Host::new(&host)).unwrap().is_none());
    assert!(obj.taker_pays_mpt(&mut Host::new(&host)).unwrap().is_none());
    assert!(obj.taker_gets_currency(&mut Host::new(&host)).unwrap().is_none());
    assert!(obj.taker_gets_issuer(&mut Host::new(&host)).unwrap().is_none());
    assert!(obj.taker_gets_mpt(&mut Host::new(&host)).unwrap().is_none());
    assert!(obj.exchange_rate(&mut Host::new(&host)).unwrap().is_none());
    assert!(obj.index_next(&mut Host::new(&host)).unwrap().is_none());
    assert!(obj.index_previous(&mut Host::new(&host)).unwrap().is_none());
    assert!(obj.nftoken_id(&mut Host::new(&host)).unwrap().is_none());
    assert!(obj.previous_txn_id(&mut Host::new(&host)).unwrap().is_none());
    assert!(obj.previous_txn_lgr_seq(&mut Host::new(&host)).unwrap().is_none());
    assert!(obj.domain_id(&mut Host::new(&host)).unwrap().is_none());
}

#[test]
fn escrow_read_all_fields() {
    let host = all_fields_present();
    let obj = Escrow::new(0);
    assert!(obj.account(&mut Host::new(&host)).is_ok());
    assert!(obj.destination(&mut Host::new(&host)).is_ok());
    assert!(obj.amount(&mut Host::new(&host)).is_ok());
    assert!(obj.owner_node(&mut Host::new(&host)).is_ok());
    assert!(obj.previous_txn_id(&mut Host::new(&host)).is_ok());
    assert!(obj.previous_txn_lgr_seq(&mut Host::new(&host)).is_ok());
    assert!(obj.sequence(&mut Host::new(&host)).is_ok());
    assert!(obj.condition(&mut Host::new(&host)).is_ok());
    assert!(obj.cancel_after(&mut Host::new(&host)).is_ok());
    assert!(obj.finish_after(&mut Host::new(&host)).is_ok());
    assert!(obj.bytecode(&mut Host::new(&host)).is_ok());
    assert!(obj.data(&mut Host::new(&host)).is_ok());
    assert!(obj.source_tag(&mut Host::new(&host)).is_ok());
    assert!(obj.destination_tag(&mut Host::new(&host)).is_ok());
    assert!(obj.destination_node(&mut Host::new(&host)).is_ok());
    assert!(obj.transfer_rate(&mut Host::new(&host)).is_ok());
    assert!(obj.issuer_node(&mut Host::new(&host)).is_ok());
}

#[test]
fn escrow_optional_fields_none() {
    let host = all_fields_not_found();
    let obj = Escrow::new(0);
    assert!(obj.sequence(&mut Host::new(&host)).unwrap().is_none());
    assert!(obj.cancel_after(&mut Host::new(&host)).unwrap().is_none());
    assert!(obj.finish_after(&mut Host::new(&host)).unwrap().is_none());
    assert!(obj.source_tag(&mut Host::new(&host)).unwrap().is_none());
    assert!(obj.destination_tag(&mut Host::new(&host)).unwrap().is_none());
    assert!(obj.destination_node(&mut Host::new(&host)).unwrap().is_none());
    assert!(obj.transfer_rate(&mut Host::new(&host)).unwrap().is_none());
    assert!(obj.issuer_node(&mut Host::new(&host)).unwrap().is_none());
}

#[test]
fn fee_settings_read_all_fields() {
    let host = all_fields_present();
    let obj = FeeSettings::new(0);
    assert!(obj.get_base_fee(&mut Host::new(&host)).is_ok());
    assert!(obj.get_reference_fee_units(&mut Host::new(&host)).is_ok());
    assert!(obj.get_reserve_base(&mut Host::new(&host)).is_ok());
    assert!(obj.get_reserve_increment(&mut Host::new(&host)).is_ok());
    assert!(obj.get_base_fee_drops(&mut Host::new(&host)).is_ok());
    assert!(obj.get_reserve_base_drops(&mut Host::new(&host)).is_ok());
    assert!(obj.get_reserve_increment_drops(&mut Host::new(&host)).is_ok());
    assert!(obj.get_extension_compute_limit(&mut Host::new(&host)).is_ok());
    assert!(obj.get_extension_size_limit(&mut Host::new(&host)).is_ok());
    assert!(obj.get_gas_price(&mut Host::new(&host)).is_ok());
    assert!(obj.get_previous_txn_id(&mut Host::new(&host)).is_ok());
    assert!(obj.get_previous_txn_lgr_seq(&mut Host::new(&host)).is_ok());
}

#[test]
fn fee_settings_optional_fields_none() {
    let host = all_fields_not_found();
    let obj = FeeSettings::new(0);
    assert!(obj.get_base_fee(&mut Host::new(&host)).unwrap().is_none());
    assert!(obj.get_reference_fee_units(&mut Host::new(&host)).unwrap().is_none());
    assert!(obj.get_reserve_base(&mut Host::new(&host)).unwrap().is_none());
    assert!(obj.get_reserve_increment(&mut Host::new(&host)).unwrap().is_none());
    assert!(obj.get_extension_compute_limit(&mut Host::new(&host)).unwrap().is_none());
    assert!(obj.get_extension_size_limit(&mut Host::new(&host)).unwrap().is_none());
    assert!(obj.get_gas_price(&mut Host::new(&host)).unwrap().is_none());
    assert!(obj.get_previous_txn_id(&mut Host::new(&host)).unwrap().is_none());
    assert!(obj.get_previous_txn_lgr_seq(&mut Host::new(&host)).unwrap().is_none());
}

#[test]
fn ledger_hashes_read_all_fields() {
    let host = all_fields_present();
    let obj = LedgerHashes::new(0);
    assert!(obj.hashes(&mut Host::new(&host)).is_ok());
    assert!(obj.first_ledger_sequence(&mut Host::new(&host)).is_ok());
    assert!(obj.last_ledger_sequence(&mut Host::new(&host)).is_ok());
}

#[test]
fn ledger_hashes_optional_fields_none() {
    let host = all_fields_not_found();
    let obj = LedgerHashes::new(0);
    assert!(obj.first_ledger_sequence(&mut Host::new(&host)).unwrap().is_none());
    assert!(obj.last_ledger_sequence(&mut Host::new(&host)).unwrap().is_none());
}

#[test]
fn loan_read_all_fields() {
    let host = all_fields_present();
    let obj = Loan::new(0);
    assert!(obj.previous_txn_id(&mut Host::new(&host)).is_ok());
    assert!(obj.previous_txn_lgr_seq(&mut Host::new(&host)).is_ok());
    assert!(obj.owner_node(&mut Host::new(&host)).is_ok());
    assert!(obj.loan_broker_node(&mut Host::new(&host)).is_ok());
    assert!(obj.loan_broker_id(&mut Host::new(&host)).is_ok());
    assert!(obj.loan_sequence(&mut Host::new(&host)).is_ok());
    assert!(obj.borrower(&mut Host::new(&host)).is_ok());
    assert!(obj.start_date(&mut Host::new(&host)).is_ok());
    assert!(obj.payment_interval(&mut Host::new(&host)).is_ok());
    assert!(obj.periodic_payment(&mut Host::new(&host)).is_ok());
    assert!(obj.loan_origination_fee(&mut Host::new(&host)).is_ok());
    assert!(obj.loan_service_fee(&mut Host::new(&host)).is_ok());
    assert!(obj.late_payment_fee(&mut Host::new(&host)).is_ok());
    assert!(obj.close_payment_fee(&mut Host::new(&host)).is_ok());
    assert!(obj.overpayment_fee(&mut Host::new(&host)).is_ok());
    assert!(obj.interest_rate(&mut Host::new(&host)).is_ok());
    assert!(obj.late_interest_rate(&mut Host::new(&host)).is_ok());
    assert!(obj.close_interest_rate(&mut Host::new(&host)).is_ok());
    assert!(obj.overpayment_interest_rate(&mut Host::new(&host)).is_ok());
    assert!(obj.grace_period(&mut Host::new(&host)).is_ok());
    assert!(obj.previous_payment_due_date(&mut Host::new(&host)).is_ok());
    assert!(obj.next_payment_due_date(&mut Host::new(&host)).is_ok());
    assert!(obj.payment_remaining(&mut Host::new(&host)).is_ok());
    assert!(obj.principal_outstanding(&mut Host::new(&host)).is_ok());
    assert!(obj.total_value_outstanding(&mut Host::new(&host)).is_ok());
    assert!(obj.management_fee_outstanding(&mut Host::new(&host)).is_ok());
    assert!(obj.loan_scale(&mut Host::new(&host)).is_ok());
}

#[test]
fn loan_optional_fields_none() {
    let host = all_fields_not_found();
    let obj = Loan::new(0);
    assert!(obj.overpayment_fee(&mut Host::new(&host)).unwrap().is_none());
    assert!(obj.interest_rate(&mut Host::new(&host)).unwrap().is_none());
    assert!(obj.late_interest_rate(&mut Host::new(&host)).unwrap().is_none());
    assert!(obj.close_interest_rate(&mut Host::new(&host)).unwrap().is_none());
    assert!(obj.overpayment_interest_rate(&mut Host::new(&host)).unwrap().is_none());
    assert!(obj.grace_period(&mut Host::new(&host)).unwrap().is_none());
    assert!(obj.previous_payment_due_date(&mut Host::new(&host)).unwrap().is_none());
    assert!(obj.next_payment_due_date(&mut Host::new(&host)).unwrap().is_none());
    assert!(obj.payment_remaining(&mut Host::new(&host)).unwrap().is_none());
}

#[test]
fn loan_broker_read_all_fields() {
    let host = all_fields_present();
    let obj = LoanBroker::new(0);
    assert!(obj.previous_txn_id(&mut Host::new(&host)).is_ok());
    assert!(obj.previous_txn_lgr_seq(&mut Host::new(&host)).is_ok());
    assert!(obj.sequence(&mut Host::new(&host)).is_ok());
    assert!(obj.owner_node(&mut Host::new(&host)).is_ok());
    assert!(obj.vault_node(&mut Host::new(&host)).is_ok());
    assert!(obj.vault_id(&mut Host::new(&host)).is_ok());
    assert!(obj.account(&mut Host::new(&host)).is_ok());
    assert!(obj.owner(&mut Host::new(&host)).is_ok());
    assert!(obj.loan_sequence(&mut Host::new(&host)).is_ok());
    assert!(obj.data(&mut Host::new(&host)).is_ok());
    assert!(obj.management_fee_rate(&mut Host::new(&host)).is_ok());
    assert!(obj.owner_count(&mut Host::new(&host)).is_ok());
    assert!(obj.debt_total(&mut Host::new(&host)).is_ok());
    assert!(obj.debt_maximum(&mut Host::new(&host)).is_ok());
    assert!(obj.cover_available(&mut Host::new(&host)).is_ok());
    assert!(obj.cover_rate_minimum(&mut Host::new(&host)).is_ok());
    assert!(obj.cover_rate_liquidation(&mut Host::new(&host)).is_ok());
}

#[test]
fn loan_broker_optional_fields_none() {
    let host = all_fields_not_found();
    let obj = LoanBroker::new(0);
    assert!(obj.management_fee_rate(&mut Host::new(&host)).unwrap().is_none());
    assert!(obj.owner_count(&mut Host::new(&host)).unwrap().is_none());
    assert!(obj.cover_rate_minimum(&mut Host::new(&host)).unwrap().is_none());
    assert!(obj.cover_rate_liquidation(&mut Host::new(&host)).unwrap().is_none());
}

#[test]
fn mptoken_read_all_fields() {
    let host = all_fields_present();
    let obj = MPToken::new(0);
    assert!(obj.account(&mut Host::new(&host)).is_ok());
    assert!(obj.mptoken_issuance_id(&mut Host::new(&host)).is_ok());
    assert!(obj.owner_node(&mut Host::new(&host)).is_ok());
    assert!(obj.previous_txn_id(&mut Host::new(&host)).is_ok());
    assert!(obj.previous_txn_lgr_seq(&mut Host::new(&host)).is_ok());
    assert!(obj.mpt_amount(&mut Host::new(&host)).is_ok());
    assert!(obj.locked_amount(&mut Host::new(&host)).is_ok());
    assert!(obj.confidential_balance_inbox(&mut Host::new(&host)).is_ok());
    assert!(obj.confidential_balance_spending(&mut Host::new(&host)).is_ok());
    assert!(obj.confidential_balance_version(&mut Host::new(&host)).is_ok());
    assert!(obj.issuer_encrypted_balance(&mut Host::new(&host)).is_ok());
    assert!(obj.auditor_encrypted_balance(&mut Host::new(&host)).is_ok());
    assert!(obj.holder_encryption_key(&mut Host::new(&host)).is_ok());
}

#[test]
fn mptoken_optional_fields_none() {
    let host = all_fields_not_found();
    let obj = MPToken::new(0);
    assert!(obj.mpt_amount(&mut Host::new(&host)).unwrap().is_none());
    assert!(obj.locked_amount(&mut Host::new(&host)).unwrap().is_none());
    assert!(obj.confidential_balance_version(&mut Host::new(&host)).unwrap().is_none());
}

#[test]
fn mptoken_issuance_read_all_fields() {
    let host = all_fields_present();
    let obj = MPTokenIssuance::new(0);
    assert!(obj.get_issuer(&mut Host::new(&host)).is_ok());
    assert!(obj.get_sequence(&mut Host::new(&host)).is_ok());
    assert!(obj.get_owner_node(&mut Host::new(&host)).is_ok());
    assert!(obj.get_outstanding_amount(&mut Host::new(&host)).is_ok());
    assert!(obj.get_previous_txn_id(&mut Host::new(&host)).is_ok());
    assert!(obj.get_previous_txn_lgr_seq(&mut Host::new(&host)).is_ok());
    assert!(obj.get_transfer_fee(&mut Host::new(&host)).is_ok());
    assert!(obj.get_asset_scale(&mut Host::new(&host)).is_ok());
    assert!(obj.get_maximum_amount(&mut Host::new(&host)).is_ok());
    assert!(obj.get_locked_amount(&mut Host::new(&host)).is_ok());
    assert!(obj.get_mptoken_metadata(&mut Host::new(&host)).is_ok());
    assert!(obj.get_domain_id(&mut Host::new(&host)).is_ok());
    assert!(obj.get_mutable_flags(&mut Host::new(&host)).is_ok());
}

#[test]
fn mptoken_issuance_optional_fields_none() {
    let host = all_fields_not_found();
    let obj = MPTokenIssuance::new(0);
    assert!(obj.get_transfer_fee(&mut Host::new(&host)).unwrap().is_none());
    assert!(obj.get_asset_scale(&mut Host::new(&host)).unwrap().is_none());
    assert!(obj.get_maximum_amount(&mut Host::new(&host)).unwrap().is_none());
    assert!(obj.get_locked_amount(&mut Host::new(&host)).unwrap().is_none());
    assert!(obj.get_domain_id(&mut Host::new(&host)).unwrap().is_none());
    assert!(obj.get_mutable_flags(&mut Host::new(&host)).unwrap().is_none());
}

#[test]
fn negative_unl_read_all_fields() {
    let host = all_fields_present();
    let obj = NegativeUNL::new(0);
    assert!(obj.get_validator_to_disable(&mut Host::new(&host)).is_ok());
    assert!(obj.get_validator_to_re_enable(&mut Host::new(&host)).is_ok());
    assert!(obj.get_previous_txn_id(&mut Host::new(&host)).is_ok());
    assert!(obj.get_previous_txn_lgr_seq(&mut Host::new(&host)).is_ok());
}

#[test]
fn negative_unl_optional_fields_none() {
    let host = all_fields_not_found();
    let obj = NegativeUNL::new(0);
    assert!(obj.get_previous_txn_id(&mut Host::new(&host)).unwrap().is_none());
    assert!(obj.get_previous_txn_lgr_seq(&mut Host::new(&host)).unwrap().is_none());
}

#[test]
fn nftoken_offer_read_all_fields() {
    let host = all_fields_present();
    let obj = NFTokenOffer::new(0);
    assert!(obj.get_owner(&mut Host::new(&host)).is_ok());
    assert!(obj.get_nftoken_id(&mut Host::new(&host)).is_ok());
    assert!(obj.get_amount(&mut Host::new(&host)).is_ok());
    assert!(obj.get_owner_node(&mut Host::new(&host)).is_ok());
    assert!(obj.get_nftoken_offer_node(&mut Host::new(&host)).is_ok());
    assert!(obj.get_previous_txn_id(&mut Host::new(&host)).is_ok());
    assert!(obj.get_previous_txn_lgr_seq(&mut Host::new(&host)).is_ok());
    assert!(obj.get_destination(&mut Host::new(&host)).is_ok());
    assert!(obj.get_expiration(&mut Host::new(&host)).is_ok());
}

#[test]
fn nftoken_offer_optional_fields_none() {
    let host = all_fields_not_found();
    let obj = NFTokenOffer::new(0);
    assert!(obj.get_destination(&mut Host::new(&host)).unwrap().is_none());
    assert!(obj.get_expiration(&mut Host::new(&host)).unwrap().is_none());
}

#[test]
fn nftoken_page_read_all_fields() {
    let host = all_fields_present();
    let obj = NFTokenPage::new(0);
    assert!(obj.get_previous_txn_id(&mut Host::new(&host)).is_ok());
    assert!(obj.get_previous_txn_lgr_seq(&mut Host::new(&host)).is_ok());
    assert!(obj.get_previous_page_min(&mut Host::new(&host)).is_ok());
    assert!(obj.get_next_page_min(&mut Host::new(&host)).is_ok());
}

#[test]
fn nftoken_page_optional_fields_none() {
    let host = all_fields_not_found();
    let obj = NFTokenPage::new(0);
    assert!(obj.get_previous_page_min(&mut Host::new(&host)).unwrap().is_none());
    assert!(obj.get_next_page_min(&mut Host::new(&host)).unwrap().is_none());
}

#[test]
fn offer_read_all_fields() {
    let host = all_fields_present();
    let obj = Offer::new(0);
    assert!(obj.account(&mut Host::new(&host)).is_ok());
    assert!(obj.sequence(&mut Host::new(&host)).is_ok());
    assert!(obj.taker_pays(&mut Host::new(&host)).is_ok());
    assert!(obj.taker_gets(&mut Host::new(&host)).is_ok());
    assert!(obj.book_directory(&mut Host::new(&host)).is_ok());
    assert!(obj.book_node(&mut Host::new(&host)).is_ok());
    assert!(obj.owner_node(&mut Host::new(&host)).is_ok());
    assert!(obj.previous_txn_id(&mut Host::new(&host)).is_ok());
    assert!(obj.previous_txn_lgr_seq(&mut Host::new(&host)).is_ok());
    assert!(obj.expiration(&mut Host::new(&host)).is_ok());
    assert!(obj.domain_id(&mut Host::new(&host)).is_ok());
}

#[test]
fn offer_optional_fields_none() {
    let host = all_fields_not_found();
    let obj = Offer::new(0);
    assert!(obj.expiration(&mut Host::new(&host)).unwrap().is_none());
    assert!(obj.domain_id(&mut Host::new(&host)).unwrap().is_none());
}

/// A host on which every field of the object in `slot` is present; a read of any other slot
/// fails the test.
fn slot_host(slot: i32) -> MockHost {
    let mut host = MockHost::new();
    host.le_field = Some(Box::new(move |s, _, out| {
        assert_eq!(s, slot);
        out.len() as i32
    }));
    host
}


#[test]
fn account_root_getters_read_through_the_slot() {
    let host = slot_host(5);
    let obj = AccountRoot::new(5);
    assert!(obj.account(&mut Host::new(&host)).is_ok());
    assert!(obj.sequence(&mut Host::new(&host)).is_ok());
    assert!(obj.balance(&mut Host::new(&host)).is_ok());
    assert!(obj.owner_count(&mut Host::new(&host)).is_ok());
    assert!(obj.previous_txn_id(&mut Host::new(&host)).is_ok());
    assert!(obj.previous_txn_lgr_seq(&mut Host::new(&host)).is_ok());
    assert!(obj.account_txn_id(&mut Host::new(&host)).is_ok());
    assert!(obj.regular_key(&mut Host::new(&host)).is_ok());
    assert!(obj.email_hash(&mut Host::new(&host)).is_ok());
    assert!(obj.wallet_locator(&mut Host::new(&host)).is_ok());
    assert!(obj.wallet_size(&mut Host::new(&host)).is_ok());
    assert!(obj.message_key(&mut Host::new(&host)).is_ok());
    assert!(obj.transfer_rate(&mut Host::new(&host)).is_ok());
    assert!(obj.domain(&mut Host::new(&host)).is_ok());
    assert!(obj.tick_size(&mut Host::new(&host)).is_ok());
    assert!(obj.ticket_count(&mut Host::new(&host)).is_ok());
    assert!(obj.nftoken_minter(&mut Host::new(&host)).is_ok());
    assert!(obj.minted_nftokens(&mut Host::new(&host)).is_ok());
    assert!(obj.burned_nftokens(&mut Host::new(&host)).is_ok());
    assert!(obj.first_nftoken_sequence(&mut Host::new(&host)).is_ok());
    assert!(obj.amm_id(&mut Host::new(&host)).is_ok());
    assert!(obj.vault_id(&mut Host::new(&host)).is_ok());
    assert!(obj.loan_broker_id(&mut Host::new(&host)).is_ok());
    assert!(obj.contract_id(&mut Host::new(&host)).is_ok());
    assert_eq!(host.count("le_field"), 24);
}

#[test]
fn account_root_missing_fields() {
    let host = all_fields_not_found();
    let obj = AccountRoot::new(0);
    assert_eq!(obj.account(&mut Host::new(&host)).err(), Some(Error::FieldNotFound));
    assert_eq!(obj.sequence(&mut Host::new(&host)).err(), Some(Error::FieldNotFound));
    assert_eq!(obj.balance(&mut Host::new(&host)).err(), Some(Error::FieldNotFound));
    assert_eq!(obj.owner_count(&mut Host::new(&host)).err(), Some(Error::FieldNotFound));
    assert_eq!(obj.previous_txn_id(&mut Host::new(&host)).err(), Some(Error::FieldNotFound));
    assert_eq!(obj.previous_txn_lgr_seq(&mut Host::new(&host)).err(), Some(Error::FieldNotFound));
    assert_eq!(obj.account_txn_id(&mut Host::new(&host)), Ok(None));
    assert_eq!(obj.regular_key(&mut Host::new(&host)), Ok(None));
    assert_eq!(obj.email_hash(&mut Host::new(&host)), Ok(None));
    assert_eq!(obj.wallet_locator(&mut Host::new(&host)), Ok(None));
    assert_eq!(obj.wallet_size(&mut Host::new(&host)), Ok(None));
    assert_eq!(obj.message_key(&mut Host::new(&host)), Ok(None));
    assert_eq!(obj.transfer_rate(&mut Host::new(&host)), Ok(None));
    assert_eq!(obj.domain(&mut Host::new(&host)), Ok(None));
    assert_eq!(obj.tick_size(&mut Host::new(&host)), Ok(None));
    assert_eq!(obj.ticket_count(&mut Host::new(&host)), Ok(None));
    assert_eq!(obj.nftoken_minter(&mut Host::new(&host)), Ok(None));
    assert_eq!(obj.minted_nftokens(&mut Host::new(&host)), Ok(None));
    assert_eq!(obj.burned_nftokens(&mut Host::new(&host)), Ok(None));
    assert_eq!(obj.first_nftoken_sequence(&mut Host::new(&host)), Ok(None));
    assert_eq!(obj.amm_id(&mut Host::new(&host)), Ok(None));
    assert_eq!(obj.vault_id(&mut Host::new(&host)), Ok(None));
    assert_eq!(obj.loan_broker_id(&mut Host::new(&host)), Ok(None));
    assert_eq!(obj.contract_id(&mut Host::new(&host)), Ok(None));
}

impl CurrentAccountRootFields for CurrentObject {}

#[test]
fn account_root_current_getters_read_the_current_object() {
    let host = all_fields_present();
    assert!(CurrentAccountRootFields::account(&CurrentObject, &mut Host::new(&host)).is_ok());
    assert!(CurrentAccountRootFields::sequence(&CurrentObject, &mut Host::new(&host)).is_ok());
    assert!(CurrentAccountRootFields::balance(&CurrentObject, &mut Host::new(&host)).is_ok());
    assert!(CurrentAccountRootFields::owner_count(&CurrentObject, &mut Host::new(&host)).is_ok());
    assert!(CurrentAccountRootFields::previous_txn_id(&CurrentObject, &mut Host::new(&host)).is_ok());
    assert!(CurrentAccountRootFields::previous_txn_lgr_seq(&CurrentObject, &mut Host::new(&host)).is_ok());
    assert!(CurrentAccountRootFields::account_txn_id(&CurrentObject, &mut Host::new(&host)).is_ok());
    assert!(CurrentAccountRootFields::regular_key(&CurrentObject, &mut Host::new(&host)).is_ok());
    assert!(CurrentAccountRootFields::email_hash(&CurrentObject, &mut Host::new(&host)).is_ok());
    assert!(CurrentAccountRootFields::wallet_locator(&CurrentObject, &mut Host::new(&host)).is_ok());
    assert!(CurrentAccountRootFields::wallet_size(&CurrentObject, &mut Host::new(&host)).is_ok());
    assert!(CurrentAccountRootFields::message_key(&CurrentObject, &mut Host::new(&host)).is_ok());
    assert!(CurrentAccountRootFields::transfer_rate(&CurrentObject, &mut Host::new(&host)).is_ok());
    assert!(CurrentAccountRootFields::domain(&CurrentObject, &mut Host::new(&host)).is_ok());
    assert!(CurrentAccountRootFields::tick_size(&CurrentObject, &mut Host::new(&host)).is_ok());
    assert!(CurrentAccountRootFields::ticket_count(&CurrentObject, &mut Host::new(&host)).is_ok());
    assert!(CurrentAccountRootFields::nftoken_minter(&CurrentObject, &mut Host::new(&host)).is_ok());
    assert!(CurrentAccountRootFields::minted_nftokens(&CurrentObject, &mut Host::new(&host)).is_ok());
    assert!(CurrentAccountRootFields::burned_nftokens(&CurrentObject, &mut Host::new(&host)).is_ok());
    assert!(CurrentAccountRootFields::first_nftoken_sequence(&CurrentObject, &mut Host::new(&host)).is_ok());
    assert!(CurrentAccountRootFields::amm_id(&CurrentObject, &mut Host::new(&host)).is_ok());
    assert!(CurrentAccountRootFields::vault_id(&CurrentObject, &mut Host::new(&host)).is_ok());
    assert!(CurrentAccountRootFields::loan_broker_id(&CurrentObject, &mut Host::new(&host)).is_ok());
    assert!(CurrentAccountRootFields::contract_id(&CurrentObject, &mut Host::new(&host)).is_ok());
    assert_eq!(host.count("home_le_field"), 24);
    assert_eq!(host.count("le_field"), 0);
    let missing = all_fields_not_found();
    assert_eq!(CurrentAccountRootFields::account(&CurrentObject, &mut Host::new(&missing)).err(), Some(Error::FieldNotFound));
    assert_eq!(CurrentAccountRootFields::sequence(&CurrentObject, &mut Host::new(&missing)).err(), Some(Error::FieldNotFound));
    assert_eq!(CurrentAccountRootFields::balance(&CurrentObject, &mut Host::new(&missing)).err(), Some(Error::FieldNotFound));
    assert_eq!(CurrentAccountRootFields::owner_count(&CurrentObject, &mut Host::new(&missing)).err(), Some(Error::FieldNotFound));
    assert_eq!(CurrentAccountRootFields::previous_txn_id(&CurrentObject, &mut Host::new(&missing)).err(), Some(Error::FieldNotFound));
    assert_eq!(CurrentAccountRootFields::previous_txn_lgr_seq(&CurrentObject, &mut Host::new(&missing)).err(), Some(Error::FieldNotFound));
    assert_eq!(CurrentAccountRootFields::account_txn_id(&CurrentObject, &mut Host::new(&missing)), Ok(None));
    assert_eq!(CurrentAccountRootFields::regular_key(&CurrentObject, &mut Host::new(&missing)), Ok(None));
    assert_eq!(CurrentAccountRootFields::email_hash(&CurrentObject, &mut Host::new(&missing)), Ok(None));
    assert_eq!(CurrentAccountRootFields::wallet_locator(&CurrentObject, &mut Host::new(&missing)), Ok(None));
    assert_eq!(CurrentAccountRootFields::wallet_size(&CurrentObject, &mut Host::new(&missing)), Ok(None));
    assert_eq!(CurrentAccountRootFields::message_key(&CurrentObject, &mut Host::new(&missing)), Ok(None));
    assert_eq!(CurrentAccountRootFields::transfer_rate(&CurrentObject, &mut Host::new(&missing)), Ok(None));
    assert_eq!(CurrentAccountRootFields::domain(&CurrentObject, &mut Host::new(&missing)), Ok(None));
    assert_eq!(CurrentAccountRootFields::tick_size(&CurrentObject, &mut Host::new(&missing)), Ok(None));
    assert_eq!(CurrentAccountRootFields::ticket_count(&CurrentObject, &mut Host::new(&missing)), Ok(None));
    assert_eq!(CurrentAccountRootFields::nftoken_minter(&CurrentObject, &mut Host::new(&missing)), Ok(None));
    assert_eq!(CurrentAccountRootFields::minted_nftokens(&CurrentObject, &mut Host::new(&missing)), Ok(None));
    assert_eq!(CurrentAccountRootFields::burned_nftokens(&CurrentObject, &mut Host::new(&missing)), Ok(None));
    assert_eq!(CurrentAccountRootFields::first_nftoken_sequence(&CurrentObject, &mut Host::new(&missing)), Ok(None));
    assert_eq!(CurrentAccountRootFields::amm_id(&CurrentObject, &mut Host::new(&missing)), Ok(None));
    assert_eq!(CurrentAccountRootFields::vault_id(&CurrentObject, &mut Host::new(&missing)), Ok(None));
    assert_eq!(CurrentAccountRootFields::loan_broker_id(&CurrentObject, &mut Host::new(&missing)), Ok(None));
    assert_eq!(CurrentAccountRootFields::contract_id(&CurrentObject, &mut Host::new(&missing)), Ok(None));
}

#[test]
fn amendments_getters_read_through_the_slot() {
    let host = slot_host(5);
    let obj = Amendments::new(5);
    assert!(obj.amendments(&mut Host::new(&host)).is_ok());
    assert!(obj.previous_txn_id(&mut Host::new(&host)).is_ok());
    assert!(obj.previous_txn_lgr_seq(&mut Host::new(&host)).is_ok());
    assert_eq!(host.count("le_field"), 3);
}

#[test]
fn amendments_missing_fields() {
    let host = all_fields_not_found();
    let obj = Amendments::new(0);
    assert_eq!(obj.amendments(&mut Host::new(&host)), Ok(None));
    assert_eq!(obj.previous_txn_id(&mut Host::new(&host)), Ok(None));
    assert_eq!(obj.previous_txn_lgr_seq(&mut Host::new(&host)), Ok(None));
}

impl CurrentAmendmentsFields for CurrentObject {}

#[test]
fn amendments_current_getters_read_the_current_object() {
    let host = all_fields_present();
    assert!(CurrentAmendmentsFields::amendments(&CurrentObject, &mut Host::new(&host)).is_ok());
    assert!(CurrentAmendmentsFields::previous_txn_id(&CurrentObject, &mut Host::new(&host)).is_ok());
    assert!(CurrentAmendmentsFields::previous_txn_lgr_seq(&CurrentObject, &mut Host::new(&host)).is_ok());
    assert_eq!(host.count("home_le_field"), 3);
    assert_eq!(host.count("le_field"), 0);
    let missing = all_fields_not_found();
    assert_eq!(CurrentAmendmentsFields::amendments(&CurrentObject, &mut Host::new(&missing)), Ok(None));
    assert_eq!(CurrentAmendmentsFields::previous_txn_id(&CurrentObject, &mut Host::new(&missing)), Ok(None));
    assert_eq!(CurrentAmendmentsFields::previous_txn_lgr_seq(&CurrentObject, &mut Host::new(&missing)), Ok(None));
}

#[test]
fn amm_getters_read_through_the_slot() {
    let host = slot_host(5);
    let obj = AMM::new(5);
    assert!(obj.account(&mut Host::new(&host)).is_ok());
    assert!(obj.trading_fee(&mut Host::new(&host)).is_ok());
    assert!(obj.lp_token_balance(&mut Host::new(&host)).is_ok());
    assert!(obj.asset(&mut Host::new(&host)).is_ok());
    assert!(obj.asset2(&mut Host::new(&host)).is_ok());
    assert!(obj.owner_node(&mut Host::new(&host)).is_ok());
    assert!(obj.previous_txn_id(&mut Host::new(&host)).is_ok());
    assert!(obj.previous_txn_lgr_seq(&mut Host::new(&host)).is_ok());
    assert_eq!(host.count("le_field"), 8);
}

#[test]
fn amm_missing_fields() {
    let host = all_fields_not_found();
    let obj = AMM::new(0);
    assert_eq!(obj.account(&mut Host::new(&host)).err(), Some(Error::FieldNotFound));
    assert_eq!(obj.trading_fee(&mut Host::new(&host)), Ok(None));
    assert_eq!(obj.lp_token_balance(&mut Host::new(&host)).err(), Some(Error::FieldNotFound));
    assert_eq!(obj.asset(&mut Host::new(&host)).err(), Some(Error::FieldNotFound));
    assert_eq!(obj.asset2(&mut Host::new(&host)).err(), Some(Error::FieldNotFound));
    assert_eq!(obj.owner_node(&mut Host::new(&host)).err(), Some(Error::FieldNotFound));
    assert_eq!(obj.previous_txn_id(&mut Host::new(&host)), Ok(None));
    assert_eq!(obj.previous_txn_lgr_seq(&mut Host::new(&host)), Ok(None));
}

impl CurrentAMMFields for CurrentObject {}

#[test]
fn amm_current_getters_read_the_current_object() {
    let host = all_fields_present();
    assert!(CurrentAMMFields::account(&CurrentObject, &mut Host::new(&host)).is_ok());
    assert!(CurrentAMMFields::trading_fee(&CurrentObject, &mut Host::new(&host)).is_ok());
    assert!(CurrentAMMFields::lp_token_balance(&CurrentObject, &mut Host::new(&host)).is_ok());
    assert!(CurrentAMMFields::asset(&CurrentObject, &mut Host::new(&host)).is_ok());
    assert!(CurrentAMMFields::asset2(&CurrentObject, &mut Host::new(&host)).is_ok());
    assert!(CurrentAMMFields::owner_node(&CurrentObject, &mut Host::new(&host)).is_ok());
    assert!(CurrentAMMFields::previous_txn_id(&CurrentObject, &mut Host::new(&host)).is_ok());
    assert!(CurrentAMMFields::previous_txn_lgr_seq(&CurrentObject, &mut Host::new(&host)).is_ok());
    assert_eq!(host.count("home_le_field"), 8);
    assert_eq!(host.count("le_field"), 0);
    let missing = all_fields_not_found();
    assert_eq!(CurrentAMMFields::account(&CurrentObject, &mut Host::new(&missing)).err(), Some(Error::FieldNotFound));
    assert_eq!(CurrentAMMFields::trading_fee(&CurrentObject, &mut Host::new(&missing)), Ok(None));
    assert_eq!(CurrentAMMFields::lp_token_balance(&CurrentObject, &mut Host::new(&missing)).err(), Some(Error::FieldNotFound));
    assert_eq!(CurrentAMMFields::asset(&CurrentObject, &mut Host::new(&missing)).err(), Some(Error::FieldNotFound));
    assert_eq!(CurrentAMMFields::asset2(&CurrentObject, &mut Host::new(&missing)).err(), Some(Error::FieldNotFound));
    assert_eq!(CurrentAMMFields::owner_node(&CurrentObject, &mut Host::new(&missing)).err(), Some(Error::FieldNotFound));
    assert_eq!(CurrentAMMFields::previous_txn_id(&CurrentObject, &mut Host::new(&missing)), Ok(None));
    assert_eq!(CurrentAMMFields::previous_txn_lgr_seq(&CurrentObject, &mut Host::new(&missing)), Ok(None));
}

#[test]
fn bridge_getters_read_through_the_slot() {
    let host = slot_host(5);
    let obj = Bridge::new(5);
    assert!(obj.account(&mut Host::new(&host)).is_ok());
    assert!(obj.signature_reward(&mut Host::new(&host)).is_ok());
    assert!(obj.min_account_create_amount(&mut Host::new(&host)).is_ok());
    assert!(obj.xchain_bridge(&mut Host::new(&host)).is_ok());
    assert!(obj.xchain_claim_id(&mut Host::new(&host)).is_ok());
    assert!(obj.xchain_account_create_count(&mut Host::new(&host)).is_ok());
    assert!(obj.xchain_account_claim_count(&mut Host::new(&host)).is_ok());
    assert!(obj.owner_node(&mut Host::new(&host)).is_ok());
    assert!(obj.previous_txn_id(&mut Host::new(&host)).is_ok());
    assert!(obj.previous_txn_lgr_seq(&mut Host::new(&host)).is_ok());
    assert_eq!(host.count("le_field"), 10);
}

#[test]
fn bridge_missing_fields() {
    let host = all_fields_not_found();
    let obj = Bridge::new(0);
    assert_eq!(obj.account(&mut Host::new(&host)).err(), Some(Error::FieldNotFound));
    assert_eq!(obj.signature_reward(&mut Host::new(&host)).err(), Some(Error::FieldNotFound));
    assert_eq!(obj.min_account_create_amount(&mut Host::new(&host)), Ok(None));
    assert_eq!(obj.xchain_bridge(&mut Host::new(&host)).err(), Some(Error::FieldNotFound));
    assert_eq!(obj.xchain_claim_id(&mut Host::new(&host)).err(), Some(Error::FieldNotFound));
    assert_eq!(obj.xchain_account_create_count(&mut Host::new(&host)).err(), Some(Error::FieldNotFound));
    assert_eq!(obj.xchain_account_claim_count(&mut Host::new(&host)).err(), Some(Error::FieldNotFound));
    assert_eq!(obj.owner_node(&mut Host::new(&host)).err(), Some(Error::FieldNotFound));
    assert_eq!(obj.previous_txn_id(&mut Host::new(&host)).err(), Some(Error::FieldNotFound));
    assert_eq!(obj.previous_txn_lgr_seq(&mut Host::new(&host)).err(), Some(Error::FieldNotFound));
}

impl CurrentBridgeFields for CurrentObject {}

#[test]
fn bridge_current_getters_read_the_current_object() {
    let host = all_fields_present();
    assert!(CurrentBridgeFields::account(&CurrentObject, &mut Host::new(&host)).is_ok());
    assert!(CurrentBridgeFields::signature_reward(&CurrentObject, &mut Host::new(&host)).is_ok());
    assert!(CurrentBridgeFields::min_account_create_amount(&CurrentObject, &mut Host::new(&host)).is_ok());
    assert!(CurrentBridgeFields::xchain_bridge(&CurrentObject, &mut Host::new(&host)).is_ok());
    assert!(CurrentBridgeFields::xchain_claim_id(&CurrentObject, &mut Host::new(&host)).is_ok());
    assert!(CurrentBridgeFields::xchain_account_create_count(&CurrentObject, &mut Host::new(&host)).is_ok());
    assert!(CurrentBridgeFields::xchain_account_claim_count(&CurrentObject, &mut Host::new(&host)).is_ok());
    assert!(CurrentBridgeFields::owner_node(&CurrentObject, &mut Host::new(&host)).is_ok());
    assert!(CurrentBridgeFields::previous_txn_id(&CurrentObject, &mut Host::new(&host)).is_ok());
    assert!(CurrentBridgeFields::previous_txn_lgr_seq(&CurrentObject, &mut Host::new(&host)).is_ok());
    assert_eq!(host.count("home_le_field"), 10);
    assert_eq!(host.count("le_field"), 0);
    let missing = all_fields_not_found();
    assert_eq!(CurrentBridgeFields::account(&CurrentObject, &mut Host::new(&missing)).err(), Some(Error::FieldNotFound));
    assert_eq!(CurrentBridgeFields::signature_reward(&CurrentObject, &mut Host::new(&missing)).err(), Some(Error::FieldNotFound));
    assert_eq!(CurrentBridgeFields::min_account_create_amount(&CurrentObject, &mut Host::new(&missing)), Ok(None));
    assert_eq!(CurrentBridgeFields::xchain_bridge(&CurrentObject, &mut Host::new(&missing)).err(), Some(Error::FieldNotFound));
    assert_eq!(CurrentBridgeFields::xchain_claim_id(&CurrentObject, &mut Host::new(&missing)).err(), Some(Error::FieldNotFound));
    assert_eq!(CurrentBridgeFields::xchain_account_create_count(&CurrentObject, &mut Host::new(&missing)).err(), Some(Error::FieldNotFound));
    assert_eq!(CurrentBridgeFields::xchain_account_claim_count(&CurrentObject, &mut Host::new(&missing)).err(), Some(Error::FieldNotFound));
    assert_eq!(CurrentBridgeFields::owner_node(&CurrentObject, &mut Host::new(&missing)).err(), Some(Error::FieldNotFound));
    assert_eq!(CurrentBridgeFields::previous_txn_id(&CurrentObject, &mut Host::new(&missing)).err(), Some(Error::FieldNotFound));
    assert_eq!(CurrentBridgeFields::previous_txn_lgr_seq(&CurrentObject, &mut Host::new(&missing)).err(), Some(Error::FieldNotFound));
}

#[test]
fn check_getters_read_through_the_slot() {
    let host = slot_host(5);
    let obj = Check::new(5);
    assert!(obj.account(&mut Host::new(&host)).is_ok());
    assert!(obj.destination(&mut Host::new(&host)).is_ok());
    assert!(obj.send_max(&mut Host::new(&host)).is_ok());
    assert!(obj.sequence(&mut Host::new(&host)).is_ok());
    assert!(obj.owner_node(&mut Host::new(&host)).is_ok());
    assert!(obj.destination_node(&mut Host::new(&host)).is_ok());
    assert!(obj.expiration(&mut Host::new(&host)).is_ok());
    assert!(obj.invoice_id(&mut Host::new(&host)).is_ok());
    assert!(obj.source_tag(&mut Host::new(&host)).is_ok());
    assert!(obj.destination_tag(&mut Host::new(&host)).is_ok());
    assert!(obj.previous_txn_id(&mut Host::new(&host)).is_ok());
    assert!(obj.previous_txn_lgr_seq(&mut Host::new(&host)).is_ok());
    assert_eq!(host.count("le_field"), 12);
}

#[test]
fn check_missing_fields() {
    let host = all_fields_not_found();
    let obj = Check::new(0);
    assert_eq!(obj.account(&mut Host::new(&host)).err(), Some(Error::FieldNotFound));
    assert_eq!(obj.destination(&mut Host::new(&host)).err(), Some(Error::FieldNotFound));
    assert_eq!(obj.send_max(&mut Host::new(&host)).err(), Some(Error::FieldNotFound));
    assert_eq!(obj.sequence(&mut Host::new(&host)).err(), Some(Error::FieldNotFound));
    assert_eq!(obj.owner_node(&mut Host::new(&host)).err(), Some(Error::FieldNotFound));
    assert_eq!(obj.destination_node(&mut Host::new(&host)).err(), Some(Error::FieldNotFound));
    assert_eq!(obj.expiration(&mut Host::new(&host)), Ok(None));
    assert_eq!(obj.invoice_id(&mut Host::new(&host)), Ok(None));
    assert_eq!(obj.source_tag(&mut Host::new(&host)), Ok(None));
    assert_eq!(obj.destination_tag(&mut Host::new(&host)), Ok(None));
    assert_eq!(obj.previous_txn_id(&mut Host::new(&host)).err(), Some(Error::FieldNotFound));
    assert_eq!(obj.previous_txn_lgr_seq(&mut Host::new(&host)).err(), Some(Error::FieldNotFound));
}

impl CurrentCheckFields for CurrentObject {}

#[test]
fn check_current_getters_read_the_current_object() {
    let host = all_fields_present();
    assert!(CurrentCheckFields::account(&CurrentObject, &mut Host::new(&host)).is_ok());
    assert!(CurrentCheckFields::destination(&CurrentObject, &mut Host::new(&host)).is_ok());
    assert!(CurrentCheckFields::send_max(&CurrentObject, &mut Host::new(&host)).is_ok());
    assert!(CurrentCheckFields::sequence(&CurrentObject, &mut Host::new(&host)).is_ok());
    assert!(CurrentCheckFields::owner_node(&CurrentObject, &mut Host::new(&host)).is_ok());
    assert!(CurrentCheckFields::destination_node(&CurrentObject, &mut Host::new(&host)).is_ok());
    assert!(CurrentCheckFields::expiration(&CurrentObject, &mut Host::new(&host)).is_ok());
    assert!(CurrentCheckFields::invoice_id(&CurrentObject, &mut Host::new(&host)).is_ok());
    assert!(CurrentCheckFields::source_tag(&CurrentObject, &mut Host::new(&host)).is_ok());
    assert!(CurrentCheckFields::destination_tag(&CurrentObject, &mut Host::new(&host)).is_ok());
    assert!(CurrentCheckFields::previous_txn_id(&CurrentObject, &mut Host::new(&host)).is_ok());
    assert!(CurrentCheckFields::previous_txn_lgr_seq(&CurrentObject, &mut Host::new(&host)).is_ok());
    assert_eq!(host.count("home_le_field"), 12);
    assert_eq!(host.count("le_field"), 0);
    let missing = all_fields_not_found();
    assert_eq!(CurrentCheckFields::account(&CurrentObject, &mut Host::new(&missing)).err(), Some(Error::FieldNotFound));
    assert_eq!(CurrentCheckFields::destination(&CurrentObject, &mut Host::new(&missing)).err(), Some(Error::FieldNotFound));
    assert_eq!(CurrentCheckFields::send_max(&CurrentObject, &mut Host::new(&missing)).err(), Some(Error::FieldNotFound));
    assert_eq!(CurrentCheckFields::sequence(&CurrentObject, &mut Host::new(&missing)).err(), Some(Error::FieldNotFound));
    assert_eq!(CurrentCheckFields::owner_node(&CurrentObject, &mut Host::new(&missing)).err(), Some(Error::FieldNotFound));
    assert_eq!(CurrentCheckFields::destination_node(&CurrentObject, &mut Host::new(&missing)).err(), Some(Error::FieldNotFound));
    assert_eq!(CurrentCheckFields::expiration(&CurrentObject, &mut Host::new(&missing)), Ok(None));
    assert_eq!(CurrentCheckFields::invoice_id(&CurrentObject, &mut Host::new(&missing)), Ok(None));
    assert_eq!(CurrentCheckFields::source_tag(&CurrentObject, &mut Host::new(&missing)), Ok(None));
    assert_eq!(CurrentCheckFields::destination_tag(&CurrentObject, &mut Host::new(&missing)), Ok(None));
    assert_eq!(CurrentCheckFields::previous_txn_id(&CurrentObject, &mut Host::new(&missing)).err(), Some(Error::FieldNotFound));
    assert_eq!(CurrentCheckFields::previous_txn_lgr_seq(&CurrentObject, &mut Host::new(&missing)).err(), Some(Error::FieldNotFound));
}

#[test]
fn contract_getters_read_through_the_slot() {
    let host = slot_host(5);
    let obj = Contract::new(5);
    assert!(obj.get_previous_txn_id(&mut Host::new(&host)).is_ok());
    assert!(obj.get_previous_txn_lgr_seq(&mut Host::new(&host)).is_ok());
    assert!(obj.get_sequence(&mut Host::new(&host)).is_ok());
    assert!(obj.get_owner_node(&mut Host::new(&host)).is_ok());
    assert!(obj.get_owner(&mut Host::new(&host)).is_ok());
    assert!(obj.get_contract_account(&mut Host::new(&host)).is_ok());
    assert!(obj.get_contract_hash(&mut Host::new(&host)).is_ok());
    assert!(obj.get_uri(&mut Host::new(&host)).is_ok());
    assert_eq!(host.count("le_field"), 8);
}

#[test]
fn contract_missing_fields() {
    let host = all_fields_not_found();
    let obj = Contract::new(0);
    assert_eq!(obj.get_previous_txn_id(&mut Host::new(&host)).err(), Some(Error::FieldNotFound));
    assert_eq!(obj.get_previous_txn_lgr_seq(&mut Host::new(&host)).err(), Some(Error::FieldNotFound));
    assert_eq!(obj.get_sequence(&mut Host::new(&host)).err(), Some(Error::FieldNotFound));
    assert_eq!(obj.get_owner_node(&mut Host::new(&host)).err(), Some(Error::FieldNotFound));
    assert_eq!(obj.get_owner(&mut Host::new(&host)).err(), Some(Error::FieldNotFound));
    assert_eq!(obj.get_contract_account(&mut Host::new(&host)).err(), Some(Error::FieldNotFound));
    assert_eq!(obj.get_contract_hash(&mut Host::new(&host)).err(), Some(Error::FieldNotFound));
    assert_eq!(obj.get_uri(&mut Host::new(&host)), Ok(None));
}

impl CurrentContractFields for CurrentObject {}

#[test]
fn contract_current_getters_read_the_current_object() {
    let host = all_fields_present();
    assert!(CurrentContractFields::get_previous_txn_id(&CurrentObject, &mut Host::new(&host)).is_ok());
    assert!(CurrentContractFields::get_previous_txn_lgr_seq(&CurrentObject, &mut Host::new(&host)).is_ok());
    assert!(CurrentContractFields::get_sequence(&CurrentObject, &mut Host::new(&host)).is_ok());
    assert!(CurrentContractFields::get_owner_node(&CurrentObject, &mut Host::new(&host)).is_ok());
    assert!(CurrentContractFields::get_owner(&CurrentObject, &mut Host::new(&host)).is_ok());
    assert!(CurrentContractFields::get_contract_account(&CurrentObject, &mut Host::new(&host)).is_ok());
    assert!(CurrentContractFields::get_contract_hash(&CurrentObject, &mut Host::new(&host)).is_ok());
    assert!(CurrentContractFields::get_uri(&CurrentObject, &mut Host::new(&host)).is_ok());
    assert_eq!(host.count("home_le_field"), 8);
    assert_eq!(host.count("le_field"), 0);
    let missing = all_fields_not_found();
    assert_eq!(CurrentContractFields::get_previous_txn_id(&CurrentObject, &mut Host::new(&missing)).err(), Some(Error::FieldNotFound));
    assert_eq!(CurrentContractFields::get_previous_txn_lgr_seq(&CurrentObject, &mut Host::new(&missing)).err(), Some(Error::FieldNotFound));
    assert_eq!(CurrentContractFields::get_sequence(&CurrentObject, &mut Host::new(&missing)).err(), Some(Error::FieldNotFound));
    assert_eq!(CurrentContractFields::get_owner_node(&CurrentObject, &mut Host::new(&missing)).err(), Some(Error::FieldNotFound));
    assert_eq!(CurrentContractFields::get_owner(&CurrentObject, &mut Host::new(&missing)).err(), Some(Error::FieldNotFound));
    assert_eq!(CurrentContractFields::get_contract_account(&CurrentObject, &mut Host::new(&missing)).err(), Some(Error::FieldNotFound));
    assert_eq!(CurrentContractFields::get_contract_hash(&CurrentObject, &mut Host::new(&missing)).err(), Some(Error::FieldNotFound));
    assert_eq!(CurrentContractFields::get_uri(&CurrentObject, &mut Host::new(&missing)), Ok(None));
}

#[test]
fn contract_data_getters_read_through_the_slot() {
    let host = slot_host(5);
    let obj = ContractData::new(5);
    assert!(obj.previous_txn_id(&mut Host::new(&host)).is_ok());
    assert!(obj.previous_txn_lgr_seq(&mut Host::new(&host)).is_ok());
    assert!(obj.owner_node(&mut Host::new(&host)).is_ok());
    assert!(obj.owner(&mut Host::new(&host)).is_ok());
    assert!(obj.contract_account(&mut Host::new(&host)).is_ok());
    assert!(obj.contract_json(&mut Host::new(&host)).is_ok());
    assert_eq!(host.count("le_field"), 6);
}

#[test]
fn contract_data_missing_fields() {
    let host = all_fields_not_found();
    let obj = ContractData::new(0);
    assert_eq!(obj.previous_txn_id(&mut Host::new(&host)).err(), Some(Error::FieldNotFound));
    assert_eq!(obj.previous_txn_lgr_seq(&mut Host::new(&host)).err(), Some(Error::FieldNotFound));
    assert_eq!(obj.owner_node(&mut Host::new(&host)).err(), Some(Error::FieldNotFound));
    assert_eq!(obj.owner(&mut Host::new(&host)).err(), Some(Error::FieldNotFound));
    assert_eq!(obj.contract_account(&mut Host::new(&host)).err(), Some(Error::FieldNotFound));
    assert_eq!(obj.contract_json(&mut Host::new(&host)).err(), Some(Error::FieldNotFound));
}

impl CurrentContractDataFields for CurrentObject {}

#[test]
fn contract_data_current_getters_read_the_current_object() {
    let host = all_fields_present();
    assert!(CurrentContractDataFields::previous_txn_id(&CurrentObject, &mut Host::new(&host)).is_ok());
    assert!(CurrentContractDataFields::previous_txn_lgr_seq(&CurrentObject, &mut Host::new(&host)).is_ok());
    assert!(CurrentContractDataFields::owner_node(&CurrentObject, &mut Host::new(&host)).is_ok());
    assert!(CurrentContractDataFields::owner(&CurrentObject, &mut Host::new(&host)).is_ok());
    assert!(CurrentContractDataFields::contract_account(&CurrentObject, &mut Host::new(&host)).is_ok());
    assert!(CurrentContractDataFields::contract_json(&CurrentObject, &mut Host::new(&host)).is_ok());
    assert_eq!(host.count("home_le_field"), 6);
    assert_eq!(host.count("le_field"), 0);
    let missing = all_fields_not_found();
    assert_eq!(CurrentContractDataFields::previous_txn_id(&CurrentObject, &mut Host::new(&missing)).err(), Some(Error::FieldNotFound));
    assert_eq!(CurrentContractDataFields::previous_txn_lgr_seq(&CurrentObject, &mut Host::new(&missing)).err(), Some(Error::FieldNotFound));
    assert_eq!(CurrentContractDataFields::owner_node(&CurrentObject, &mut Host::new(&missing)).err(), Some(Error::FieldNotFound));
    assert_eq!(CurrentContractDataFields::owner(&CurrentObject, &mut Host::new(&missing)).err(), Some(Error::FieldNotFound));
    assert_eq!(CurrentContractDataFields::contract_account(&CurrentObject, &mut Host::new(&missing)).err(), Some(Error::FieldNotFound));
    assert_eq!(CurrentContractDataFields::contract_json(&CurrentObject, &mut Host::new(&missing)).err(), Some(Error::FieldNotFound));
}

#[test]
fn contract_source_getters_read_through_the_slot() {
    let host = slot_host(5);
    let obj = ContractSource::new(5);
    assert!(obj.previous_txn_id(&mut Host::new(&host)).is_ok());
    assert!(obj.previous_txn_lgr_seq(&mut Host::new(&host)).is_ok());
    assert!(obj.contract_hash(&mut Host::new(&host)).is_ok());
    assert!(obj.contract_code(&mut Host::new(&host)).is_ok());
    assert!(obj.reference_count(&mut Host::new(&host)).is_ok());
    assert_eq!(host.count("le_field"), 5);
}

#[test]
fn contract_source_missing_fields() {
    let host = all_fields_not_found();
    let obj = ContractSource::new(0);
    assert_eq!(obj.previous_txn_id(&mut Host::new(&host)).err(), Some(Error::FieldNotFound));
    assert_eq!(obj.previous_txn_lgr_seq(&mut Host::new(&host)).err(), Some(Error::FieldNotFound));
    assert_eq!(obj.contract_hash(&mut Host::new(&host)).err(), Some(Error::FieldNotFound));
    assert_eq!(obj.contract_code(&mut Host::new(&host)).err(), Some(Error::FieldNotFound));
    assert_eq!(obj.reference_count(&mut Host::new(&host)).err(), Some(Error::FieldNotFound));
}

impl CurrentContractSourceFields for CurrentObject {}

#[test]
fn contract_source_current_getters_read_the_current_object() {
    let host = all_fields_present();
    assert!(CurrentContractSourceFields::previous_txn_id(&CurrentObject, &mut Host::new(&host)).is_ok());
    assert!(CurrentContractSourceFields::previous_txn_lgr_seq(&CurrentObject, &mut Host::new(&host)).is_ok());
    assert!(CurrentContractSourceFields::contract_hash(&CurrentObject, &mut Host::new(&host)).is_ok());
    assert!(CurrentContractSourceFields::contract_code(&CurrentObject, &mut Host::new(&host)).is_ok());
    assert!(CurrentContractSourceFields::reference_count(&CurrentObject, &mut Host::new(&host)).is_ok());
    assert_eq!(host.count("home_le_field"), 5);
    assert_eq!(host.count("le_field"), 0);
    let missing = all_fields_not_found();
    assert_eq!(CurrentContractSourceFields::previous_txn_id(&CurrentObject, &mut Host::new(&missing)).err(), Some(Error::FieldNotFound));
    assert_eq!(CurrentContractSourceFields::previous_txn_lgr_seq(&CurrentObject, &mut Host::new(&missing)).err(), Some(Error::FieldNotFound));
    assert_eq!(CurrentContractSourceFields::contract_hash(&CurrentObject, &mut Host::new(&missing)).err(), Some(Error::FieldNotFound));
    assert_eq!(CurrentContractSourceFields::contract_code(&CurrentObject, &mut Host::new(&missing)).err(), Some(Error::FieldNotFound));
    assert_eq!(CurrentContractSourceFields::reference_count(&CurrentObject, &mut Host::new(&missing)).err(), Some(Error::FieldNotFound));
}

#[test]
fn credential_getters_read_through_the_slot() {
    let host = slot_host(5);
    let obj = Credential::new(5);
    assert!(obj.subject(&mut Host::new(&host)).is_ok());
    assert!(obj.issuer(&mut Host::new(&host)).is_ok());
    assert!(obj.credential_type(&mut Host::new(&host)).is_ok());
    assert!(obj.expiration(&mut Host::new(&host)).is_ok());
    assert!(obj.uri(&mut Host::new(&host)).is_ok());
    assert!(obj.issuer_node(&mut Host::new(&host)).is_ok());
    assert!(obj.subject_node(&mut Host::new(&host)).is_ok());
    assert!(obj.previous_txn_id(&mut Host::new(&host)).is_ok());
    assert!(obj.previous_txn_lgr_seq(&mut Host::new(&host)).is_ok());
    assert_eq!(host.count("le_field"), 9);
}

#[test]
fn credential_missing_fields() {
    let host = all_fields_not_found();
    let obj = Credential::new(0);
    assert_eq!(obj.subject(&mut Host::new(&host)).err(), Some(Error::FieldNotFound));
    assert_eq!(obj.issuer(&mut Host::new(&host)).err(), Some(Error::FieldNotFound));
    assert_eq!(obj.credential_type(&mut Host::new(&host)).err(), Some(Error::FieldNotFound));
    assert_eq!(obj.expiration(&mut Host::new(&host)), Ok(None));
    assert_eq!(obj.uri(&mut Host::new(&host)), Ok(None));
    assert_eq!(obj.issuer_node(&mut Host::new(&host)).err(), Some(Error::FieldNotFound));
    assert_eq!(obj.subject_node(&mut Host::new(&host)), Ok(None));
    assert_eq!(obj.previous_txn_id(&mut Host::new(&host)).err(), Some(Error::FieldNotFound));
    assert_eq!(obj.previous_txn_lgr_seq(&mut Host::new(&host)).err(), Some(Error::FieldNotFound));
}

impl CurrentCredentialFields for CurrentObject {}

#[test]
fn credential_current_getters_read_the_current_object() {
    let host = all_fields_present();
    assert!(CurrentCredentialFields::subject(&CurrentObject, &mut Host::new(&host)).is_ok());
    assert!(CurrentCredentialFields::issuer(&CurrentObject, &mut Host::new(&host)).is_ok());
    assert!(CurrentCredentialFields::credential_type(&CurrentObject, &mut Host::new(&host)).is_ok());
    assert!(CurrentCredentialFields::expiration(&CurrentObject, &mut Host::new(&host)).is_ok());
    assert!(CurrentCredentialFields::uri(&CurrentObject, &mut Host::new(&host)).is_ok());
    assert!(CurrentCredentialFields::issuer_node(&CurrentObject, &mut Host::new(&host)).is_ok());
    assert!(CurrentCredentialFields::subject_node(&CurrentObject, &mut Host::new(&host)).is_ok());
    assert!(CurrentCredentialFields::previous_txn_id(&CurrentObject, &mut Host::new(&host)).is_ok());
    assert!(CurrentCredentialFields::previous_txn_lgr_seq(&CurrentObject, &mut Host::new(&host)).is_ok());
    assert_eq!(host.count("home_le_field"), 9);
    assert_eq!(host.count("le_field"), 0);
    let missing = all_fields_not_found();
    assert_eq!(CurrentCredentialFields::subject(&CurrentObject, &mut Host::new(&missing)).err(), Some(Error::FieldNotFound));
    assert_eq!(CurrentCredentialFields::issuer(&CurrentObject, &mut Host::new(&missing)).err(), Some(Error::FieldNotFound));
    assert_eq!(CurrentCredentialFields::credential_type(&CurrentObject, &mut Host::new(&missing)).err(), Some(Error::FieldNotFound));
    assert_eq!(CurrentCredentialFields::expiration(&CurrentObject, &mut Host::new(&missing)), Ok(None));
    assert_eq!(CurrentCredentialFields::uri(&CurrentObject, &mut Host::new(&missing)), Ok(None));
    assert_eq!(CurrentCredentialFields::issuer_node(&CurrentObject, &mut Host::new(&missing)).err(), Some(Error::FieldNotFound));
    assert_eq!(CurrentCredentialFields::subject_node(&CurrentObject, &mut Host::new(&missing)), Ok(None));
    assert_eq!(CurrentCredentialFields::previous_txn_id(&CurrentObject, &mut Host::new(&missing)).err(), Some(Error::FieldNotFound));
    assert_eq!(CurrentCredentialFields::previous_txn_lgr_seq(&CurrentObject, &mut Host::new(&missing)).err(), Some(Error::FieldNotFound));
}

#[test]
fn delegate_getters_read_through_the_slot() {
    let host = slot_host(5);
    let obj = Delegate::new(5);
    assert!(obj.account(&mut Host::new(&host)).is_ok());
    assert!(obj.authorize(&mut Host::new(&host)).is_ok());
    assert!(obj.owner_node(&mut Host::new(&host)).is_ok());
    assert!(obj.destination_node(&mut Host::new(&host)).is_ok());
    assert!(obj.previous_txn_id(&mut Host::new(&host)).is_ok());
    assert!(obj.previous_txn_lgr_seq(&mut Host::new(&host)).is_ok());
    assert_eq!(host.count("le_field"), 6);
}

#[test]
fn delegate_missing_fields() {
    let host = all_fields_not_found();
    let obj = Delegate::new(0);
    assert_eq!(obj.account(&mut Host::new(&host)).err(), Some(Error::FieldNotFound));
    assert_eq!(obj.authorize(&mut Host::new(&host)).err(), Some(Error::FieldNotFound));
    assert_eq!(obj.owner_node(&mut Host::new(&host)).err(), Some(Error::FieldNotFound));
    assert_eq!(obj.destination_node(&mut Host::new(&host)), Ok(None));
    assert_eq!(obj.previous_txn_id(&mut Host::new(&host)).err(), Some(Error::FieldNotFound));
    assert_eq!(obj.previous_txn_lgr_seq(&mut Host::new(&host)).err(), Some(Error::FieldNotFound));
}

impl CurrentDelegateFields for CurrentObject {}

#[test]
fn delegate_current_getters_read_the_current_object() {
    let host = all_fields_present();
    assert!(CurrentDelegateFields::account(&CurrentObject, &mut Host::new(&host)).is_ok());
    assert!(CurrentDelegateFields::authorize(&CurrentObject, &mut Host::new(&host)).is_ok());
    assert!(CurrentDelegateFields::owner_node(&CurrentObject, &mut Host::new(&host)).is_ok());
    assert!(CurrentDelegateFields::destination_node(&CurrentObject, &mut Host::new(&host)).is_ok());
    assert!(CurrentDelegateFields::previous_txn_id(&CurrentObject, &mut Host::new(&host)).is_ok());
    assert!(CurrentDelegateFields::previous_txn_lgr_seq(&CurrentObject, &mut Host::new(&host)).is_ok());
    assert_eq!(host.count("home_le_field"), 6);
    assert_eq!(host.count("le_field"), 0);
    let missing = all_fields_not_found();
    assert_eq!(CurrentDelegateFields::account(&CurrentObject, &mut Host::new(&missing)).err(), Some(Error::FieldNotFound));
    assert_eq!(CurrentDelegateFields::authorize(&CurrentObject, &mut Host::new(&missing)).err(), Some(Error::FieldNotFound));
    assert_eq!(CurrentDelegateFields::owner_node(&CurrentObject, &mut Host::new(&missing)).err(), Some(Error::FieldNotFound));
    assert_eq!(CurrentDelegateFields::destination_node(&CurrentObject, &mut Host::new(&missing)), Ok(None));
    assert_eq!(CurrentDelegateFields::previous_txn_id(&CurrentObject, &mut Host::new(&missing)).err(), Some(Error::FieldNotFound));
    assert_eq!(CurrentDelegateFields::previous_txn_lgr_seq(&CurrentObject, &mut Host::new(&missing)).err(), Some(Error::FieldNotFound));
}

#[test]
fn did_getters_read_through_the_slot() {
    let host = slot_host(5);
    let obj = DID::new(5);
    assert!(obj.account(&mut Host::new(&host)).is_ok());
    assert!(obj.did_document(&mut Host::new(&host)).is_ok());
    assert!(obj.uri(&mut Host::new(&host)).is_ok());
    assert!(obj.data(&mut Host::new(&host)).is_ok());
    assert!(obj.owner_node(&mut Host::new(&host)).is_ok());
    assert!(obj.previous_txn_id(&mut Host::new(&host)).is_ok());
    assert!(obj.previous_txn_lgr_seq(&mut Host::new(&host)).is_ok());
    assert_eq!(host.count("le_field"), 7);
}

#[test]
fn did_missing_fields() {
    let host = all_fields_not_found();
    let obj = DID::new(0);
    assert_eq!(obj.account(&mut Host::new(&host)).err(), Some(Error::FieldNotFound));
    assert_eq!(obj.did_document(&mut Host::new(&host)), Ok(None));
    assert_eq!(obj.uri(&mut Host::new(&host)), Ok(None));
    assert_eq!(obj.data(&mut Host::new(&host)), Ok(None));
    assert_eq!(obj.owner_node(&mut Host::new(&host)).err(), Some(Error::FieldNotFound));
    assert_eq!(obj.previous_txn_id(&mut Host::new(&host)).err(), Some(Error::FieldNotFound));
    assert_eq!(obj.previous_txn_lgr_seq(&mut Host::new(&host)).err(), Some(Error::FieldNotFound));
}

impl CurrentDIDFields for CurrentObject {}

#[test]
fn did_current_getters_read_the_current_object() {
    let host = all_fields_present();
    assert!(CurrentDIDFields::account(&CurrentObject, &mut Host::new(&host)).is_ok());
    assert!(CurrentDIDFields::did_document(&CurrentObject, &mut Host::new(&host)).is_ok());
    assert!(CurrentDIDFields::uri(&CurrentObject, &mut Host::new(&host)).is_ok());
    assert!(CurrentDIDFields::data(&CurrentObject, &mut Host::new(&host)).is_ok());
    assert!(CurrentDIDFields::owner_node(&CurrentObject, &mut Host::new(&host)).is_ok());
    assert!(CurrentDIDFields::previous_txn_id(&CurrentObject, &mut Host::new(&host)).is_ok());
    assert!(CurrentDIDFields::previous_txn_lgr_seq(&CurrentObject, &mut Host::new(&host)).is_ok());
    assert_eq!(host.count("home_le_field"), 7);
    assert_eq!(host.count("le_field"), 0);
    let missing = all_fields_not_found();
    assert_eq!(CurrentDIDFields::account(&CurrentObject, &mut Host::new(&missing)).err(), Some(Error::FieldNotFound));
    assert_eq!(CurrentDIDFields::did_document(&CurrentObject, &mut Host::new(&missing)), Ok(None));
    assert_eq!(CurrentDIDFields::uri(&CurrentObject, &mut Host::new(&missing)), Ok(None));
    assert_eq!(CurrentDIDFields::data(&CurrentObject, &mut Host::new(&missing)), Ok(None));
    assert_eq!(CurrentDIDFields::owner_node(&CurrentObject, &mut Host::new(&missing)).err(), Some(Error::FieldNotFound));
    assert_eq!(CurrentDIDFields::previous_txn_id(&CurrentObject, &mut Host::new(&missing)).err(), Some(Error::FieldNotFound));
    assert_eq!(CurrentDIDFields::previous_txn_lgr_seq(&CurrentObject, &mut Host::new(&missing)).err(), Some(Error::FieldNotFound));
}

#[test]
fn directory_node_getters_read_through_the_slot() {
    let host = slot_host(5);
    let obj = DirectoryNode::new(5);
    assert!(obj.owner(&mut Host::new(&host)).is_ok());
    assert!(obj.taker_pays_currency(&mut Host::new(&host)).is_ok());
    assert!(obj.taker_pays_issuer(&mut Host::new(&host)).is_ok());
    assert!(obj.taker_pays_mpt(&mut Host::new(&host)).is_ok());
    assert!(obj.taker_gets_currency(&mut Host::new(&host)).is_ok());
    assert!(obj.taker_gets_issuer(&mut Host::new(&host)).is_ok());
    assert!(obj.taker_gets_mpt(&mut Host::new(&host)).is_ok());
    assert!(obj.exchange_rate(&mut Host::new(&host)).is_ok());
    assert!(obj.indexes(&mut Host::new(&host)).is_ok());
    assert!(obj.root_index(&mut Host::new(&host)).is_ok());
    assert!(obj.index_next(&mut Host::new(&host)).is_ok());
    assert!(obj.index_previous(&mut Host::new(&host)).is_ok());
    assert!(obj.nftoken_id(&mut Host::new(&host)).is_ok());
    assert!(obj.previous_txn_id(&mut Host::new(&host)).is_ok());
    assert!(obj.previous_txn_lgr_seq(&mut Host::new(&host)).is_ok());
    assert!(obj.domain_id(&mut Host::new(&host)).is_ok());
    assert_eq!(host.count("le_field"), 16);
}

#[test]
fn directory_node_missing_fields() {
    let host = all_fields_not_found();
    let obj = DirectoryNode::new(0);
    assert_eq!(obj.owner(&mut Host::new(&host)), Ok(None));
    assert_eq!(obj.taker_pays_currency(&mut Host::new(&host)), Ok(None));
    assert_eq!(obj.taker_pays_issuer(&mut Host::new(&host)), Ok(None));
    assert_eq!(obj.taker_pays_mpt(&mut Host::new(&host)), Ok(None));
    assert_eq!(obj.taker_gets_currency(&mut Host::new(&host)), Ok(None));
    assert_eq!(obj.taker_gets_issuer(&mut Host::new(&host)), Ok(None));
    assert_eq!(obj.taker_gets_mpt(&mut Host::new(&host)), Ok(None));
    assert_eq!(obj.exchange_rate(&mut Host::new(&host)), Ok(None));
    assert_eq!(obj.indexes(&mut Host::new(&host)).err(), Some(Error::FieldNotFound));
    assert_eq!(obj.root_index(&mut Host::new(&host)).err(), Some(Error::FieldNotFound));
    assert_eq!(obj.index_next(&mut Host::new(&host)), Ok(None));
    assert_eq!(obj.index_previous(&mut Host::new(&host)), Ok(None));
    assert_eq!(obj.nftoken_id(&mut Host::new(&host)), Ok(None));
    assert_eq!(obj.previous_txn_id(&mut Host::new(&host)), Ok(None));
    assert_eq!(obj.previous_txn_lgr_seq(&mut Host::new(&host)), Ok(None));
    assert_eq!(obj.domain_id(&mut Host::new(&host)), Ok(None));
}

impl CurrentDirectoryNodeFields for CurrentObject {}

#[test]
fn directory_node_current_getters_read_the_current_object() {
    let host = all_fields_present();
    assert!(CurrentDirectoryNodeFields::owner(&CurrentObject, &mut Host::new(&host)).is_ok());
    assert!(CurrentDirectoryNodeFields::taker_pays_currency(&CurrentObject, &mut Host::new(&host)).is_ok());
    assert!(CurrentDirectoryNodeFields::taker_pays_issuer(&CurrentObject, &mut Host::new(&host)).is_ok());
    assert!(CurrentDirectoryNodeFields::taker_pays_mpt(&CurrentObject, &mut Host::new(&host)).is_ok());
    assert!(CurrentDirectoryNodeFields::taker_gets_currency(&CurrentObject, &mut Host::new(&host)).is_ok());
    assert!(CurrentDirectoryNodeFields::taker_gets_issuer(&CurrentObject, &mut Host::new(&host)).is_ok());
    assert!(CurrentDirectoryNodeFields::taker_gets_mpt(&CurrentObject, &mut Host::new(&host)).is_ok());
    assert!(CurrentDirectoryNodeFields::exchange_rate(&CurrentObject, &mut Host::new(&host)).is_ok());
    assert!(CurrentDirectoryNodeFields::indexes(&CurrentObject, &mut Host::new(&host)).is_ok());
    assert!(CurrentDirectoryNodeFields::root_index(&CurrentObject, &mut Host::new(&host)).is_ok());
    assert!(CurrentDirectoryNodeFields::index_next(&CurrentObject, &mut Host::new(&host)).is_ok());
    assert!(CurrentDirectoryNodeFields::index_previous(&CurrentObject, &mut Host::new(&host)).is_ok());
    assert!(CurrentDirectoryNodeFields::nftoken_id(&CurrentObject, &mut Host::new(&host)).is_ok());
    assert!(CurrentDirectoryNodeFields::previous_txn_id(&CurrentObject, &mut Host::new(&host)).is_ok());
    assert!(CurrentDirectoryNodeFields::previous_txn_lgr_seq(&CurrentObject, &mut Host::new(&host)).is_ok());
    assert!(CurrentDirectoryNodeFields::domain_id(&CurrentObject, &mut Host::new(&host)).is_ok());
    assert_eq!(host.count("home_le_field"), 16);
    assert_eq!(host.count("le_field"), 0);
    let missing = all_fields_not_found();
    assert_eq!(CurrentDirectoryNodeFields::owner(&CurrentObject, &mut Host::new(&missing)), Ok(None));
    assert_eq!(CurrentDirectoryNodeFields::taker_pays_currency(&CurrentObject, &mut Host::new(&missing)), Ok(None));
    assert_eq!(CurrentDirectoryNodeFields::taker_pays_issuer(&CurrentObject, &mut Host::new(&missing)), Ok(None));
    assert_eq!(CurrentDirectoryNodeFields::taker_pays_mpt(&CurrentObject, &mut Host::new(&missing)), Ok(None));
    assert_eq!(CurrentDirectoryNodeFields::taker_gets_currency(&CurrentObject, &mut Host::new(&missing)), Ok(None));
    assert_eq!(CurrentDirectoryNodeFields::taker_gets_issuer(&CurrentObject, &mut Host::new(&missing)), Ok(None));
    assert_eq!(CurrentDirectoryNodeFields::taker_gets_mpt(&CurrentObject, &mut Host::new(&missing)), Ok(None));
    assert_eq!(CurrentDirectoryNodeFields::exchange_rate(&CurrentObject, &mut Host::new(&missing)), Ok(None));
    assert_eq!(CurrentDirectoryNodeFields::indexes(&CurrentObject, &mut Host::new(&missing)).err(), Some(Error::FieldNotFound));
    assert_eq!(CurrentDirectoryNodeFields::root_index(&CurrentObject, &mut Host::new(&missing)).err(), Some(Error::FieldNotFound));
    assert_eq!(CurrentDirectoryNodeFields::index_next(&CurrentObject, &mut Host::new(&missing)), Ok(None));
    assert_eq!(CurrentDirectoryNodeFields::index_previous(&CurrentObject, &mut Host::new(&missing)), Ok(None));
    assert_eq!(CurrentDirectoryNodeFields::nftoken_id(&CurrentObject, &mut Host::new(&missing)), Ok(None));
    assert_eq!(CurrentDirectoryNodeFields::previous_txn_id(&CurrentObject, &mut Host::new(&missing)), Ok(None));
    assert_eq!(CurrentDirectoryNodeFields::previous_txn_lgr_seq(&CurrentObject, &mut Host::new(&missing)), Ok(None));
    assert_eq!(CurrentDirectoryNodeFields::domain_id(&CurrentObject, &mut Host::new(&missing)), Ok(None));
}

#[test]
fn escrow_getters_read_through_the_slot() {
    let host = slot_host(5);
    let obj = Escrow::new(5);
    assert!(obj.account(&mut Host::new(&host)).is_ok());
    assert!(obj.sequence(&mut Host::new(&host)).is_ok());
    assert!(obj.destination(&mut Host::new(&host)).is_ok());
    assert!(obj.amount(&mut Host::new(&host)).is_ok());
    assert!(obj.condition(&mut Host::new(&host)).is_ok());
    assert!(obj.cancel_after(&mut Host::new(&host)).is_ok());
    assert!(obj.finish_after(&mut Host::new(&host)).is_ok());
    assert!(obj.bytecode(&mut Host::new(&host)).is_ok());
    assert!(obj.data(&mut Host::new(&host)).is_ok());
    assert!(obj.source_tag(&mut Host::new(&host)).is_ok());
    assert!(obj.destination_tag(&mut Host::new(&host)).is_ok());
    assert!(obj.owner_node(&mut Host::new(&host)).is_ok());
    assert!(obj.previous_txn_id(&mut Host::new(&host)).is_ok());
    assert!(obj.previous_txn_lgr_seq(&mut Host::new(&host)).is_ok());
    assert!(obj.destination_node(&mut Host::new(&host)).is_ok());
    assert!(obj.transfer_rate(&mut Host::new(&host)).is_ok());
    assert!(obj.issuer_node(&mut Host::new(&host)).is_ok());
    assert_eq!(host.count("le_field"), 17);
}

#[test]
fn escrow_missing_fields() {
    let host = all_fields_not_found();
    let obj = Escrow::new(0);
    assert_eq!(obj.account(&mut Host::new(&host)).err(), Some(Error::FieldNotFound));
    assert_eq!(obj.sequence(&mut Host::new(&host)), Ok(None));
    assert_eq!(obj.destination(&mut Host::new(&host)).err(), Some(Error::FieldNotFound));
    assert_eq!(obj.amount(&mut Host::new(&host)).err(), Some(Error::FieldNotFound));
    assert_eq!(obj.condition(&mut Host::new(&host)), Ok(None));
    assert_eq!(obj.cancel_after(&mut Host::new(&host)), Ok(None));
    assert_eq!(obj.finish_after(&mut Host::new(&host)), Ok(None));
    assert_eq!(obj.bytecode(&mut Host::new(&host)), Ok(None));
    assert_eq!(obj.data(&mut Host::new(&host)), Ok(None));
    assert_eq!(obj.source_tag(&mut Host::new(&host)), Ok(None));
    assert_eq!(obj.destination_tag(&mut Host::new(&host)), Ok(None));
    assert_eq!(obj.owner_node(&mut Host::new(&host)).err(), Some(Error::FieldNotFound));
    assert_eq!(obj.previous_txn_id(&mut Host::new(&host)).err(), Some(Error::FieldNotFound));
    assert_eq!(obj.previous_txn_lgr_seq(&mut Host::new(&host)).err(), Some(Error::FieldNotFound));
    assert_eq!(obj.destination_node(&mut Host::new(&host)), Ok(None));
    assert_eq!(obj.transfer_rate(&mut Host::new(&host)), Ok(None));
    assert_eq!(obj.issuer_node(&mut Host::new(&host)), Ok(None));
}

#[test]
fn fee_settings_getters_read_through_the_slot() {
    let host = slot_host(5);
    let obj = FeeSettings::new(5);
    assert!(obj.get_base_fee(&mut Host::new(&host)).is_ok());
    assert!(obj.get_reference_fee_units(&mut Host::new(&host)).is_ok());
    assert!(obj.get_reserve_base(&mut Host::new(&host)).is_ok());
    assert!(obj.get_reserve_increment(&mut Host::new(&host)).is_ok());
    assert!(obj.get_base_fee_drops(&mut Host::new(&host)).is_ok());
    assert!(obj.get_reserve_base_drops(&mut Host::new(&host)).is_ok());
    assert!(obj.get_reserve_increment_drops(&mut Host::new(&host)).is_ok());
    assert!(obj.get_extension_compute_limit(&mut Host::new(&host)).is_ok());
    assert!(obj.get_extension_size_limit(&mut Host::new(&host)).is_ok());
    assert!(obj.get_gas_price(&mut Host::new(&host)).is_ok());
    assert!(obj.get_previous_txn_id(&mut Host::new(&host)).is_ok());
    assert!(obj.get_previous_txn_lgr_seq(&mut Host::new(&host)).is_ok());
    assert_eq!(host.count("le_field"), 12);
}

#[test]
fn fee_settings_missing_fields() {
    let host = all_fields_not_found();
    let obj = FeeSettings::new(0);
    assert_eq!(obj.get_base_fee(&mut Host::new(&host)), Ok(None));
    assert_eq!(obj.get_reference_fee_units(&mut Host::new(&host)), Ok(None));
    assert_eq!(obj.get_reserve_base(&mut Host::new(&host)), Ok(None));
    assert_eq!(obj.get_reserve_increment(&mut Host::new(&host)), Ok(None));
    assert_eq!(obj.get_base_fee_drops(&mut Host::new(&host)), Ok(None));
    assert_eq!(obj.get_reserve_base_drops(&mut Host::new(&host)), Ok(None));
    assert_eq!(obj.get_reserve_increment_drops(&mut Host::new(&host)), Ok(None));
    assert_eq!(obj.get_extension_compute_limit(&mut Host::new(&host)), Ok(None));
    assert_eq!(obj.get_extension_size_limit(&mut Host::new(&host)), Ok(None));
    assert_eq!(obj.get_gas_price(&mut Host::new(&host)), Ok(None));
    assert_eq!(obj.get_previous_txn_id(&mut Host::new(&host)), Ok(None));
    assert_eq!(obj.get_previous_txn_lgr_seq(&mut Host::new(&host)), Ok(None));
}

impl CurrentFeeSettingsFields for CurrentObject {}

#[test]
fn fee_settings_current_getters_read_the_current_object() {
    let host = all_fields_present();
    assert!(CurrentFeeSettingsFields::get_base_fee(&CurrentObject, &mut Host::new(&host)).is_ok());
    assert!(CurrentFeeSettingsFields::get_reference_fee_units(&CurrentObject, &mut Host::new(&host)).is_ok());
    assert!(CurrentFeeSettingsFields::get_reserve_base(&CurrentObject, &mut Host::new(&host)).is_ok());
    assert!(CurrentFeeSettingsFields::get_reserve_increment(&CurrentObject, &mut Host::new(&host)).is_ok());
    assert!(CurrentFeeSettingsFields::get_base_fee_drops(&CurrentObject, &mut Host::new(&host)).is_ok());
    assert!(CurrentFeeSettingsFields::get_reserve_base_drops(&CurrentObject, &mut Host::new(&host)).is_ok());
    assert!(CurrentFeeSettingsFields::get_reserve_increment_drops(&CurrentObject, &mut Host::new(&host)).is_ok());
    assert!(CurrentFeeSettingsFields::get_extension_compute_limit(&CurrentObject, &mut Host::new(&host)).is_ok());
    assert!(CurrentFeeSettingsFields::get_extension_size_limit(&CurrentObject, &mut Host::new(&host)).is_ok());
    assert!(CurrentFeeSettingsFields::get_gas_price(&CurrentObject, &mut Host::new(&host)).is_ok());
    assert!(CurrentFeeSettingsFields::get_previous_txn_id(&CurrentObject, &mut Host::new(&host)).is_ok());
    assert!(CurrentFeeSettingsFields::get_previous_txn_lgr_seq(&CurrentObject, &mut Host::new(&host)).is_ok());
    assert_eq!(host.count("home_le_field"), 12);
    assert_eq!(host.count("le_field"), 0);
    let missing = all_fields_not_found();
    assert_eq!(CurrentFeeSettingsFields::get_base_fee(&CurrentObject, &mut Host::new(&missing)), Ok(None));
    assert_eq!(CurrentFeeSettingsFields::get_reference_fee_units(&CurrentObject, &mut Host::new(&missing)), Ok(None));
    assert_eq!(CurrentFeeSettingsFields::get_reserve_base(&CurrentObject, &mut Host::new(&missing)), Ok(None));
    assert_eq!(CurrentFeeSettingsFields::get_reserve_increment(&CurrentObject, &mut Host::new(&missing)), Ok(None));
    assert_eq!(CurrentFeeSettingsFields::get_base_fee_drops(&CurrentObject, &mut Host::new(&missing)), Ok(None));
    assert_eq!(CurrentFeeSettingsFields::get_reserve_base_drops(&CurrentObject, &mut Host::new(&missing)), Ok(None));
    assert_eq!(CurrentFeeSettingsFields::get_reserve_increment_drops(&CurrentObject, &mut Host::new(&missing)), Ok(None));
    assert_eq!(CurrentFeeSettingsFields::get_extension_compute_limit(&CurrentObject, &mut Host::new(&missing)), Ok(None));
    assert_eq!(CurrentFeeSettingsFields::get_extension_size_limit(&CurrentObject, &mut Host::new(&missing)), Ok(None));
    assert_eq!(CurrentFeeSettingsFields::get_gas_price(&CurrentObject, &mut Host::new(&missing)), Ok(None));
    assert_eq!(CurrentFeeSettingsFields::get_previous_txn_id(&CurrentObject, &mut Host::new(&missing)), Ok(None));
    assert_eq!(CurrentFeeSettingsFields::get_previous_txn_lgr_seq(&CurrentObject, &mut Host::new(&missing)), Ok(None));
}

#[test]
fn ledger_hashes_getters_read_through_the_slot() {
    let host = slot_host(5);
    let obj = LedgerHashes::new(5);
    assert!(obj.first_ledger_sequence(&mut Host::new(&host)).is_ok());
    assert!(obj.last_ledger_sequence(&mut Host::new(&host)).is_ok());
    assert!(obj.hashes(&mut Host::new(&host)).is_ok());
    assert_eq!(host.count("le_field"), 3);
}

#[test]
fn ledger_hashes_missing_fields() {
    let host = all_fields_not_found();
    let obj = LedgerHashes::new(0);
    assert_eq!(obj.first_ledger_sequence(&mut Host::new(&host)), Ok(None));
    assert_eq!(obj.last_ledger_sequence(&mut Host::new(&host)), Ok(None));
    assert_eq!(obj.hashes(&mut Host::new(&host)).err(), Some(Error::FieldNotFound));
}

impl CurrentLedgerHashesFields for CurrentObject {}

#[test]
fn ledger_hashes_current_getters_read_the_current_object() {
    let host = all_fields_present();
    assert!(CurrentLedgerHashesFields::first_ledger_sequence(&CurrentObject, &mut Host::new(&host)).is_ok());
    assert!(CurrentLedgerHashesFields::last_ledger_sequence(&CurrentObject, &mut Host::new(&host)).is_ok());
    assert!(CurrentLedgerHashesFields::hashes(&CurrentObject, &mut Host::new(&host)).is_ok());
    assert_eq!(host.count("home_le_field"), 3);
    assert_eq!(host.count("le_field"), 0);
    let missing = all_fields_not_found();
    assert_eq!(CurrentLedgerHashesFields::first_ledger_sequence(&CurrentObject, &mut Host::new(&missing)), Ok(None));
    assert_eq!(CurrentLedgerHashesFields::last_ledger_sequence(&CurrentObject, &mut Host::new(&missing)), Ok(None));
    assert_eq!(CurrentLedgerHashesFields::hashes(&CurrentObject, &mut Host::new(&missing)).err(), Some(Error::FieldNotFound));
}

#[test]
fn loan_getters_read_through_the_slot() {
    let host = slot_host(5);
    let obj = Loan::new(5);
    assert!(obj.previous_txn_id(&mut Host::new(&host)).is_ok());
    assert!(obj.previous_txn_lgr_seq(&mut Host::new(&host)).is_ok());
    assert!(obj.owner_node(&mut Host::new(&host)).is_ok());
    assert!(obj.loan_broker_node(&mut Host::new(&host)).is_ok());
    assert!(obj.loan_broker_id(&mut Host::new(&host)).is_ok());
    assert!(obj.loan_sequence(&mut Host::new(&host)).is_ok());
    assert!(obj.borrower(&mut Host::new(&host)).is_ok());
    assert!(obj.loan_origination_fee(&mut Host::new(&host)).is_ok());
    assert!(obj.loan_service_fee(&mut Host::new(&host)).is_ok());
    assert!(obj.late_payment_fee(&mut Host::new(&host)).is_ok());
    assert!(obj.close_payment_fee(&mut Host::new(&host)).is_ok());
    assert!(obj.overpayment_fee(&mut Host::new(&host)).is_ok());
    assert!(obj.interest_rate(&mut Host::new(&host)).is_ok());
    assert!(obj.late_interest_rate(&mut Host::new(&host)).is_ok());
    assert!(obj.close_interest_rate(&mut Host::new(&host)).is_ok());
    assert!(obj.overpayment_interest_rate(&mut Host::new(&host)).is_ok());
    assert!(obj.start_date(&mut Host::new(&host)).is_ok());
    assert!(obj.payment_interval(&mut Host::new(&host)).is_ok());
    assert!(obj.grace_period(&mut Host::new(&host)).is_ok());
    assert!(obj.previous_payment_due_date(&mut Host::new(&host)).is_ok());
    assert!(obj.next_payment_due_date(&mut Host::new(&host)).is_ok());
    assert!(obj.payment_remaining(&mut Host::new(&host)).is_ok());
    assert!(obj.periodic_payment(&mut Host::new(&host)).is_ok());
    assert!(obj.principal_outstanding(&mut Host::new(&host)).is_ok());
    assert!(obj.total_value_outstanding(&mut Host::new(&host)).is_ok());
    assert!(obj.management_fee_outstanding(&mut Host::new(&host)).is_ok());
    assert!(obj.loan_scale(&mut Host::new(&host)).is_ok());
    assert_eq!(host.count("le_field"), 27);
}

#[test]
fn loan_missing_fields() {
    let host = all_fields_not_found();
    let obj = Loan::new(0);
    assert_eq!(obj.previous_txn_id(&mut Host::new(&host)).err(), Some(Error::FieldNotFound));
    assert_eq!(obj.previous_txn_lgr_seq(&mut Host::new(&host)).err(), Some(Error::FieldNotFound));
    assert_eq!(obj.owner_node(&mut Host::new(&host)).err(), Some(Error::FieldNotFound));
    assert_eq!(obj.loan_broker_node(&mut Host::new(&host)).err(), Some(Error::FieldNotFound));
    assert_eq!(obj.loan_broker_id(&mut Host::new(&host)).err(), Some(Error::FieldNotFound));
    assert_eq!(obj.loan_sequence(&mut Host::new(&host)).err(), Some(Error::FieldNotFound));
    assert_eq!(obj.borrower(&mut Host::new(&host)).err(), Some(Error::FieldNotFound));
    assert_eq!(obj.loan_origination_fee(&mut Host::new(&host)), Ok(None));
    assert_eq!(obj.loan_service_fee(&mut Host::new(&host)), Ok(None));
    assert_eq!(obj.late_payment_fee(&mut Host::new(&host)), Ok(None));
    assert_eq!(obj.close_payment_fee(&mut Host::new(&host)), Ok(None));
    assert_eq!(obj.overpayment_fee(&mut Host::new(&host)), Ok(None));
    assert_eq!(obj.interest_rate(&mut Host::new(&host)), Ok(None));
    assert_eq!(obj.late_interest_rate(&mut Host::new(&host)), Ok(None));
    assert_eq!(obj.close_interest_rate(&mut Host::new(&host)), Ok(None));
    assert_eq!(obj.overpayment_interest_rate(&mut Host::new(&host)), Ok(None));
    assert_eq!(obj.start_date(&mut Host::new(&host)).err(), Some(Error::FieldNotFound));
    assert_eq!(obj.payment_interval(&mut Host::new(&host)).err(), Some(Error::FieldNotFound));
    assert_eq!(obj.grace_period(&mut Host::new(&host)), Ok(None));
    assert_eq!(obj.previous_payment_due_date(&mut Host::new(&host)), Ok(None));
    assert_eq!(obj.next_payment_due_date(&mut Host::new(&host)), Ok(None));
    assert_eq!(obj.payment_remaining(&mut Host::new(&host)), Ok(None));
    assert_eq!(obj.periodic_payment(&mut Host::new(&host)).err(), Some(Error::FieldNotFound));
    assert_eq!(obj.principal_outstanding(&mut Host::new(&host)), Ok(None));
    assert_eq!(obj.total_value_outstanding(&mut Host::new(&host)), Ok(None));
    assert_eq!(obj.management_fee_outstanding(&mut Host::new(&host)), Ok(None));
    assert_eq!(obj.loan_scale(&mut Host::new(&host)), Ok(None));
}

impl CurrentLoanFields for CurrentObject {}

#[test]
fn loan_current_getters_read_the_current_object() {
    let host = all_fields_present();
    assert!(CurrentLoanFields::previous_txn_id(&CurrentObject, &mut Host::new(&host)).is_ok());
    assert!(CurrentLoanFields::previous_txn_lgr_seq(&CurrentObject, &mut Host::new(&host)).is_ok());
    assert!(CurrentLoanFields::owner_node(&CurrentObject, &mut Host::new(&host)).is_ok());
    assert!(CurrentLoanFields::loan_broker_node(&CurrentObject, &mut Host::new(&host)).is_ok());
    assert!(CurrentLoanFields::loan_broker_id(&CurrentObject, &mut Host::new(&host)).is_ok());
    assert!(CurrentLoanFields::loan_sequence(&CurrentObject, &mut Host::new(&host)).is_ok());
    assert!(CurrentLoanFields::borrower(&CurrentObject, &mut Host::new(&host)).is_ok());
    assert!(CurrentLoanFields::loan_origination_fee(&CurrentObject, &mut Host::new(&host)).is_ok());
    assert!(CurrentLoanFields::loan_service_fee(&CurrentObject, &mut Host::new(&host)).is_ok());
    assert!(CurrentLoanFields::late_payment_fee(&CurrentObject, &mut Host::new(&host)).is_ok());
    assert!(CurrentLoanFields::close_payment_fee(&CurrentObject, &mut Host::new(&host)).is_ok());
    assert!(CurrentLoanFields::overpayment_fee(&CurrentObject, &mut Host::new(&host)).is_ok());
    assert!(CurrentLoanFields::interest_rate(&CurrentObject, &mut Host::new(&host)).is_ok());
    assert!(CurrentLoanFields::late_interest_rate(&CurrentObject, &mut Host::new(&host)).is_ok());
    assert!(CurrentLoanFields::close_interest_rate(&CurrentObject, &mut Host::new(&host)).is_ok());
    assert!(CurrentLoanFields::overpayment_interest_rate(&CurrentObject, &mut Host::new(&host)).is_ok());
    assert!(CurrentLoanFields::start_date(&CurrentObject, &mut Host::new(&host)).is_ok());
    assert!(CurrentLoanFields::payment_interval(&CurrentObject, &mut Host::new(&host)).is_ok());
    assert!(CurrentLoanFields::grace_period(&CurrentObject, &mut Host::new(&host)).is_ok());
    assert!(CurrentLoanFields::previous_payment_due_date(&CurrentObject, &mut Host::new(&host)).is_ok());
    assert!(CurrentLoanFields::next_payment_due_date(&CurrentObject, &mut Host::new(&host)).is_ok());
    assert!(CurrentLoanFields::payment_remaining(&CurrentObject, &mut Host::new(&host)).is_ok());
    assert!(CurrentLoanFields::periodic_payment(&CurrentObject, &mut Host::new(&host)).is_ok());
    assert!(CurrentLoanFields::principal_outstanding(&CurrentObject, &mut Host::new(&host)).is_ok());
    assert!(CurrentLoanFields::total_value_outstanding(&CurrentObject, &mut Host::new(&host)).is_ok());
    assert!(CurrentLoanFields::management_fee_outstanding(&CurrentObject, &mut Host::new(&host)).is_ok());
    assert!(CurrentLoanFields::loan_scale(&CurrentObject, &mut Host::new(&host)).is_ok());
    assert_eq!(host.count("home_le_field"), 27);
    assert_eq!(host.count("le_field"), 0);
    let missing = all_fields_not_found();
    assert_eq!(CurrentLoanFields::previous_txn_id(&CurrentObject, &mut Host::new(&missing)).err(), Some(Error::FieldNotFound));
    assert_eq!(CurrentLoanFields::previous_txn_lgr_seq(&CurrentObject, &mut Host::new(&missing)).err(), Some(Error::FieldNotFound));
    assert_eq!(CurrentLoanFields::owner_node(&CurrentObject, &mut Host::new(&missing)).err(), Some(Error::FieldNotFound));
    assert_eq!(CurrentLoanFields::loan_broker_node(&CurrentObject, &mut Host::new(&missing)).err(), Some(Error::FieldNotFound));
    assert_eq!(CurrentLoanFields::loan_broker_id(&CurrentObject, &mut Host::new(&missing)).err(), Some(Error::FieldNotFound));
    assert_eq!(CurrentLoanFields::loan_sequence(&CurrentObject, &mut Host::new(&missing)).err(), Some(Error::FieldNotFound));
    assert_eq!(CurrentLoanFields::borrower(&CurrentObject, &mut Host::new(&missing)).err(), Some(Error::FieldNotFound));
    assert_eq!(CurrentLoanFields::loan_origination_fee(&CurrentObject, &mut Host::new(&missing)), Ok(None));
    assert_eq!(CurrentLoanFields::loan_service_fee(&CurrentObject, &mut Host::new(&missing)), Ok(None));
    assert_eq!(CurrentLoanFields::late_payment_fee(&CurrentObject, &mut Host::new(&missing)), Ok(None));
    assert_eq!(CurrentLoanFields::close_payment_fee(&CurrentObject, &mut Host::new(&missing)), Ok(None));
    assert_eq!(CurrentLoanFields::overpayment_fee(&CurrentObject, &mut Host::new(&missing)), Ok(None));
    assert_eq!(CurrentLoanFields::interest_rate(&CurrentObject, &mut Host::new(&missing)), Ok(None));
    assert_eq!(CurrentLoanFields::late_interest_rate(&CurrentObject, &mut Host::new(&missing)), Ok(None));
    assert_eq!(CurrentLoanFields::close_interest_rate(&CurrentObject, &mut Host::new(&missing)), Ok(None));
    assert_eq!(CurrentLoanFields::overpayment_interest_rate(&CurrentObject, &mut Host::new(&missing)), Ok(None));
    assert_eq!(CurrentLoanFields::start_date(&CurrentObject, &mut Host::new(&missing)).err(), Some(Error::FieldNotFound));
    assert_eq!(CurrentLoanFields::payment_interval(&CurrentObject, &mut Host::new(&missing)).err(), Some(Error::FieldNotFound));
    assert_eq!(CurrentLoanFields::grace_period(&CurrentObject, &mut Host::new(&missing)), Ok(None));
    assert_eq!(CurrentLoanFields::previous_payment_due_date(&CurrentObject, &mut Host::new(&missing)), Ok(None));
    assert_eq!(CurrentLoanFields::next_payment_due_date(&CurrentObject, &mut Host::new(&missing)), Ok(None));
    assert_eq!(CurrentLoanFields::payment_remaining(&CurrentObject, &mut Host::new(&missing)), Ok(None));
    assert_eq!(CurrentLoanFields::periodic_payment(&CurrentObject, &mut Host::new(&missing)).err(), Some(Error::FieldNotFound));
    assert_eq!(CurrentLoanFields::principal_outstanding(&CurrentObject, &mut Host::new(&missing)), Ok(None));
    assert_eq!(CurrentLoanFields::total_value_outstanding(&CurrentObject, &mut Host::new(&missing)), Ok(None));
    assert_eq!(CurrentLoanFields::management_fee_outstanding(&CurrentObject, &mut Host::new(&missing)), Ok(None));
    assert_eq!(CurrentLoanFields::loan_scale(&CurrentObject, &mut Host::new(&missing)), Ok(None));
}

#[test]
fn loan_broker_getters_read_through_the_slot() {
    let host = slot_host(5);
    let obj = LoanBroker::new(5);
    assert!(obj.previous_txn_id(&mut Host::new(&host)).is_ok());
    assert!(obj.previous_txn_lgr_seq(&mut Host::new(&host)).is_ok());
    assert!(obj.sequence(&mut Host::new(&host)).is_ok());
    assert!(obj.owner_node(&mut Host::new(&host)).is_ok());
    assert!(obj.vault_node(&mut Host::new(&host)).is_ok());
    assert!(obj.vault_id(&mut Host::new(&host)).is_ok());
    assert!(obj.account(&mut Host::new(&host)).is_ok());
    assert!(obj.owner(&mut Host::new(&host)).is_ok());
    assert!(obj.loan_sequence(&mut Host::new(&host)).is_ok());
    assert!(obj.data(&mut Host::new(&host)).is_ok());
    assert!(obj.management_fee_rate(&mut Host::new(&host)).is_ok());
    assert!(obj.owner_count(&mut Host::new(&host)).is_ok());
    assert!(obj.debt_total(&mut Host::new(&host)).is_ok());
    assert!(obj.debt_maximum(&mut Host::new(&host)).is_ok());
    assert!(obj.cover_available(&mut Host::new(&host)).is_ok());
    assert!(obj.cover_rate_minimum(&mut Host::new(&host)).is_ok());
    assert!(obj.cover_rate_liquidation(&mut Host::new(&host)).is_ok());
    assert_eq!(host.count("le_field"), 17);
}

#[test]
fn loan_broker_missing_fields() {
    let host = all_fields_not_found();
    let obj = LoanBroker::new(0);
    assert_eq!(obj.previous_txn_id(&mut Host::new(&host)).err(), Some(Error::FieldNotFound));
    assert_eq!(obj.previous_txn_lgr_seq(&mut Host::new(&host)).err(), Some(Error::FieldNotFound));
    assert_eq!(obj.sequence(&mut Host::new(&host)).err(), Some(Error::FieldNotFound));
    assert_eq!(obj.owner_node(&mut Host::new(&host)).err(), Some(Error::FieldNotFound));
    assert_eq!(obj.vault_node(&mut Host::new(&host)).err(), Some(Error::FieldNotFound));
    assert_eq!(obj.vault_id(&mut Host::new(&host)).err(), Some(Error::FieldNotFound));
    assert_eq!(obj.account(&mut Host::new(&host)).err(), Some(Error::FieldNotFound));
    assert_eq!(obj.owner(&mut Host::new(&host)).err(), Some(Error::FieldNotFound));
    assert_eq!(obj.loan_sequence(&mut Host::new(&host)).err(), Some(Error::FieldNotFound));
    assert_eq!(obj.data(&mut Host::new(&host)), Ok(None));
    assert_eq!(obj.management_fee_rate(&mut Host::new(&host)), Ok(None));
    assert_eq!(obj.owner_count(&mut Host::new(&host)), Ok(None));
    assert_eq!(obj.debt_total(&mut Host::new(&host)), Ok(None));
    assert_eq!(obj.debt_maximum(&mut Host::new(&host)), Ok(None));
    assert_eq!(obj.cover_available(&mut Host::new(&host)), Ok(None));
    assert_eq!(obj.cover_rate_minimum(&mut Host::new(&host)), Ok(None));
    assert_eq!(obj.cover_rate_liquidation(&mut Host::new(&host)), Ok(None));
}

impl CurrentLoanBrokerFields for CurrentObject {}

#[test]
fn loan_broker_current_getters_read_the_current_object() {
    let host = all_fields_present();
    assert!(CurrentLoanBrokerFields::previous_txn_id(&CurrentObject, &mut Host::new(&host)).is_ok());
    assert!(CurrentLoanBrokerFields::previous_txn_lgr_seq(&CurrentObject, &mut Host::new(&host)).is_ok());
    assert!(CurrentLoanBrokerFields::sequence(&CurrentObject, &mut Host::new(&host)).is_ok());
    assert!(CurrentLoanBrokerFields::owner_node(&CurrentObject, &mut Host::new(&host)).is_ok());
    assert!(CurrentLoanBrokerFields::vault_node(&CurrentObject, &mut Host::new(&host)).is_ok());
    assert!(CurrentLoanBrokerFields::vault_id(&CurrentObject, &mut Host::new(&host)).is_ok());
    assert!(CurrentLoanBrokerFields::account(&CurrentObject, &mut Host::new(&host)).is_ok());
    assert!(CurrentLoanBrokerFields::owner(&CurrentObject, &mut Host::new(&host)).is_ok());
    assert!(CurrentLoanBrokerFields::loan_sequence(&CurrentObject, &mut Host::new(&host)).is_ok());
    assert!(CurrentLoanBrokerFields::data(&CurrentObject, &mut Host::new(&host)).is_ok());
    assert!(CurrentLoanBrokerFields::management_fee_rate(&CurrentObject, &mut Host::new(&host)).is_ok());
    assert!(CurrentLoanBrokerFields::owner_count(&CurrentObject, &mut Host::new(&host)).is_ok());
    assert!(CurrentLoanBrokerFields::debt_total(&CurrentObject, &mut Host::new(&host)).is_ok());
    assert!(CurrentLoanBrokerFields::debt_maximum(&CurrentObject, &mut Host::new(&host)).is_ok());
    assert!(CurrentLoanBrokerFields::cover_available(&CurrentObject, &mut Host::new(&host)).is_ok());
    assert!(CurrentLoanBrokerFields::cover_rate_minimum(&CurrentObject, &mut Host::new(&host)).is_ok());
    assert!(CurrentLoanBrokerFields::cover_rate_liquidation(&CurrentObject, &mut Host::new(&host)).is_ok());
    assert_eq!(host.count("home_le_field"), 17);
    assert_eq!(host.count("le_field"), 0);
    let missing = all_fields_not_found();
    assert_eq!(CurrentLoanBrokerFields::previous_txn_id(&CurrentObject, &mut Host::new(&missing)).err(), Some(Error::FieldNotFound));
    assert_eq!(CurrentLoanBrokerFields::previous_txn_lgr_seq(&CurrentObject, &mut Host::new(&missing)).err(), Some(Error::FieldNotFound));
    assert_eq!(CurrentLoanBrokerFields::sequence(&CurrentObject, &mut Host::new(&missing)).err(), Some(Error::FieldNotFound));
    assert_eq!(CurrentLoanBrokerFields::owner_node(&CurrentObject, &mut Host::new(&missing)).err(), Some(Error::FieldNotFound));
    assert_eq!(CurrentLoanBrokerFields::vault_node(&CurrentObject, &mut Host::new(&missing)).err(), Some(Error::FieldNotFound));
    assert_eq!(CurrentLoanBrokerFields::vault_id(&CurrentObject, &mut Host::new(&missing)).err(), Some(Error::FieldNotFound));
    assert_eq!(CurrentLoanBrokerFields::account(&CurrentObject, &mut Host::new(&missing)).err(), Some(Error::FieldNotFound));
    assert_eq!(CurrentLoanBrokerFields::owner(&CurrentObject, &mut Host::new(&missing)).err(), Some(Error::FieldNotFound));
    assert_eq!(CurrentLoanBrokerFields::loan_sequence(&CurrentObject, &mut Host::new(&missing)).err(), Some(Error::FieldNotFound));
    assert_eq!(CurrentLoanBrokerFields::data(&CurrentObject, &mut Host::new(&missing)), Ok(None));
    assert_eq!(CurrentLoanBrokerFields::management_fee_rate(&CurrentObject, &mut Host::new(&missing)), Ok(None));
    assert_eq!(CurrentLoanBrokerFields::owner_count(&CurrentObject, &mut Host::new(&missing)), Ok(None));
    assert_eq!(CurrentLoanBrokerFields::debt_total(&CurrentObject, &mut Host::new(&missing)), Ok(None));
    assert_eq!(CurrentLoanBrokerFields::debt_maximum(&CurrentObject, &mut Host::new(&missing)), Ok(None));
    assert_eq!(CurrentLoanBrokerFields::cover_available(&CurrentObject, &mut Host::new(&missing)), Ok(None));
    assert_eq!(CurrentLoanBrokerFields::cover_rate_minimum(&CurrentObject, &mut Host::new(&missing)), Ok(None));
    assert_eq!(CurrentLoanBrokerFields::cover_rate_liquidation(&CurrentObject, &mut Host::new(&missing)), Ok(None));
}

#[test]
fn mptoken_getters_read_through_the_slot() {
    let host = slot_host(5);
    let obj = MPToken::new(5);
    assert!(obj.account(&mut Host::new(&host)).is_ok());
    assert!(obj.mptoken_issuance_id(&mut Host::new(&host)).is_ok());
    assert!(obj.mpt_amount(&mut Host::new(&host)).is_ok());
    assert!(obj.locked_amount(&mut Host::new(&host)).is_ok());
    assert!(obj.owner_node(&mut Host::new(&host)).is_ok());
    assert!(obj.previous_txn_id(&mut Host::new(&host)).is_ok());
    assert!(obj.previous_txn_lgr_seq(&mut Host::new(&host)).is_ok());
    assert!(obj.confidential_balance_inbox(&mut Host::new(&host)).is_ok());
    assert!(obj.confidential_balance_spending(&mut Host::new(&host)).is_ok());
    assert!(obj.confidential_balance_version(&mut Host::new(&host)).is_ok());
    assert!(obj.issuer_encrypted_balance(&mut Host::new(&host)).is_ok());
    assert!(obj.auditor_encrypted_balance(&mut Host::new(&host)).is_ok());
    assert!(obj.holder_encryption_key(&mut Host::new(&host)).is_ok());
    assert_eq!(host.count("le_field"), 13);
}

#[test]
fn mptoken_missing_fields() {
    let host = all_fields_not_found();
    let obj = MPToken::new(0);
    assert_eq!(obj.account(&mut Host::new(&host)).err(), Some(Error::FieldNotFound));
    assert_eq!(obj.mptoken_issuance_id(&mut Host::new(&host)).err(), Some(Error::FieldNotFound));
    assert_eq!(obj.mpt_amount(&mut Host::new(&host)), Ok(None));
    assert_eq!(obj.locked_amount(&mut Host::new(&host)), Ok(None));
    assert_eq!(obj.owner_node(&mut Host::new(&host)).err(), Some(Error::FieldNotFound));
    assert_eq!(obj.previous_txn_id(&mut Host::new(&host)).err(), Some(Error::FieldNotFound));
    assert_eq!(obj.previous_txn_lgr_seq(&mut Host::new(&host)).err(), Some(Error::FieldNotFound));
    assert_eq!(obj.confidential_balance_inbox(&mut Host::new(&host)), Ok(None));
    assert_eq!(obj.confidential_balance_spending(&mut Host::new(&host)), Ok(None));
    assert_eq!(obj.confidential_balance_version(&mut Host::new(&host)), Ok(None));
    assert_eq!(obj.issuer_encrypted_balance(&mut Host::new(&host)), Ok(None));
    assert_eq!(obj.auditor_encrypted_balance(&mut Host::new(&host)), Ok(None));
    assert_eq!(obj.holder_encryption_key(&mut Host::new(&host)), Ok(None));
}

impl CurrentMPTokenFields for CurrentObject {}

#[test]
fn mptoken_current_getters_read_the_current_object() {
    let host = all_fields_present();
    assert!(CurrentMPTokenFields::account(&CurrentObject, &mut Host::new(&host)).is_ok());
    assert!(CurrentMPTokenFields::mptoken_issuance_id(&CurrentObject, &mut Host::new(&host)).is_ok());
    assert!(CurrentMPTokenFields::mpt_amount(&CurrentObject, &mut Host::new(&host)).is_ok());
    assert!(CurrentMPTokenFields::locked_amount(&CurrentObject, &mut Host::new(&host)).is_ok());
    assert!(CurrentMPTokenFields::owner_node(&CurrentObject, &mut Host::new(&host)).is_ok());
    assert!(CurrentMPTokenFields::previous_txn_id(&CurrentObject, &mut Host::new(&host)).is_ok());
    assert!(CurrentMPTokenFields::previous_txn_lgr_seq(&CurrentObject, &mut Host::new(&host)).is_ok());
    assert!(CurrentMPTokenFields::confidential_balance_inbox(&CurrentObject, &mut Host::new(&host)).is_ok());
    assert!(CurrentMPTokenFields::confidential_balance_spending(&CurrentObject, &mut Host::new(&host)).is_ok());
    assert!(CurrentMPTokenFields::confidential_balance_version(&CurrentObject, &mut Host::new(&host)).is_ok());
    assert!(CurrentMPTokenFields::issuer_encrypted_balance(&CurrentObject, &mut Host::new(&host)).is_ok());
    assert!(CurrentMPTokenFields::auditor_encrypted_balance(&CurrentObject, &mut Host::new(&host)).is_ok());
    assert!(CurrentMPTokenFields::holder_encryption_key(&CurrentObject, &mut Host::new(&host)).is_ok());
    assert_eq!(host.count("home_le_field"), 13);
    assert_eq!(host.count("le_field"), 0);
    let missing = all_fields_not_found();
    assert_eq!(CurrentMPTokenFields::account(&CurrentObject, &mut Host::new(&missing)).err(), Some(Error::FieldNotFound));
    assert_eq!(CurrentMPTokenFields::mptoken_issuance_id(&CurrentObject, &mut Host::new(&missing)).err(), Some(Error::FieldNotFound));
    assert_eq!(CurrentMPTokenFields::mpt_amount(&CurrentObject, &mut Host::new(&missing)), Ok(None));
    assert_eq!(CurrentMPTokenFields::locked_amount(&CurrentObject, &mut Host::new(&missing)), Ok(None));
    assert_eq!(CurrentMPTokenFields::owner_node(&CurrentObject, &mut Host::new(&missing)).err(), Some(Error::FieldNotFound));
    assert_eq!(CurrentMPTokenFields::previous_txn_id(&CurrentObject, &mut Host::new(&missing)).err(), Some(Error::FieldNotFound));
    assert_eq!(CurrentMPTokenFields::previous_txn_lgr_seq(&CurrentObject, &mut Host::new(&missing)).err(), Some(Error::FieldNotFound));
    assert_eq!(CurrentMPTokenFields::confidential_balance_inbox(&CurrentObject, &mut Host::new(&missing)), Ok(None));
    assert_eq!(CurrentMPTokenFields::confidential_balance_spending(&CurrentObject, &mut Host::new(&missing)), Ok(None));
    assert_eq!(CurrentMPTokenFields::confidential_balance_version(&CurrentObject, &mut Host::new(&missing)), Ok(None));
    assert_eq!(CurrentMPTokenFields::issuer_encrypted_balance(&CurrentObject, &mut Host::new(&missing)), Ok(None));
    assert_eq!(CurrentMPTokenFields::auditor_encrypted_balance(&CurrentObject, &mut Host::new(&missing)), Ok(None));
    assert_eq!(CurrentMPTokenFields::holder_encryption_key(&CurrentObject, &mut Host::new(&missing)), Ok(None));
}

#[test]
fn mptoken_issuance_getters_read_through_the_slot() {
    let host = slot_host(5);
    let obj = MPTokenIssuance::new(5);
    assert!(obj.get_issuer(&mut Host::new(&host)).is_ok());
    assert!(obj.get_sequence(&mut Host::new(&host)).is_ok());
    assert!(obj.get_transfer_fee(&mut Host::new(&host)).is_ok());
    assert!(obj.get_owner_node(&mut Host::new(&host)).is_ok());
    assert!(obj.get_asset_scale(&mut Host::new(&host)).is_ok());
    assert!(obj.get_maximum_amount(&mut Host::new(&host)).is_ok());
    assert!(obj.get_outstanding_amount(&mut Host::new(&host)).is_ok());
    assert!(obj.get_locked_amount(&mut Host::new(&host)).is_ok());
    assert!(obj.get_mptoken_metadata(&mut Host::new(&host)).is_ok());
    assert!(obj.get_previous_txn_id(&mut Host::new(&host)).is_ok());
    assert!(obj.get_previous_txn_lgr_seq(&mut Host::new(&host)).is_ok());
    assert!(obj.get_domain_id(&mut Host::new(&host)).is_ok());
    assert!(obj.get_mutable_flags(&mut Host::new(&host)).is_ok());
    assert_eq!(host.count("le_field"), 13);
}

#[test]
fn mptoken_issuance_missing_fields() {
    let host = all_fields_not_found();
    let obj = MPTokenIssuance::new(0);
    assert_eq!(obj.get_issuer(&mut Host::new(&host)).err(), Some(Error::FieldNotFound));
    assert_eq!(obj.get_sequence(&mut Host::new(&host)).err(), Some(Error::FieldNotFound));
    assert_eq!(obj.get_transfer_fee(&mut Host::new(&host)), Ok(None));
    assert_eq!(obj.get_owner_node(&mut Host::new(&host)).err(), Some(Error::FieldNotFound));
    assert_eq!(obj.get_asset_scale(&mut Host::new(&host)), Ok(None));
    assert_eq!(obj.get_maximum_amount(&mut Host::new(&host)), Ok(None));
    assert_eq!(obj.get_outstanding_amount(&mut Host::new(&host)).err(), Some(Error::FieldNotFound));
    assert_eq!(obj.get_locked_amount(&mut Host::new(&host)), Ok(None));
    assert_eq!(obj.get_mptoken_metadata(&mut Host::new(&host)), Ok(None));
    assert_eq!(obj.get_previous_txn_id(&mut Host::new(&host)).err(), Some(Error::FieldNotFound));
    assert_eq!(obj.get_previous_txn_lgr_seq(&mut Host::new(&host)).err(), Some(Error::FieldNotFound));
    assert_eq!(obj.get_domain_id(&mut Host::new(&host)), Ok(None));
    assert_eq!(obj.get_mutable_flags(&mut Host::new(&host)), Ok(None));
}

impl CurrentMPTokenIssuanceFields for CurrentObject {}

#[test]
fn mptoken_issuance_current_getters_read_the_current_object() {
    let host = all_fields_present();
    assert!(CurrentMPTokenIssuanceFields::get_issuer(&CurrentObject, &mut Host::new(&host)).is_ok());
    assert!(CurrentMPTokenIssuanceFields::get_sequence(&CurrentObject, &mut Host::new(&host)).is_ok());
    assert!(CurrentMPTokenIssuanceFields::get_transfer_fee(&CurrentObject, &mut Host::new(&host)).is_ok());
    assert!(CurrentMPTokenIssuanceFields::get_owner_node(&CurrentObject, &mut Host::new(&host)).is_ok());
    assert!(CurrentMPTokenIssuanceFields::get_asset_scale(&CurrentObject, &mut Host::new(&host)).is_ok());
    assert!(CurrentMPTokenIssuanceFields::get_maximum_amount(&CurrentObject, &mut Host::new(&host)).is_ok());
    assert!(CurrentMPTokenIssuanceFields::get_outstanding_amount(&CurrentObject, &mut Host::new(&host)).is_ok());
    assert!(CurrentMPTokenIssuanceFields::get_locked_amount(&CurrentObject, &mut Host::new(&host)).is_ok());
    assert!(CurrentMPTokenIssuanceFields::get_mptoken_metadata(&CurrentObject, &mut Host::new(&host)).is_ok());
    assert!(CurrentMPTokenIssuanceFields::get_previous_txn_id(&CurrentObject, &mut Host::new(&host)).is_ok());
    assert!(CurrentMPTokenIssuanceFields::get_previous_txn_lgr_seq(&CurrentObject, &mut Host::new(&host)).is_ok());
    assert!(CurrentMPTokenIssuanceFields::get_domain_id(&CurrentObject, &mut Host::new(&host)).is_ok());
    assert!(CurrentMPTokenIssuanceFields::get_mutable_flags(&CurrentObject, &mut Host::new(&host)).is_ok());
    assert_eq!(host.count("home_le_field"), 13);
    assert_eq!(host.count("le_field"), 0);
    let missing = all_fields_not_found();
    assert_eq!(CurrentMPTokenIssuanceFields::get_issuer(&CurrentObject, &mut Host::new(&missing)).err(), Some(Error::FieldNotFound));
    assert_eq!(CurrentMPTokenIssuanceFields::get_sequence(&CurrentObject, &mut Host::new(&missing)).err(), Some(Error::FieldNotFound));
    assert_eq!(CurrentMPTokenIssuanceFields::get_transfer_fee(&CurrentObject, &mut Host::new(&missing)), Ok(None));
    assert_eq!(CurrentMPTokenIssuanceFields::get_owner_node(&CurrentObject, &mut Host::new(&missing)).err(), Some(Error::FieldNotFound));
    assert_eq!(CurrentMPTokenIssuanceFields::get_asset_scale(&CurrentObject, &mut Host::new(&missing)), Ok(None));
    assert_eq!(CurrentMPTokenIssuanceFields::get_maximum_amount(&CurrentObject, &mut Host::new(&missing)), Ok(None));
    assert_eq!(CurrentMPTokenIssuanceFields::get_outstanding_amount(&CurrentObject, &mut Host::new(&missing)).err(), Some(Error::FieldNotFound));
    assert_eq!(CurrentMPTokenIssuanceFields::get_locked_amount(&CurrentObject, &mut Host::new(&missing)), Ok(None));
    assert_eq!(CurrentMPTokenIssuanceFields::get_mptoken_metadata(&CurrentObject, &mut Host::new(&missing)), Ok(None));
    assert_eq!(CurrentMPTokenIssuanceFields::get_previous_txn_id(&CurrentObject, &mut Host::new(&missing)).err(), Some(Error::FieldNotFound));
    assert_eq!(CurrentMPTokenIssuanceFields::get_previous_txn_lgr_seq(&CurrentObject, &mut Host::new(&missing)).err(), Some(Error::FieldNotFound));
    assert_eq!(CurrentMPTokenIssuanceFields::get_domain_id(&CurrentObject, &mut Host::new(&missing)), Ok(None));
    assert_eq!(CurrentMPTokenIssuanceFields::get_mutable_flags(&CurrentObject, &mut Host::new(&missing)), Ok(None));
}

#[test]
fn negative_unl_getters_read_through_the_slot() {
    let host = slot_host(5);
    let obj = NegativeUNL::new(5);
    assert!(obj.get_validator_to_disable(&mut Host::new(&host)).is_ok());
    assert!(obj.get_validator_to_re_enable(&mut Host::new(&host)).is_ok());
    assert!(obj.get_previous_txn_id(&mut Host::new(&host)).is_ok());
    assert!(obj.get_previous_txn_lgr_seq(&mut Host::new(&host)).is_ok());
    assert_eq!(host.count("le_field"), 4);
}

#[test]
fn negative_unl_missing_fields() {
    let host = all_fields_not_found();
    let obj = NegativeUNL::new(0);
    assert_eq!(obj.get_validator_to_disable(&mut Host::new(&host)), Ok(None));
    assert_eq!(obj.get_validator_to_re_enable(&mut Host::new(&host)), Ok(None));
    assert_eq!(obj.get_previous_txn_id(&mut Host::new(&host)), Ok(None));
    assert_eq!(obj.get_previous_txn_lgr_seq(&mut Host::new(&host)), Ok(None));
}

impl CurrentNegativeUNLFields for CurrentObject {}

#[test]
fn negative_unl_current_getters_read_the_current_object() {
    let host = all_fields_present();
    assert!(CurrentNegativeUNLFields::get_validator_to_disable(&CurrentObject, &mut Host::new(&host)).is_ok());
    assert!(CurrentNegativeUNLFields::get_validator_to_re_enable(&CurrentObject, &mut Host::new(&host)).is_ok());
    assert!(CurrentNegativeUNLFields::get_previous_txn_id(&CurrentObject, &mut Host::new(&host)).is_ok());
    assert!(CurrentNegativeUNLFields::get_previous_txn_lgr_seq(&CurrentObject, &mut Host::new(&host)).is_ok());
    assert_eq!(host.count("home_le_field"), 4);
    assert_eq!(host.count("le_field"), 0);
    let missing = all_fields_not_found();
    assert_eq!(CurrentNegativeUNLFields::get_validator_to_disable(&CurrentObject, &mut Host::new(&missing)), Ok(None));
    assert_eq!(CurrentNegativeUNLFields::get_validator_to_re_enable(&CurrentObject, &mut Host::new(&missing)), Ok(None));
    assert_eq!(CurrentNegativeUNLFields::get_previous_txn_id(&CurrentObject, &mut Host::new(&missing)), Ok(None));
    assert_eq!(CurrentNegativeUNLFields::get_previous_txn_lgr_seq(&CurrentObject, &mut Host::new(&missing)), Ok(None));
}

#[test]
fn nftoken_offer_getters_read_through_the_slot() {
    let host = slot_host(5);
    let obj = NFTokenOffer::new(5);
    assert!(obj.get_owner(&mut Host::new(&host)).is_ok());
    assert!(obj.get_nftoken_id(&mut Host::new(&host)).is_ok());
    assert!(obj.get_amount(&mut Host::new(&host)).is_ok());
    assert!(obj.get_owner_node(&mut Host::new(&host)).is_ok());
    assert!(obj.get_nftoken_offer_node(&mut Host::new(&host)).is_ok());
    assert!(obj.get_destination(&mut Host::new(&host)).is_ok());
    assert!(obj.get_expiration(&mut Host::new(&host)).is_ok());
    assert!(obj.get_previous_txn_id(&mut Host::new(&host)).is_ok());
    assert!(obj.get_previous_txn_lgr_seq(&mut Host::new(&host)).is_ok());
    assert_eq!(host.count("le_field"), 9);
}

#[test]
fn nftoken_offer_missing_fields() {
    let host = all_fields_not_found();
    let obj = NFTokenOffer::new(0);
    assert_eq!(obj.get_owner(&mut Host::new(&host)).err(), Some(Error::FieldNotFound));
    assert_eq!(obj.get_nftoken_id(&mut Host::new(&host)).err(), Some(Error::FieldNotFound));
    assert_eq!(obj.get_amount(&mut Host::new(&host)).err(), Some(Error::FieldNotFound));
    assert_eq!(obj.get_owner_node(&mut Host::new(&host)).err(), Some(Error::FieldNotFound));
    assert_eq!(obj.get_nftoken_offer_node(&mut Host::new(&host)).err(), Some(Error::FieldNotFound));
    assert_eq!(obj.get_destination(&mut Host::new(&host)), Ok(None));
    assert_eq!(obj.get_expiration(&mut Host::new(&host)), Ok(None));
    assert_eq!(obj.get_previous_txn_id(&mut Host::new(&host)).err(), Some(Error::FieldNotFound));
    assert_eq!(obj.get_previous_txn_lgr_seq(&mut Host::new(&host)).err(), Some(Error::FieldNotFound));
}

impl CurrentNFTokenOfferFields for CurrentObject {}

#[test]
fn nftoken_offer_current_getters_read_the_current_object() {
    let host = all_fields_present();
    assert!(CurrentNFTokenOfferFields::get_owner(&CurrentObject, &mut Host::new(&host)).is_ok());
    assert!(CurrentNFTokenOfferFields::get_nftoken_id(&CurrentObject, &mut Host::new(&host)).is_ok());
    assert!(CurrentNFTokenOfferFields::get_amount(&CurrentObject, &mut Host::new(&host)).is_ok());
    assert!(CurrentNFTokenOfferFields::get_owner_node(&CurrentObject, &mut Host::new(&host)).is_ok());
    assert!(CurrentNFTokenOfferFields::get_nftoken_offer_node(&CurrentObject, &mut Host::new(&host)).is_ok());
    assert!(CurrentNFTokenOfferFields::get_destination(&CurrentObject, &mut Host::new(&host)).is_ok());
    assert!(CurrentNFTokenOfferFields::get_expiration(&CurrentObject, &mut Host::new(&host)).is_ok());
    assert!(CurrentNFTokenOfferFields::get_previous_txn_id(&CurrentObject, &mut Host::new(&host)).is_ok());
    assert!(CurrentNFTokenOfferFields::get_previous_txn_lgr_seq(&CurrentObject, &mut Host::new(&host)).is_ok());
    assert_eq!(host.count("home_le_field"), 9);
    assert_eq!(host.count("le_field"), 0);
    let missing = all_fields_not_found();
    assert_eq!(CurrentNFTokenOfferFields::get_owner(&CurrentObject, &mut Host::new(&missing)).err(), Some(Error::FieldNotFound));
    assert_eq!(CurrentNFTokenOfferFields::get_nftoken_id(&CurrentObject, &mut Host::new(&missing)).err(), Some(Error::FieldNotFound));
    assert_eq!(CurrentNFTokenOfferFields::get_amount(&CurrentObject, &mut Host::new(&missing)).err(), Some(Error::FieldNotFound));
    assert_eq!(CurrentNFTokenOfferFields::get_owner_node(&CurrentObject, &mut Host::new(&missing)).err(), Some(Error::FieldNotFound));
    assert_eq!(CurrentNFTokenOfferFields::get_nftoken_offer_node(&CurrentObject, &mut Host::new(&missing)).err(), Some(Error::FieldNotFound));
    assert_eq!(CurrentNFTokenOfferFields::get_destination(&CurrentObject, &mut Host::new(&missing)), Ok(None));
    assert_eq!(CurrentNFTokenOfferFields::get_expiration(&CurrentObject, &mut Host::new(&missing)), Ok(None));
    assert_eq!(CurrentNFTokenOfferFields::get_previous_txn_id(&CurrentObject, &mut Host::new(&missing)).err(), Some(Error::FieldNotFound));
    assert_eq!(CurrentNFTokenOfferFields::get_previous_txn_lgr_seq(&CurrentObject, &mut Host::new(&missing)).err(), Some(Error::FieldNotFound));
}

#[test]
fn nftoken_page_getters_read_through_the_slot() {
    let host = slot_host(5);
    let obj = NFTokenPage::new(5);
    assert!(obj.get_previous_page_min(&mut Host::new(&host)).is_ok());
    assert!(obj.get_next_page_min(&mut Host::new(&host)).is_ok());
    assert!(obj.get_previous_txn_id(&mut Host::new(&host)).is_ok());
    assert!(obj.get_previous_txn_lgr_seq(&mut Host::new(&host)).is_ok());
    assert_eq!(host.count("le_field"), 4);
}

#[test]
fn nftoken_page_missing_fields() {
    let host = all_fields_not_found();
    let obj = NFTokenPage::new(0);
    assert_eq!(obj.get_previous_page_min(&mut Host::new(&host)), Ok(None));
    assert_eq!(obj.get_next_page_min(&mut Host::new(&host)), Ok(None));
    assert_eq!(obj.get_previous_txn_id(&mut Host::new(&host)).err(), Some(Error::FieldNotFound));
    assert_eq!(obj.get_previous_txn_lgr_seq(&mut Host::new(&host)).err(), Some(Error::FieldNotFound));
}

impl CurrentNFTokenPageFields for CurrentObject {}

#[test]
fn nftoken_page_current_getters_read_the_current_object() {
    let host = all_fields_present();
    assert!(CurrentNFTokenPageFields::get_previous_page_min(&CurrentObject, &mut Host::new(&host)).is_ok());
    assert!(CurrentNFTokenPageFields::get_next_page_min(&CurrentObject, &mut Host::new(&host)).is_ok());
    assert!(CurrentNFTokenPageFields::get_previous_txn_id(&CurrentObject, &mut Host::new(&host)).is_ok());
    assert!(CurrentNFTokenPageFields::get_previous_txn_lgr_seq(&CurrentObject, &mut Host::new(&host)).is_ok());
    assert_eq!(host.count("home_le_field"), 4);
    assert_eq!(host.count("le_field"), 0);
    let missing = all_fields_not_found();
    assert_eq!(CurrentNFTokenPageFields::get_previous_page_min(&CurrentObject, &mut Host::new(&missing)), Ok(None));
    assert_eq!(CurrentNFTokenPageFields::get_next_page_min(&CurrentObject, &mut Host::new(&missing)), Ok(None));
    assert_eq!(CurrentNFTokenPageFields::get_previous_txn_id(&CurrentObject, &mut Host::new(&missing)).err(), Some(Error::FieldNotFound));
    assert_eq!(CurrentNFTokenPageFields::get_previous_txn_lgr_seq(&CurrentObject, &mut Host::new(&missing)).err(), Some(Error::FieldNotFound));
}

#[test]
fn offer_getters_read_through_the_slot() {
    let host = slot_host(5);
    let obj = Offer::new(5);
    assert!(obj.account(&mut Host::new(&host)).is_ok());
    assert!(obj.sequence(&mut Host::new(&host)).is_ok());
    assert!(obj.taker_pays(&mut Host::new(&host)).is_ok());
    assert!(obj.taker_gets(&mut Host::new(&host)).is_ok());
    assert!(obj.book_directory(&mut Host::new(&host)).is_ok());
    assert!(obj.book_node(&mut Host::new(&host)).is_ok());
    assert!(obj.owner_node(&mut Host::new(&host)).is_ok());
    assert!(obj.previous_txn_id(&mut Host::new(&host)).is_ok());
    assert!(obj.previous_txn_lgr_seq(&mut Host::new(&host)).is_ok());
    assert!(obj.expiration(&mut Host::new(&host)).is_ok());
    assert!(obj.domain_id(&mut Host::new(&host)).is_ok());
    assert_eq!(host.count("le_field"), 11);
}

#[test]
fn offer_missing_fields() {
    let host = all_fields_not_found();
    let obj = Offer::new(0);
    assert_eq!(obj.account(&mut Host::new(&host)).err(), Some(Error::FieldNotFound));
    assert_eq!(obj.sequence(&mut Host::new(&host)).err(), Some(Error::FieldNotFound));
    assert_eq!(obj.taker_pays(&mut Host::new(&host)).err(), Some(Error::FieldNotFound));
    assert_eq!(obj.taker_gets(&mut Host::new(&host)).err(), Some(Error::FieldNotFound));
    assert_eq!(obj.book_directory(&mut Host::new(&host)).err(), Some(Error::FieldNotFound));
    assert_eq!(obj.book_node(&mut Host::new(&host)).err(), Some(Error::FieldNotFound));
    assert_eq!(obj.owner_node(&mut Host::new(&host)).err(), Some(Error::FieldNotFound));
    assert_eq!(obj.previous_txn_id(&mut Host::new(&host)).err(), Some(Error::FieldNotFound));
    assert_eq!(obj.previous_txn_lgr_seq(&mut Host::new(&host)).err(), Some(Error::FieldNotFound));
    assert_eq!(obj.expiration(&mut Host::new(&host)), Ok(None));
    assert_eq!(obj.domain_id(&mut Host::new(&host)), Ok(None));
}

impl CurrentOfferFields for CurrentObject {}

#[test]
fn offer_current_getters_read_the_current_object() {
    let host = all_fields_present();
    assert!(CurrentOfferFields::account(&CurrentObject, &mut Host::new(&host)).is_ok());
    assert!(CurrentOfferFields::sequence(&CurrentObject, &mut Host::new(&host)).is_ok());
    assert!(CurrentOfferFields::taker_pays(&CurrentObject, &mut Host::new(&host)).is_ok());
    assert!(CurrentOfferFields::taker_gets(&CurrentObject, &mut Host::new(&host)).is_ok());
    assert!(CurrentOfferFields::book_directory(&CurrentObject, &mut Host::new(&host)).is_ok());
    assert!(CurrentOfferFields::book_node(&CurrentObject, &mut Host::new(&host)).is_ok());
    assert!(CurrentOfferFields::owner_node(&CurrentObject, &mut Host::new(&host)).is_ok());
    assert!(CurrentOfferFields::previous_txn_id(&CurrentObject, &mut Host::new(&host)).is_ok());
    assert!(CurrentOfferFields::previous_txn_lgr_seq(&CurrentObject, &mut Host::new(&host)).is_ok());
    assert!(CurrentOfferFields::expiration(&CurrentObject, &mut Host::new(&host)).is_ok());
    assert!(CurrentOfferFields::domain_id(&CurrentObject, &mut Host::new(&host)).is_ok());
    assert_eq!(host.count("home_le_field"), 11);
    assert_eq!(host.count("le_field"), 0);
    let missing = all_fields_not_found();
    assert_eq!(CurrentOfferFields::account(&CurrentObject, &mut Host::new(&missing)).err(), Some(Error::FieldNotFound));
    assert_eq!(CurrentOfferFields::sequence(&CurrentObject, &mut Host::new(&missing)).err(), Some(Error::FieldNotFound));
    assert_eq!(CurrentOfferFields::taker_pays(&CurrentObject, &mut Host::new(&missing)).err(), Some(Error::FieldNotFound));
    assert_eq!(CurrentOfferFields::taker_gets(&CurrentObject, &mut Host::new(&missing)).err(), Some(Error::FieldNotFound));
    assert_eq!(CurrentOfferFields::book_directory(&CurrentObject, &mut Host::new(&missing)).err(), Some(Error::FieldNotFound));
    assert_eq!(CurrentOfferFields::book_node(&CurrentObject, &mut Host::new(&missing)).err(), Some(Error::FieldNotFound));
    assert_eq!(CurrentOfferFields::owner_node(&CurrentObject, &mut Host::new(&missing)).err(), Some(Error::FieldNotFound));
    assert_eq!(CurrentOfferFields::previous_txn_id(&CurrentObject, &mut Host::new(&missing)).err(), Some(Error::FieldNotFound));
    assert_eq!(CurrentOfferFields::previous_txn_lgr_seq(&CurrentObject, &mut Host::new(&missing)).err(), Some(Error::FieldNotFound));
    assert_eq!(CurrentOfferFields::expiration(&CurrentObject, &mut Host::new(&missing)), Ok(None));
    assert_eq!(CurrentOfferFields::domain_id(&CurrentObject, &mut Host::new(&missing)), Ok(None));
}

#[test]
fn signer_list_getters_read_through_the_slot() {
    let host = slot_host(5);
    let obj = SignerList::new(5);
    assert!(obj.get_owner(&mut Host::new(&host)).is_ok());
    assert!(obj.get_owner_node(&mut Host::new(&host)).is_ok());
    assert!(obj.get_signer_quorum(&mut Host::new(&host)).is_ok());
    assert!(obj.get_signer_list_id(&mut Host::new(&host)).is_ok());
    assert!(obj.get_previous_txn_id(&mut Host::new(&host)).is_ok());
    assert!(obj.get_previous_txn_lgr_seq(&mut Host::new(&host)).is_ok());
    assert_eq!(host.count("le_field"), 6);
}

#[test]
fn signer_list_missing_fields() {
    let host = all_fields_not_found();
    let obj = SignerList::new(0);
    assert_eq!(obj.get_owner(&mut Host::new(&host)), Ok(None));
    assert_eq!(obj.get_owner_node(&mut Host::new(&host)).err(), Some(Error::FieldNotFound));
    assert_eq!(obj.get_signer_quorum(&mut Host::new(&host)).err(), Some(Error::FieldNotFound));
    assert_eq!(obj.get_signer_list_id(&mut Host::new(&host)).err(), Some(Error::FieldNotFound));
    assert_eq!(obj.get_previous_txn_id(&mut Host::new(&host)).err(), Some(Error::FieldNotFound));
    assert_eq!(obj.get_previous_txn_lgr_seq(&mut Host::new(&host)).err(), Some(Error::FieldNotFound));
}

impl CurrentSignerListFields for CurrentObject {}

#[test]
fn signer_list_current_getters_read_the_current_object() {
    let host = all_fields_present();
    assert!(CurrentSignerListFields::get_owner(&CurrentObject, &mut Host::new(&host)).is_ok());
    assert!(CurrentSignerListFields::get_owner_node(&CurrentObject, &mut Host::new(&host)).is_ok());
    assert!(CurrentSignerListFields::get_signer_quorum(&CurrentObject, &mut Host::new(&host)).is_ok());
    assert!(CurrentSignerListFields::get_signer_list_id(&CurrentObject, &mut Host::new(&host)).is_ok());
    assert!(CurrentSignerListFields::get_previous_txn_id(&CurrentObject, &mut Host::new(&host)).is_ok());
    assert!(CurrentSignerListFields::get_previous_txn_lgr_seq(&CurrentObject, &mut Host::new(&host)).is_ok());
    assert_eq!(host.count("home_le_field"), 6);
    assert_eq!(host.count("le_field"), 0);
    let missing = all_fields_not_found();
    assert_eq!(CurrentSignerListFields::get_owner(&CurrentObject, &mut Host::new(&missing)), Ok(None));
    assert_eq!(CurrentSignerListFields::get_owner_node(&CurrentObject, &mut Host::new(&missing)).err(), Some(Error::FieldNotFound));
    assert_eq!(CurrentSignerListFields::get_signer_quorum(&CurrentObject, &mut Host::new(&missing)).err(), Some(Error::FieldNotFound));
    assert_eq!(CurrentSignerListFields::get_signer_list_id(&CurrentObject, &mut Host::new(&missing)).err(), Some(Error::FieldNotFound));
    assert_eq!(CurrentSignerListFields::get_previous_txn_id(&CurrentObject, &mut Host::new(&missing)).err(), Some(Error::FieldNotFound));
    assert_eq!(CurrentSignerListFields::get_previous_txn_lgr_seq(&CurrentObject, &mut Host::new(&missing)).err(), Some(Error::FieldNotFound));
}

#[test]
fn ticket_getters_read_through_the_slot() {
    let host = slot_host(5);
    let obj = Ticket::new(5);
    assert!(obj.get_account(&mut Host::new(&host)).is_ok());
    assert!(obj.get_owner_node(&mut Host::new(&host)).is_ok());
    assert!(obj.get_ticket_sequence(&mut Host::new(&host)).is_ok());
    assert!(obj.get_previous_txn_id(&mut Host::new(&host)).is_ok());
    assert!(obj.get_previous_txn_lgr_seq(&mut Host::new(&host)).is_ok());
    assert_eq!(host.count("le_field"), 5);
}

#[test]
fn ticket_missing_fields() {
    let host = all_fields_not_found();
    let obj = Ticket::new(0);
    assert_eq!(obj.get_account(&mut Host::new(&host)).err(), Some(Error::FieldNotFound));
    assert_eq!(obj.get_owner_node(&mut Host::new(&host)).err(), Some(Error::FieldNotFound));
    assert_eq!(obj.get_ticket_sequence(&mut Host::new(&host)).err(), Some(Error::FieldNotFound));
    assert_eq!(obj.get_previous_txn_id(&mut Host::new(&host)).err(), Some(Error::FieldNotFound));
    assert_eq!(obj.get_previous_txn_lgr_seq(&mut Host::new(&host)).err(), Some(Error::FieldNotFound));
}

impl CurrentTicketFields for CurrentObject {}

#[test]
fn ticket_current_getters_read_the_current_object() {
    let host = all_fields_present();
    assert!(CurrentTicketFields::get_account(&CurrentObject, &mut Host::new(&host)).is_ok());
    assert!(CurrentTicketFields::get_owner_node(&CurrentObject, &mut Host::new(&host)).is_ok());
    assert!(CurrentTicketFields::get_ticket_sequence(&CurrentObject, &mut Host::new(&host)).is_ok());
    assert!(CurrentTicketFields::get_previous_txn_id(&CurrentObject, &mut Host::new(&host)).is_ok());
    assert!(CurrentTicketFields::get_previous_txn_lgr_seq(&CurrentObject, &mut Host::new(&host)).is_ok());
    assert_eq!(host.count("home_le_field"), 5);
    assert_eq!(host.count("le_field"), 0);
    let missing = all_fields_not_found();
    assert_eq!(CurrentTicketFields::get_account(&CurrentObject, &mut Host::new(&missing)).err(), Some(Error::FieldNotFound));
    assert_eq!(CurrentTicketFields::get_owner_node(&CurrentObject, &mut Host::new(&missing)).err(), Some(Error::FieldNotFound));
    assert_eq!(CurrentTicketFields::get_ticket_sequence(&CurrentObject, &mut Host::new(&missing)).err(), Some(Error::FieldNotFound));
    assert_eq!(CurrentTicketFields::get_previous_txn_id(&CurrentObject, &mut Host::new(&missing)).err(), Some(Error::FieldNotFound));
    assert_eq!(CurrentTicketFields::get_previous_txn_lgr_seq(&CurrentObject, &mut Host::new(&missing)).err(), Some(Error::FieldNotFound));
}

#[test]
fn deposit_preauth_getters_read_through_the_slot() {
    let host = slot_host(5);
    let obj = DepositPreauth::new(5);
    assert!(obj.get_account(&mut Host::new(&host)).is_ok());
    assert!(obj.get_authorize(&mut Host::new(&host)).is_ok());
    assert!(obj.get_owner_node(&mut Host::new(&host)).is_ok());
    assert!(obj.get_previous_txn_id(&mut Host::new(&host)).is_ok());
    assert!(obj.get_previous_txn_lgr_seq(&mut Host::new(&host)).is_ok());
    assert_eq!(host.count("le_field"), 5);
}

#[test]
fn deposit_preauth_missing_fields() {
    let host = all_fields_not_found();
    let obj = DepositPreauth::new(0);
    assert_eq!(obj.get_account(&mut Host::new(&host)).err(), Some(Error::FieldNotFound));
    assert_eq!(obj.get_authorize(&mut Host::new(&host)), Ok(None));
    assert_eq!(obj.get_owner_node(&mut Host::new(&host)).err(), Some(Error::FieldNotFound));
    assert_eq!(obj.get_previous_txn_id(&mut Host::new(&host)).err(), Some(Error::FieldNotFound));
    assert_eq!(obj.get_previous_txn_lgr_seq(&mut Host::new(&host)).err(), Some(Error::FieldNotFound));
}

impl CurrentDepositPreauthFields for CurrentObject {}

#[test]
fn deposit_preauth_current_getters_read_the_current_object() {
    let host = all_fields_present();
    assert!(CurrentDepositPreauthFields::get_account(&CurrentObject, &mut Host::new(&host)).is_ok());
    assert!(CurrentDepositPreauthFields::get_authorize(&CurrentObject, &mut Host::new(&host)).is_ok());
    assert!(CurrentDepositPreauthFields::get_owner_node(&CurrentObject, &mut Host::new(&host)).is_ok());
    assert!(CurrentDepositPreauthFields::get_previous_txn_id(&CurrentObject, &mut Host::new(&host)).is_ok());
    assert!(CurrentDepositPreauthFields::get_previous_txn_lgr_seq(&CurrentObject, &mut Host::new(&host)).is_ok());
    assert_eq!(host.count("home_le_field"), 5);
    assert_eq!(host.count("le_field"), 0);
    let missing = all_fields_not_found();
    assert_eq!(CurrentDepositPreauthFields::get_account(&CurrentObject, &mut Host::new(&missing)).err(), Some(Error::FieldNotFound));
    assert_eq!(CurrentDepositPreauthFields::get_authorize(&CurrentObject, &mut Host::new(&missing)), Ok(None));
    assert_eq!(CurrentDepositPreauthFields::get_owner_node(&CurrentObject, &mut Host::new(&missing)).err(), Some(Error::FieldNotFound));
    assert_eq!(CurrentDepositPreauthFields::get_previous_txn_id(&CurrentObject, &mut Host::new(&missing)).err(), Some(Error::FieldNotFound));
    assert_eq!(CurrentDepositPreauthFields::get_previous_txn_lgr_seq(&CurrentObject, &mut Host::new(&missing)).err(), Some(Error::FieldNotFound));
}

#[test]
fn x_chain_owned_claim_id_getters_read_through_the_slot() {
    let host = slot_host(5);
    let obj = XChainOwnedClaimID::new(5);
    assert!(obj.get_account(&mut Host::new(&host)).is_ok());
    assert!(obj.get_x_chain_claim_id(&mut Host::new(&host)).is_ok());
    assert!(obj.get_other_chain_source(&mut Host::new(&host)).is_ok());
    assert!(obj.get_signature_reward(&mut Host::new(&host)).is_ok());
    assert!(obj.get_owner_node(&mut Host::new(&host)).is_ok());
    assert!(obj.get_previous_txn_id(&mut Host::new(&host)).is_ok());
    assert!(obj.get_previous_txn_lgr_seq(&mut Host::new(&host)).is_ok());
    assert_eq!(host.count("le_field"), 7);
}

#[test]
fn x_chain_owned_claim_id_missing_fields() {
    let host = all_fields_not_found();
    let obj = XChainOwnedClaimID::new(0);
    assert_eq!(obj.get_account(&mut Host::new(&host)).err(), Some(Error::FieldNotFound));
    assert_eq!(obj.get_x_chain_claim_id(&mut Host::new(&host)).err(), Some(Error::FieldNotFound));
    assert_eq!(obj.get_other_chain_source(&mut Host::new(&host)).err(), Some(Error::FieldNotFound));
    assert_eq!(obj.get_signature_reward(&mut Host::new(&host)).err(), Some(Error::FieldNotFound));
    assert_eq!(obj.get_owner_node(&mut Host::new(&host)).err(), Some(Error::FieldNotFound));
    assert_eq!(obj.get_previous_txn_id(&mut Host::new(&host)).err(), Some(Error::FieldNotFound));
    assert_eq!(obj.get_previous_txn_lgr_seq(&mut Host::new(&host)).err(), Some(Error::FieldNotFound));
}

impl CurrentXChainOwnedClaimIDFields for CurrentObject {}

#[test]
fn x_chain_owned_claim_id_current_getters_read_the_current_object() {
    let host = all_fields_present();
    assert!(CurrentXChainOwnedClaimIDFields::get_account(&CurrentObject, &mut Host::new(&host)).is_ok());
    assert!(CurrentXChainOwnedClaimIDFields::get_x_chain_claim_id(&CurrentObject, &mut Host::new(&host)).is_ok());
    assert!(CurrentXChainOwnedClaimIDFields::get_other_chain_source(&CurrentObject, &mut Host::new(&host)).is_ok());
    assert!(CurrentXChainOwnedClaimIDFields::get_signature_reward(&CurrentObject, &mut Host::new(&host)).is_ok());
    assert!(CurrentXChainOwnedClaimIDFields::get_owner_node(&CurrentObject, &mut Host::new(&host)).is_ok());
    assert!(CurrentXChainOwnedClaimIDFields::get_previous_txn_id(&CurrentObject, &mut Host::new(&host)).is_ok());
    assert!(CurrentXChainOwnedClaimIDFields::get_previous_txn_lgr_seq(&CurrentObject, &mut Host::new(&host)).is_ok());
    assert_eq!(host.count("home_le_field"), 7);
    assert_eq!(host.count("le_field"), 0);
    let missing = all_fields_not_found();
    assert_eq!(CurrentXChainOwnedClaimIDFields::get_account(&CurrentObject, &mut Host::new(&missing)).err(), Some(Error::FieldNotFound));
    assert_eq!(CurrentXChainOwnedClaimIDFields::get_x_chain_claim_id(&CurrentObject, &mut Host::new(&missing)).err(), Some(Error::FieldNotFound));
    assert_eq!(CurrentXChainOwnedClaimIDFields::get_other_chain_source(&CurrentObject, &mut Host::new(&missing)).err(), Some(Error::FieldNotFound));
    assert_eq!(CurrentXChainOwnedClaimIDFields::get_signature_reward(&CurrentObject, &mut Host::new(&missing)).err(), Some(Error::FieldNotFound));
    assert_eq!(CurrentXChainOwnedClaimIDFields::get_owner_node(&CurrentObject, &mut Host::new(&missing)).err(), Some(Error::FieldNotFound));
    assert_eq!(CurrentXChainOwnedClaimIDFields::get_previous_txn_id(&CurrentObject, &mut Host::new(&missing)).err(), Some(Error::FieldNotFound));
    assert_eq!(CurrentXChainOwnedClaimIDFields::get_previous_txn_lgr_seq(&CurrentObject, &mut Host::new(&missing)).err(), Some(Error::FieldNotFound));
}

#[test]
fn ripple_state_getters_read_through_the_slot() {
    let host = slot_host(5);
    let obj = RippleState::new(5);
    assert!(obj.get_balance(&mut Host::new(&host)).is_ok());
    assert!(obj.get_low_limit(&mut Host::new(&host)).is_ok());
    assert!(obj.get_high_limit(&mut Host::new(&host)).is_ok());
    assert!(obj.get_previous_txn_id(&mut Host::new(&host)).is_ok());
    assert!(obj.get_previous_txn_lgr_seq(&mut Host::new(&host)).is_ok());
    assert!(obj.get_low_node(&mut Host::new(&host)).is_ok());
    assert!(obj.get_low_quality_in(&mut Host::new(&host)).is_ok());
    assert!(obj.get_low_quality_out(&mut Host::new(&host)).is_ok());
    assert!(obj.get_high_node(&mut Host::new(&host)).is_ok());
    assert!(obj.get_high_quality_in(&mut Host::new(&host)).is_ok());
    assert!(obj.get_high_quality_out(&mut Host::new(&host)).is_ok());
    assert_eq!(host.count("le_field"), 11);
}

#[test]
fn ripple_state_missing_fields() {
    let host = all_fields_not_found();
    let obj = RippleState::new(0);
    assert_eq!(obj.get_balance(&mut Host::new(&host)).err(), Some(Error::FieldNotFound));
    assert_eq!(obj.get_low_limit(&mut Host::new(&host)).err(), Some(Error::FieldNotFound));
    assert_eq!(obj.get_high_limit(&mut Host::new(&host)).err(), Some(Error::FieldNotFound));
    assert_eq!(obj.get_previous_txn_id(&mut Host::new(&host)).err(), Some(Error::FieldNotFound));
    assert_eq!(obj.get_previous_txn_lgr_seq(&mut Host::new(&host)).err(), Some(Error::FieldNotFound));
    assert_eq!(obj.get_low_node(&mut Host::new(&host)), Ok(None));
    assert_eq!(obj.get_low_quality_in(&mut Host::new(&host)), Ok(None));
    assert_eq!(obj.get_low_quality_out(&mut Host::new(&host)), Ok(None));
    assert_eq!(obj.get_high_node(&mut Host::new(&host)), Ok(None));
    assert_eq!(obj.get_high_quality_in(&mut Host::new(&host)), Ok(None));
    assert_eq!(obj.get_high_quality_out(&mut Host::new(&host)), Ok(None));
}

impl CurrentRippleStateFields for CurrentObject {}

#[test]
fn ripple_state_current_getters_read_the_current_object() {
    let host = all_fields_present();
    assert!(CurrentRippleStateFields::get_balance(&CurrentObject, &mut Host::new(&host)).is_ok());
    assert!(CurrentRippleStateFields::get_low_limit(&CurrentObject, &mut Host::new(&host)).is_ok());
    assert!(CurrentRippleStateFields::get_high_limit(&CurrentObject, &mut Host::new(&host)).is_ok());
    assert!(CurrentRippleStateFields::get_previous_txn_id(&CurrentObject, &mut Host::new(&host)).is_ok());
    assert!(CurrentRippleStateFields::get_previous_txn_lgr_seq(&CurrentObject, &mut Host::new(&host)).is_ok());
    assert!(CurrentRippleStateFields::get_low_node(&CurrentObject, &mut Host::new(&host)).is_ok());
    assert!(CurrentRippleStateFields::get_low_quality_in(&CurrentObject, &mut Host::new(&host)).is_ok());
    assert!(CurrentRippleStateFields::get_low_quality_out(&CurrentObject, &mut Host::new(&host)).is_ok());
    assert!(CurrentRippleStateFields::get_high_node(&CurrentObject, &mut Host::new(&host)).is_ok());
    assert!(CurrentRippleStateFields::get_high_quality_in(&CurrentObject, &mut Host::new(&host)).is_ok());
    assert!(CurrentRippleStateFields::get_high_quality_out(&CurrentObject, &mut Host::new(&host)).is_ok());
    assert_eq!(host.count("home_le_field"), 11);
    assert_eq!(host.count("le_field"), 0);
    let missing = all_fields_not_found();
    assert_eq!(CurrentRippleStateFields::get_balance(&CurrentObject, &mut Host::new(&missing)).err(), Some(Error::FieldNotFound));
    assert_eq!(CurrentRippleStateFields::get_low_limit(&CurrentObject, &mut Host::new(&missing)).err(), Some(Error::FieldNotFound));
    assert_eq!(CurrentRippleStateFields::get_high_limit(&CurrentObject, &mut Host::new(&missing)).err(), Some(Error::FieldNotFound));
    assert_eq!(CurrentRippleStateFields::get_previous_txn_id(&CurrentObject, &mut Host::new(&missing)).err(), Some(Error::FieldNotFound));
    assert_eq!(CurrentRippleStateFields::get_previous_txn_lgr_seq(&CurrentObject, &mut Host::new(&missing)).err(), Some(Error::FieldNotFound));
    assert_eq!(CurrentRippleStateFields::get_low_node(&CurrentObject, &mut Host::new(&missing)), Ok(None));
    assert_eq!(CurrentRippleStateFields::get_low_quality_in(&CurrentObject, &mut Host::new(&missing)), Ok(None));
    assert_eq!(CurrentRippleStateFields::get_low_quality_out(&CurrentObject, &mut Host::new(&missing)), Ok(None));
    assert_eq!(CurrentRippleStateFields::get_high_node(&CurrentObject, &mut Host::new(&missing)), Ok(None));
    assert_eq!(CurrentRippleStateFields::get_high_quality_in(&CurrentObject, &mut Host::new(&missing)), Ok(None));
    assert_eq!(CurrentRippleStateFields::get_high_quality_out(&CurrentObject, &mut Host::new(&missing)), Ok(None));
}

#[test]
fn x_chain_owned_create_account_claim_id_getters_read_through_the_slot() {
    let host = slot_host(5);
    let obj = XChainOwnedCreateAccountClaimID::new(5);
    assert!(obj.get_account(&mut Host::new(&host)).is_ok());
    assert!(obj.get_x_chain_account_create_count(&mut Host::new(&host)).is_ok());
    assert!(obj.get_owner_node(&mut Host::new(&host)).is_ok());
    assert!(obj.get_previous_txn_id(&mut Host::new(&host)).is_ok());
    assert!(obj.get_previous_txn_lgr_seq(&mut Host::new(&host)).is_ok());
    assert_eq!(host.count("le_field"), 5);
}

#[test]
fn x_chain_owned_create_account_claim_id_missing_fields() {
    let host = all_fields_not_found();
    let obj = XChainOwnedCreateAccountClaimID::new(0);
    assert_eq!(obj.get_account(&mut Host::new(&host)).err(), Some(Error::FieldNotFound));
    assert_eq!(obj.get_x_chain_account_create_count(&mut Host::new(&host)).err(), Some(Error::FieldNotFound));
    assert_eq!(obj.get_owner_node(&mut Host::new(&host)).err(), Some(Error::FieldNotFound));
    assert_eq!(obj.get_previous_txn_id(&mut Host::new(&host)).err(), Some(Error::FieldNotFound));
    assert_eq!(obj.get_previous_txn_lgr_seq(&mut Host::new(&host)).err(), Some(Error::FieldNotFound));
}

impl CurrentXChainOwnedCreateAccountClaimIDFields for CurrentObject {}

#[test]
fn x_chain_owned_create_account_claim_id_current_getters_read_the_current_object() {
    let host = all_fields_present();
    assert!(CurrentXChainOwnedCreateAccountClaimIDFields::get_account(&CurrentObject, &mut Host::new(&host)).is_ok());
    assert!(CurrentXChainOwnedCreateAccountClaimIDFields::get_x_chain_account_create_count(&CurrentObject, &mut Host::new(&host)).is_ok());
    assert!(CurrentXChainOwnedCreateAccountClaimIDFields::get_owner_node(&CurrentObject, &mut Host::new(&host)).is_ok());
    assert!(CurrentXChainOwnedCreateAccountClaimIDFields::get_previous_txn_id(&CurrentObject, &mut Host::new(&host)).is_ok());
    assert!(CurrentXChainOwnedCreateAccountClaimIDFields::get_previous_txn_lgr_seq(&CurrentObject, &mut Host::new(&host)).is_ok());
    assert_eq!(host.count("home_le_field"), 5);
    assert_eq!(host.count("le_field"), 0);
    let missing = all_fields_not_found();
    assert_eq!(CurrentXChainOwnedCreateAccountClaimIDFields::get_account(&CurrentObject, &mut Host::new(&missing)).err(), Some(Error::FieldNotFound));
    assert_eq!(CurrentXChainOwnedCreateAccountClaimIDFields::get_x_chain_account_create_count(&CurrentObject, &mut Host::new(&missing)).err(), Some(Error::FieldNotFound));
    assert_eq!(CurrentXChainOwnedCreateAccountClaimIDFields::get_owner_node(&CurrentObject, &mut Host::new(&missing)).err(), Some(Error::FieldNotFound));
    assert_eq!(CurrentXChainOwnedCreateAccountClaimIDFields::get_previous_txn_id(&CurrentObject, &mut Host::new(&missing)).err(), Some(Error::FieldNotFound));
    assert_eq!(CurrentXChainOwnedCreateAccountClaimIDFields::get_previous_txn_lgr_seq(&CurrentObject, &mut Host::new(&missing)).err(), Some(Error::FieldNotFound));
}

#[test]
fn pay_channel_getters_read_through_the_slot() {
    let host = slot_host(5);
    let obj = PayChannel::new(5);
    assert!(obj.get_account(&mut Host::new(&host)).is_ok());
    assert!(obj.get_destination(&mut Host::new(&host)).is_ok());
    assert!(obj.get_sequence(&mut Host::new(&host)).is_ok());
    assert!(obj.get_amount(&mut Host::new(&host)).is_ok());
    assert!(obj.get_balance(&mut Host::new(&host)).is_ok());
    assert!(obj.get_public_key(&mut Host::new(&host)).is_ok());
    assert!(obj.get_settle_delay(&mut Host::new(&host)).is_ok());
    assert!(obj.get_expiration(&mut Host::new(&host)).is_ok());
    assert!(obj.get_cancel_after(&mut Host::new(&host)).is_ok());
    assert!(obj.get_source_tag(&mut Host::new(&host)).is_ok());
    assert!(obj.get_destination_tag(&mut Host::new(&host)).is_ok());
    assert!(obj.get_owner_node(&mut Host::new(&host)).is_ok());
    assert!(obj.get_previous_txn_id(&mut Host::new(&host)).is_ok());
    assert!(obj.get_previous_txn_lgr_seq(&mut Host::new(&host)).is_ok());
    assert!(obj.get_destination_node(&mut Host::new(&host)).is_ok());
    assert_eq!(host.count("le_field"), 15);
}

#[test]
fn pay_channel_missing_fields() {
    let host = all_fields_not_found();
    let obj = PayChannel::new(0);
    assert_eq!(obj.get_account(&mut Host::new(&host)).err(), Some(Error::FieldNotFound));
    assert_eq!(obj.get_destination(&mut Host::new(&host)).err(), Some(Error::FieldNotFound));
    assert_eq!(obj.get_sequence(&mut Host::new(&host)), Ok(None));
    assert_eq!(obj.get_amount(&mut Host::new(&host)).err(), Some(Error::FieldNotFound));
    assert_eq!(obj.get_balance(&mut Host::new(&host)).err(), Some(Error::FieldNotFound));
    assert_eq!(obj.get_public_key(&mut Host::new(&host)).err(), Some(Error::FieldNotFound));
    assert_eq!(obj.get_settle_delay(&mut Host::new(&host)).err(), Some(Error::FieldNotFound));
    assert_eq!(obj.get_expiration(&mut Host::new(&host)), Ok(None));
    assert_eq!(obj.get_cancel_after(&mut Host::new(&host)), Ok(None));
    assert_eq!(obj.get_source_tag(&mut Host::new(&host)), Ok(None));
    assert_eq!(obj.get_destination_tag(&mut Host::new(&host)), Ok(None));
    assert_eq!(obj.get_owner_node(&mut Host::new(&host)).err(), Some(Error::FieldNotFound));
    assert_eq!(obj.get_previous_txn_id(&mut Host::new(&host)).err(), Some(Error::FieldNotFound));
    assert_eq!(obj.get_previous_txn_lgr_seq(&mut Host::new(&host)).err(), Some(Error::FieldNotFound));
    assert_eq!(obj.get_destination_node(&mut Host::new(&host)), Ok(None));
}

impl CurrentPayChannelFields for CurrentObject {}

#[test]
fn pay_channel_current_getters_read_the_current_object() {
    let host = all_fields_present();
    assert!(CurrentPayChannelFields::get_account(&CurrentObject, &mut Host::new(&host)).is_ok());
    assert!(CurrentPayChannelFields::get_destination(&CurrentObject, &mut Host::new(&host)).is_ok());
    assert!(CurrentPayChannelFields::get_sequence(&CurrentObject, &mut Host::new(&host)).is_ok());
    assert!(CurrentPayChannelFields::get_amount(&CurrentObject, &mut Host::new(&host)).is_ok());
    assert!(CurrentPayChannelFields::get_balance(&CurrentObject, &mut Host::new(&host)).is_ok());
    assert!(CurrentPayChannelFields::get_public_key(&CurrentObject, &mut Host::new(&host)).is_ok());
    assert!(CurrentPayChannelFields::get_settle_delay(&CurrentObject, &mut Host::new(&host)).is_ok());
    assert!(CurrentPayChannelFields::get_expiration(&CurrentObject, &mut Host::new(&host)).is_ok());
    assert!(CurrentPayChannelFields::get_cancel_after(&CurrentObject, &mut Host::new(&host)).is_ok());
    assert!(CurrentPayChannelFields::get_source_tag(&CurrentObject, &mut Host::new(&host)).is_ok());
    assert!(CurrentPayChannelFields::get_destination_tag(&CurrentObject, &mut Host::new(&host)).is_ok());
    assert!(CurrentPayChannelFields::get_owner_node(&CurrentObject, &mut Host::new(&host)).is_ok());
    assert!(CurrentPayChannelFields::get_previous_txn_id(&CurrentObject, &mut Host::new(&host)).is_ok());
    assert!(CurrentPayChannelFields::get_previous_txn_lgr_seq(&CurrentObject, &mut Host::new(&host)).is_ok());
    assert!(CurrentPayChannelFields::get_destination_node(&CurrentObject, &mut Host::new(&host)).is_ok());
    assert_eq!(host.count("home_le_field"), 15);
    assert_eq!(host.count("le_field"), 0);
    let missing = all_fields_not_found();
    assert_eq!(CurrentPayChannelFields::get_account(&CurrentObject, &mut Host::new(&missing)).err(), Some(Error::FieldNotFound));
    assert_eq!(CurrentPayChannelFields::get_destination(&CurrentObject, &mut Host::new(&missing)).err(), Some(Error::FieldNotFound));
    assert_eq!(CurrentPayChannelFields::get_sequence(&CurrentObject, &mut Host::new(&missing)), Ok(None));
    assert_eq!(CurrentPayChannelFields::get_amount(&CurrentObject, &mut Host::new(&missing)).err(), Some(Error::FieldNotFound));
    assert_eq!(CurrentPayChannelFields::get_balance(&CurrentObject, &mut Host::new(&missing)).err(), Some(Error::FieldNotFound));
    assert_eq!(CurrentPayChannelFields::get_public_key(&CurrentObject, &mut Host::new(&missing)).err(), Some(Error::FieldNotFound));
    assert_eq!(CurrentPayChannelFields::get_settle_delay(&CurrentObject, &mut Host::new(&missing)).err(), Some(Error::FieldNotFound));
    assert_eq!(CurrentPayChannelFields::get_expiration(&CurrentObject, &mut Host::new(&missing)), Ok(None));
    assert_eq!(CurrentPayChannelFields::get_cancel_after(&CurrentObject, &mut Host::new(&missing)), Ok(None));
    assert_eq!(CurrentPayChannelFields::get_source_tag(&CurrentObject, &mut Host::new(&missing)), Ok(None));
    assert_eq!(CurrentPayChannelFields::get_destination_tag(&CurrentObject, &mut Host::new(&missing)), Ok(None));
    assert_eq!(CurrentPayChannelFields::get_owner_node(&CurrentObject, &mut Host::new(&missing)).err(), Some(Error::FieldNotFound));
    assert_eq!(CurrentPayChannelFields::get_previous_txn_id(&CurrentObject, &mut Host::new(&missing)).err(), Some(Error::FieldNotFound));
    assert_eq!(CurrentPayChannelFields::get_previous_txn_lgr_seq(&CurrentObject, &mut Host::new(&missing)).err(), Some(Error::FieldNotFound));
    assert_eq!(CurrentPayChannelFields::get_destination_node(&CurrentObject, &mut Host::new(&missing)), Ok(None));
}

#[test]
fn oracle_getters_read_through_the_slot() {
    let host = slot_host(5);
    let obj = Oracle::new(5);
    assert!(obj.get_owner(&mut Host::new(&host)).is_ok());
    assert!(obj.get_oracle_document_id(&mut Host::new(&host)).is_ok());
    assert!(obj.get_provider(&mut Host::new(&host)).is_ok());
    assert!(obj.get_asset_class(&mut Host::new(&host)).is_ok());
    assert!(obj.get_last_update_time(&mut Host::new(&host)).is_ok());
    assert!(obj.get_uri(&mut Host::new(&host)).is_ok());
    assert!(obj.get_owner_node(&mut Host::new(&host)).is_ok());
    assert!(obj.get_previous_txn_id(&mut Host::new(&host)).is_ok());
    assert!(obj.get_previous_txn_lgr_seq(&mut Host::new(&host)).is_ok());
    assert_eq!(host.count("le_field"), 9);
}

#[test]
fn oracle_missing_fields() {
    let host = all_fields_not_found();
    let obj = Oracle::new(0);
    assert_eq!(obj.get_owner(&mut Host::new(&host)).err(), Some(Error::FieldNotFound));
    assert_eq!(obj.get_oracle_document_id(&mut Host::new(&host)), Ok(None));
    assert_eq!(obj.get_provider(&mut Host::new(&host)).err(), Some(Error::FieldNotFound));
    assert_eq!(obj.get_asset_class(&mut Host::new(&host)).err(), Some(Error::FieldNotFound));
    assert_eq!(obj.get_last_update_time(&mut Host::new(&host)).err(), Some(Error::FieldNotFound));
    assert_eq!(obj.get_uri(&mut Host::new(&host)), Ok(None));
    assert_eq!(obj.get_owner_node(&mut Host::new(&host)).err(), Some(Error::FieldNotFound));
    assert_eq!(obj.get_previous_txn_id(&mut Host::new(&host)).err(), Some(Error::FieldNotFound));
    assert_eq!(obj.get_previous_txn_lgr_seq(&mut Host::new(&host)).err(), Some(Error::FieldNotFound));
}

impl CurrentOracleFields for CurrentObject {}

#[test]
fn oracle_current_getters_read_the_current_object() {
    let host = all_fields_present();
    assert!(CurrentOracleFields::get_owner(&CurrentObject, &mut Host::new(&host)).is_ok());
    assert!(CurrentOracleFields::get_oracle_document_id(&CurrentObject, &mut Host::new(&host)).is_ok());
    assert!(CurrentOracleFields::get_provider(&CurrentObject, &mut Host::new(&host)).is_ok());
    assert!(CurrentOracleFields::get_asset_class(&CurrentObject, &mut Host::new(&host)).is_ok());
    assert!(CurrentOracleFields::get_last_update_time(&CurrentObject, &mut Host::new(&host)).is_ok());
    assert!(CurrentOracleFields::get_uri(&CurrentObject, &mut Host::new(&host)).is_ok());
    assert!(CurrentOracleFields::get_owner_node(&CurrentObject, &mut Host::new(&host)).is_ok());
    assert!(CurrentOracleFields::get_previous_txn_id(&CurrentObject, &mut Host::new(&host)).is_ok());
    assert!(CurrentOracleFields::get_previous_txn_lgr_seq(&CurrentObject, &mut Host::new(&host)).is_ok());
    assert_eq!(host.count("home_le_field"), 9);
    assert_eq!(host.count("le_field"), 0);
    let missing = all_fields_not_found();
    assert_eq!(CurrentOracleFields::get_owner(&CurrentObject, &mut Host::new(&missing)).err(), Some(Error::FieldNotFound));
    assert_eq!(CurrentOracleFields::get_oracle_document_id(&CurrentObject, &mut Host::new(&missing)), Ok(None));
    assert_eq!(CurrentOracleFields::get_provider(&CurrentObject, &mut Host::new(&missing)).err(), Some(Error::FieldNotFound));
    assert_eq!(CurrentOracleFields::get_asset_class(&CurrentObject, &mut Host::new(&missing)).err(), Some(Error::FieldNotFound));
    assert_eq!(CurrentOracleFields::get_last_update_time(&CurrentObject, &mut Host::new(&missing)).err(), Some(Error::FieldNotFound));
    assert_eq!(CurrentOracleFields::get_uri(&CurrentObject, &mut Host::new(&missing)), Ok(None));
    assert_eq!(CurrentOracleFields::get_owner_node(&CurrentObject, &mut Host::new(&missing)).err(), Some(Error::FieldNotFound));
    assert_eq!(CurrentOracleFields::get_previous_txn_id(&CurrentObject, &mut Host::new(&missing)).err(), Some(Error::FieldNotFound));
    assert_eq!(CurrentOracleFields::get_previous_txn_lgr_seq(&CurrentObject, &mut Host::new(&missing)).err(), Some(Error::FieldNotFound));
}

#[test]
fn permissioned_domain_getters_read_through_the_slot() {
    let host = slot_host(5);
    let obj = PermissionedDomain::new(5);
    assert!(obj.get_owner(&mut Host::new(&host)).is_ok());
    assert!(obj.get_sequence(&mut Host::new(&host)).is_ok());
    assert!(obj.get_owner_node(&mut Host::new(&host)).is_ok());
    assert!(obj.get_previous_txn_id(&mut Host::new(&host)).is_ok());
    assert!(obj.get_previous_txn_lgr_seq(&mut Host::new(&host)).is_ok());
    assert_eq!(host.count("le_field"), 5);
}

#[test]
fn permissioned_domain_missing_fields() {
    let host = all_fields_not_found();
    let obj = PermissionedDomain::new(0);
    assert_eq!(obj.get_owner(&mut Host::new(&host)).err(), Some(Error::FieldNotFound));
    assert_eq!(obj.get_sequence(&mut Host::new(&host)).err(), Some(Error::FieldNotFound));
    assert_eq!(obj.get_owner_node(&mut Host::new(&host)).err(), Some(Error::FieldNotFound));
    assert_eq!(obj.get_previous_txn_id(&mut Host::new(&host)).err(), Some(Error::FieldNotFound));
    assert_eq!(obj.get_previous_txn_lgr_seq(&mut Host::new(&host)).err(), Some(Error::FieldNotFound));
}

impl CurrentPermissionedDomainFields for CurrentObject {}

#[test]
fn permissioned_domain_current_getters_read_the_current_object() {
    let host = all_fields_present();
    assert!(CurrentPermissionedDomainFields::get_owner(&CurrentObject, &mut Host::new(&host)).is_ok());
    assert!(CurrentPermissionedDomainFields::get_sequence(&CurrentObject, &mut Host::new(&host)).is_ok());
    assert!(CurrentPermissionedDomainFields::get_owner_node(&CurrentObject, &mut Host::new(&host)).is_ok());
    assert!(CurrentPermissionedDomainFields::get_previous_txn_id(&CurrentObject, &mut Host::new(&host)).is_ok());
    assert!(CurrentPermissionedDomainFields::get_previous_txn_lgr_seq(&CurrentObject, &mut Host::new(&host)).is_ok());
    assert_eq!(host.count("home_le_field"), 5);
    assert_eq!(host.count("le_field"), 0);
    let missing = all_fields_not_found();
    assert_eq!(CurrentPermissionedDomainFields::get_owner(&CurrentObject, &mut Host::new(&missing)).err(), Some(Error::FieldNotFound));
    assert_eq!(CurrentPermissionedDomainFields::get_sequence(&CurrentObject, &mut Host::new(&missing)).err(), Some(Error::FieldNotFound));
    assert_eq!(CurrentPermissionedDomainFields::get_owner_node(&CurrentObject, &mut Host::new(&missing)).err(), Some(Error::FieldNotFound));
    assert_eq!(CurrentPermissionedDomainFields::get_previous_txn_id(&CurrentObject, &mut Host::new(&missing)).err(), Some(Error::FieldNotFound));
    assert_eq!(CurrentPermissionedDomainFields::get_previous_txn_lgr_seq(&CurrentObject, &mut Host::new(&missing)).err(), Some(Error::FieldNotFound));
}

#[test]
fn vault_getters_read_through_the_slot() {
    let host = slot_host(5);
    let obj = Vault::new(5);
    assert!(obj.get_previous_txn_id(&mut Host::new(&host)).is_ok());
    assert!(obj.get_previous_txn_lgr_seq(&mut Host::new(&host)).is_ok());
    assert!(obj.get_sequence(&mut Host::new(&host)).is_ok());
    assert!(obj.get_owner_node(&mut Host::new(&host)).is_ok());
    assert!(obj.get_owner(&mut Host::new(&host)).is_ok());
    assert!(obj.get_account(&mut Host::new(&host)).is_ok());
    assert!(obj.get_data(&mut Host::new(&host)).is_ok());
    assert!(obj.get_asset(&mut Host::new(&host)).is_ok());
    assert!(obj.get_share_mptid(&mut Host::new(&host)).is_ok());
    assert!(obj.get_withdrawal_policy(&mut Host::new(&host)).is_ok());
    assert!(obj.get_scale(&mut Host::new(&host)).is_ok());
    assert_eq!(host.count("le_field"), 11);
}

#[test]
fn vault_missing_fields() {
    let host = all_fields_not_found();
    let obj = Vault::new(0);
    assert_eq!(obj.get_previous_txn_id(&mut Host::new(&host)).err(), Some(Error::FieldNotFound));
    assert_eq!(obj.get_previous_txn_lgr_seq(&mut Host::new(&host)).err(), Some(Error::FieldNotFound));
    assert_eq!(obj.get_sequence(&mut Host::new(&host)).err(), Some(Error::FieldNotFound));
    assert_eq!(obj.get_owner_node(&mut Host::new(&host)).err(), Some(Error::FieldNotFound));
    assert_eq!(obj.get_owner(&mut Host::new(&host)).err(), Some(Error::FieldNotFound));
    assert_eq!(obj.get_account(&mut Host::new(&host)).err(), Some(Error::FieldNotFound));
    assert_eq!(obj.get_data(&mut Host::new(&host)), Ok(None));
    assert_eq!(obj.get_asset(&mut Host::new(&host)).err(), Some(Error::FieldNotFound));
    assert_eq!(obj.get_share_mptid(&mut Host::new(&host)).err(), Some(Error::FieldNotFound));
    assert_eq!(obj.get_withdrawal_policy(&mut Host::new(&host)).err(), Some(Error::FieldNotFound));
    assert_eq!(obj.get_scale(&mut Host::new(&host)), Ok(None));
}

impl CurrentVaultFields for CurrentObject {}

#[test]
fn vault_current_getters_read_the_current_object() {
    let host = all_fields_present();
    assert!(CurrentVaultFields::get_previous_txn_id(&CurrentObject, &mut Host::new(&host)).is_ok());
    assert!(CurrentVaultFields::get_previous_txn_lgr_seq(&CurrentObject, &mut Host::new(&host)).is_ok());
    assert!(CurrentVaultFields::get_sequence(&CurrentObject, &mut Host::new(&host)).is_ok());
    assert!(CurrentVaultFields::get_owner_node(&CurrentObject, &mut Host::new(&host)).is_ok());
    assert!(CurrentVaultFields::get_owner(&CurrentObject, &mut Host::new(&host)).is_ok());
    assert!(CurrentVaultFields::get_account(&CurrentObject, &mut Host::new(&host)).is_ok());
    assert!(CurrentVaultFields::get_data(&CurrentObject, &mut Host::new(&host)).is_ok());
    assert!(CurrentVaultFields::get_asset(&CurrentObject, &mut Host::new(&host)).is_ok());
    assert!(CurrentVaultFields::get_share_mptid(&CurrentObject, &mut Host::new(&host)).is_ok());
    assert!(CurrentVaultFields::get_withdrawal_policy(&CurrentObject, &mut Host::new(&host)).is_ok());
    assert!(CurrentVaultFields::get_scale(&CurrentObject, &mut Host::new(&host)).is_ok());
    assert_eq!(host.count("home_le_field"), 11);
    assert_eq!(host.count("le_field"), 0);
    let missing = all_fields_not_found();
    assert_eq!(CurrentVaultFields::get_previous_txn_id(&CurrentObject, &mut Host::new(&missing)).err(), Some(Error::FieldNotFound));
    assert_eq!(CurrentVaultFields::get_previous_txn_lgr_seq(&CurrentObject, &mut Host::new(&missing)).err(), Some(Error::FieldNotFound));
    assert_eq!(CurrentVaultFields::get_sequence(&CurrentObject, &mut Host::new(&missing)).err(), Some(Error::FieldNotFound));
    assert_eq!(CurrentVaultFields::get_owner_node(&CurrentObject, &mut Host::new(&missing)).err(), Some(Error::FieldNotFound));
    assert_eq!(CurrentVaultFields::get_owner(&CurrentObject, &mut Host::new(&missing)).err(), Some(Error::FieldNotFound));
    assert_eq!(CurrentVaultFields::get_account(&CurrentObject, &mut Host::new(&missing)).err(), Some(Error::FieldNotFound));
    assert_eq!(CurrentVaultFields::get_data(&CurrentObject, &mut Host::new(&missing)), Ok(None));
    assert_eq!(CurrentVaultFields::get_asset(&CurrentObject, &mut Host::new(&missing)).err(), Some(Error::FieldNotFound));
    assert_eq!(CurrentVaultFields::get_share_mptid(&CurrentObject, &mut Host::new(&missing)).err(), Some(Error::FieldNotFound));
    assert_eq!(CurrentVaultFields::get_withdrawal_policy(&CurrentObject, &mut Host::new(&missing)).err(), Some(Error::FieldNotFound));
    assert_eq!(CurrentVaultFields::get_scale(&CurrentObject, &mut Host::new(&missing)), Ok(None));
}
