//! A handle to the DID object of an account, loaded by the account.

use vstd::prelude::*;
use crate::host::calls::{Host, HostCall, made_calls};
use crate::bytes::zero_bytes;
use crate::host::error_codes::is_expected_bytes_answer;
use crate::host::{Error, HostBindings};
use crate::ledger_entry_ids::{did_id, spec_id_result};
use crate::objects::cache::{load_calls, load_entry, loaded};
use crate::objects::did::DIDFields;
use crate::objects::traits::LedgerObjectCommonFields;
use crate::types::account_id::AccountID;

verus! {

/// The DID object of an account, cached in a host slot.
#[derive(Debug, Clone, Copy, PartialEq, Eq, Structural)]
pub struct DidDocument {
    pub slot_num: i32,
}

impl LedgerObjectCommonFields for DidDocument {
    open spec fn spec_slot_num(&self) -> i32 {
        self.slot_num
    }

    fn get_slot_num(&self) -> (r: i32) {
        assert(self.spec_slot_num() == self.slot_num);
        self.slot_num
    }
}

impl DIDFields for DidDocument {

}

impl DidDocument {
    /// Computes the ID of the DID object of `account` and loads it into the next free host slot.
    pub fn load<H: HostBindings>(host: &mut Host<H>, account: &AccountID) -> (r: Result<DidDocument, Error>)
        requires
            forall|code: i32, w: Seq<u8>|
                #[trigger] old(host).bindings().did_id_answers(account.0@, zero_bytes(32), code, w)
                    ==> is_expected_bytes_answer(code, 32),
        ensures
            exists|code: i32, id: [u8; 32]|
                #[trigger] old(host).bindings().did_id_answers(account.0@, zero_bytes(32), code, id@)
                    && made_calls(
                    *old(host),
                    *final(host),
                    seq![HostCall::DidId] + load_calls(spec_id_result(code, id)),
                ) && loaded(
                    old(host).bindings(),
                    spec_id_result(code, id),
                    (match r {
                        Ok(document) => Ok(document.slot_num),
                        Err(e) => Err(e),
                    }),
                ),
            r is Ok ==> r->Ok_0.slot_num >= 0,
    {
        let id = did_id(host, account);
        let loaded_slot = load_entry(host, id);
        assert(host.calls() =~= old(host).calls() + (seq![HostCall::DidId] + load_calls(id)));
        match loaded_slot {
            Ok(slot) => Ok(DidDocument { slot_num: slot }),
            Err(e) => Err(e),
        }
    }
}

} // verus!
