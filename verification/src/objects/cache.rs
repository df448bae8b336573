//! Caching a ledger entry into a host slot.
//!
//! Reading any ledger object other than the one the contract is attached to is two steps:
//! compute the entry's ID (see [`crate::ledger_entry_ids`]), then ask the host to load that
//! entry into one of its cache slots. [`cache_ledger_entry`] is the second step; the slot it
//! returns is what every slot-based handle is built from.

use vstd::prelude::*;
use crate::host::calls::{Host, HostCall, made_calls};
use crate::host::error_codes::{match_result_code, spec_match_result_code};
use crate::host::{Error, HostBindings};
use crate::ledger_entry_ids::LedgerEntryIdBytes;

verus! {

/// The slot argument that asks the host for the next free slot.
pub const NEXT_AVAILABLE_SLOT: i32 = 0;

/// Whether `r` is what a caching call makes of some answer of the host to a request to cache the
/// entry `id` in the next free slot: the slot it assigned, or its error.
pub open spec fn cache_answered<H: HostBindings>(bindings: &H, id: Seq<u8>, r: Result<i32, Error>) -> bool {
    exists|code: i32|
        #[trigger] bindings.cache_le_answers(id, NEXT_AVAILABLE_SLOT, code) && r
            == spec_match_result_code(code, code)
}

/// Loads the ledger entry with ID `entry_id` into the next free host slot and returns the slot.
pub fn cache_ledger_entry<H: HostBindings>(host: &mut Host<H>, entry_id: &LedgerEntryIdBytes) -> (r: Result<
    i32,
    Error,
>)
    ensures
        made_calls(*old(host), *final(host), seq![HostCall::CacheLe]),
        cache_answered(old(host).bindings(), entry_id@, r),
        r is Ok ==> r->Ok_0 >= 0,
{
    let slot = host.cache_le(entry_id, NEXT_AVAILABLE_SLOT);
    match_result_code(slot, slot)
}

/// The host calls that loading the entry whose ID computation gave `id` makes: one caching
/// call, or none when the ID computation failed.
pub open spec fn load_calls(id: Result<LedgerEntryIdBytes, Error>) -> Seq<HostCall> {
    if id is Ok {
        seq![HostCall::CacheLe]
    } else {
        Seq::empty()
    }
}

/// Whether `r` is what loading the entry whose ID computation gave `id` can give: the error of
/// the ID computation, or the outcome of a caching call for the ID.
pub open spec fn loaded<H: HostBindings>(
    bindings: &H,
    id: Result<LedgerEntryIdBytes, Error>,
    r: Result<i32, Error>,
) -> bool {
    match id {
        Ok(entry_id) => cache_answered(bindings, entry_id@, r),
        Err(e) => r == Err::<i32, Error>(e),
    }
}

/// Loads the entry whose ID computation gave `id` into the next free host slot; an error of the
/// ID computation is passed on without a caching call.
pub fn load_entry<H: HostBindings>(host: &mut Host<H>, id: Result<LedgerEntryIdBytes, Error>) -> (r: Result<
    i32,
    Error,
>)
    ensures
        made_calls(*old(host), *final(host), load_calls(id)),
        loaded(old(host).bindings(), id, r),
        r is Ok ==> r->Ok_0 >= 0,
{
    match id {
        Ok(entry_id) => cache_ledger_entry(host, &entry_id),
        Err(e) => Err(e),
    }
}

} // verus!
