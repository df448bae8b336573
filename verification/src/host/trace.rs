//! Writing messages, with data of various kinds, to the host's trace log.
//!
//! Tracing is fire-and-forget: the host checks its log level, swallows every error, and drops
//! the call silently when the message and the data together exceed 1024 bytes.

use vstd::prelude::*;
use crate::host::calls::{Host, HostCall, made_calls};
use crate::bytes::{u64_le, u64_to_le_bytes};
use crate::host::HostBindings;
use crate::types::account_id::AccountID;
use crate::types::amount::Amount;

verus! {

/// How the host reads the data of a trace call. The codes are wire values, numbered from 1 so
/// that a zeroed code hits the host's invalid branch.
#[derive(Debug, Clone, Copy, PartialEq, Eq, Structural)]
pub enum TraceDataType {
    /// 8 little-endian bytes, printed as a signed decimal.
    Int64,
    /// 8 little-endian bytes, printed as an unsigned decimal.
    Uint64,
    /// 8 bytes holding an opaque float.
    Xfloat,
    /// A 20-byte account ID, printed in base58.
    Account,
    /// A serialized amount.
    Amount,
    /// Raw bytes, hex-encoded by the host.
    AsHex,
    /// Bytes printed verbatim as text.
    AsText,
}

impl TraceDataType {
    /// The wire code of the data type.
    pub open spec fn spec_code(self) -> i32 {
        match self {
            TraceDataType::Int64 => 1,
            TraceDataType::Uint64 => 2,
            TraceDataType::Xfloat => 3,
            TraceDataType::Account => 4,
            TraceDataType::Amount => 5,
            TraceDataType::AsHex => 6,
            TraceDataType::AsText => 7,
        }
    }

    /// The wire code of the data type.
    pub fn code(&self) -> (r: i32)
        ensures
            r == self.spec_code(),
    {
        match self {
            TraceDataType::Int64 => 1,
            TraceDataType::Uint64 => 2,
            TraceDataType::Xfloat => 3,
            TraceDataType::Account => 4,
            TraceDataType::Amount => 5,
            TraceDataType::AsHex => 6,
            TraceDataType::AsText => 7,
        }
    }
}

/// The wire codes of the data types are pairwise distinct and never zero, so the host can tell
/// every data type apart and a zeroed code is none of them.
pub proof fn lemma_trace_data_type_codes(a: TraceDataType, b: TraceDataType)
    ensures
        a.spec_code() != 0,
        1 <= a.spec_code() <= 7,
        (a.spec_code() == b.spec_code()) == (a == b),
{
}

/// Hands a message and its data, with the data's wire code, to the host.
fn trace_impl<H: HostBindings>(host: &mut Host<H>, msg: &str, data_type: TraceDataType, data: &[u8])
    ensures
        made_calls(*old(host), *final(host), seq![HostCall::Trace]),
        old(host).bindings().traced(msg@, data_type.spec_code(), data@),
{
    host.trace(msg, data_type.code(), data);
}

/// Writes a message to the trace log.
pub fn trace<H: HostBindings>(host: &mut Host<H>, msg: &str)
    ensures
        made_calls(*old(host), *final(host), seq![HostCall::Trace]),
        old(host).bindings().traced(msg@, TraceDataType::AsText.spec_code(), Seq::<u8>::empty()),
{
    let empty: [u8; 0] = [];
    assert(empty@ =~= Seq::<u8>::empty());
    trace_impl(host, msg, TraceDataType::AsText, &empty);
}

/// Writes a message and a data buffer, hex-encoded by the host, to the trace log.
pub fn trace_hex<H: HostBindings>(host: &mut Host<H>, msg: &str, data: &[u8])
    ensures
        made_calls(*old(host), *final(host), seq![HostCall::Trace]),
        old(host).bindings().traced(msg@, TraceDataType::AsHex.spec_code(), data@),
{
    trace_impl(host, msg, TraceDataType::AsHex, data);
}

/// Writes a message and a data buffer, printed verbatim as text, to the trace log.
pub fn trace_text<H: HostBindings>(host: &mut Host<H>, msg: &str, data: &[u8])
    ensures
        made_calls(*old(host), *final(host), seq![HostCall::Trace]),
        old(host).bindings().traced(msg@, TraceDataType::AsText.spec_code(), data@),
{
    trace_impl(host, msg, TraceDataType::AsText, data);
}

/// Writes a message and a signed number to the trace log.
pub fn trace_num<H: HostBindings>(host: &mut Host<H>, msg: &str, number: i64)
    ensures
        made_calls(*old(host), *final(host), seq![HostCall::Trace]),
        old(host).bindings().traced(msg@, TraceDataType::Int64.spec_code(), u64_le(number as u64)),
{
    let bytes = u64_to_le_bytes(number as u64);
    trace_impl(host, msg, TraceDataType::Int64, &bytes);
}

/// Writes a message and an unsigned number to the trace log; for values above `i64::MAX`.
pub fn trace_num_unsigned<H: HostBindings>(host: &mut Host<H>, msg: &str, number: u64)
    ensures
        made_calls(*old(host), *final(host), seq![HostCall::Trace]),
        old(host).bindings().traced(msg@, TraceDataType::Uint64.spec_code(), u64_le(number)),
{
    let bytes = u64_to_le_bytes(number);
    trace_impl(host, msg, TraceDataType::Uint64, &bytes);
}

/// Writes a message and a 20-byte account ID to the trace log.
pub fn trace_acct_buf<H: HostBindings>(host: &mut Host<H>, msg: &str, account_id: &[u8; 20])
    ensures
        made_calls(*old(host), *final(host), seq![HostCall::Trace]),
        old(host).bindings().traced(msg@, TraceDataType::Account.spec_code(), account_id@),
{
    trace_impl(host, msg, TraceDataType::Account, account_id);
}

/// Writes a message and an account to the trace log.
pub fn trace_acct<H: HostBindings>(host: &mut Host<H>, msg: &str, account_id: &AccountID)
    ensures
        made_calls(*old(host), *final(host), seq![HostCall::Trace]),
        old(host).bindings().traced(msg@, TraceDataType::Account.spec_code(), account_id.0@),
{
    trace_impl(host, msg, TraceDataType::Account, &account_id.0);
}

/// Writes a message and an amount, serialized, to the trace log.
pub fn trace_amt<H: HostBindings>(host: &mut Host<H>, msg: &str, amount: &Amount)
    ensures
        made_calls(*old(host), *final(host), seq![HostCall::Trace]),
        old(host).bindings().traced(msg@, TraceDataType::Amount.spec_code(), amount.spec_stamount_bytes()),
{
    let (amount_bytes, len) = amount.to_stamount_bytes();
    let data = vstd::slice::slice_subrange(vstd::array::array_as_slice(&amount_bytes), 0, len);
    assert(data@ =~= amount.spec_stamount_bytes());
    trace_impl(host, msg, TraceDataType::Amount, data);
}

/// Writes a message and an 8-byte opaque float to the trace log.
pub fn trace_float<H: HostBindings>(host: &mut Host<H>, msg: &str, f: &[u8; 8])
    ensures
        made_calls(*old(host), *final(host), seq![HostCall::Trace]),
        old(host).bindings().traced(msg@, TraceDataType::Xfloat.spec_code(), f@),
{
    trace_impl(host, msg, TraceDataType::Xfloat, f);
}

} // verus!
