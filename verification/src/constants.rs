//! Ledger-wide constants.

use vstd::prelude::*;
use crate::types::account_id::AccountID;

verus! {

/// The indivisible unit of XRP.
pub const ONE_DROP: u64 = 1;

/// 100 billion XRP.
pub const MAX_XRP: u64 = 100_000_000_000u64;

/// The largest possible number of drops of XRP.
pub const MAX_DROPS: u64 = MAX_XRP * 1_000_000;

/// Account Zero (rrrrrrrrrrrrrrrrrrrrrhoLvTp): 20 zero bytes.
pub fn account_zero() -> (r: AccountID)
    ensures
        r.0@ == Seq::new(20, |i: int| 0u8),
{
    let bytes: [u8; 20] = [0u8; 20];
    proof {
        broadcast use vstd::array::axiom_spec_array_fill_for_copy_type;

        assert(bytes == vstd::array::spec_array_fill_for_copy_type::<u8, 20>(0u8));
    }
    assert(bytes@ =~= Seq::new(20, |i: int| 0u8));
    AccountID(bytes)
}

/// Account One (rrrrrrrrrrrrrrrrrrrrBZbvji): 19 zero bytes, then 1.
pub fn account_one() -> (r: AccountID)
    ensures
        r.0@ == Seq::new(20, |i: int| if i == 19 { 1u8 } else { 0u8 }),
{
    let mut bytes: [u8; 20] = [0u8; 20];
    proof {
        broadcast use vstd::array::axiom_spec_array_fill_for_copy_type;

        assert(bytes == vstd::array::spec_array_fill_for_copy_type::<u8, 20>(0u8));
    }
    bytes[19] = 1;
    assert(bytes@ =~= Seq::new(20, |i: int| if i == 19 { 1u8 } else { 0u8 }));
    AccountID(bytes)
}

} // verus!
