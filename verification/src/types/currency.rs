//! 20-byte currency codes.

use vstd::prelude::*;

verus! {

/// The size of a currency code in bytes.
pub const CURRENCY_SIZE: usize = 20;

/// A 20-byte currency code; all zeros is XRP.
#[derive(Debug, Clone, Copy, PartialEq, Eq)]
pub struct Currency(pub [u8; 20]);

impl From<[u8; 20]> for Currency {
    fn from(bytes: [u8; 20]) -> (r: Currency) {
        Currency(bytes)
    }
}

impl vstd::std_specs::convert::FromSpecImpl<[u8; 20]> for Currency {
    open spec fn obeys_from_spec() -> bool {
        true
    }

    open spec fn from_spec(bytes: [u8; 20]) -> Currency {
        Currency(bytes)
    }
}

} // verus!
