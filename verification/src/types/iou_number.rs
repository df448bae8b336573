//! The 8-byte value of an issued-currency amount.

use vstd::prelude::*;

verus! {

/// The serialized 8-byte value of an issued-currency amount, kept opaque: its mantissa and
/// exponent are interpreted by the host's number functions, not by this library.
#[derive(Debug, Clone, Copy, PartialEq, Eq)]
pub struct IOUNumber(pub [u8; 8]);

} // verus!
