//! The error a [`FieldDecoder`](crate::fields::decoder::FieldDecoder) reports for bytes it cannot
//! decode.

use vstd::prelude::*;

verus! {

/// The bytes the host wrote do not encode a value of the requested type.
#[derive(Debug, Clone, Copy, PartialEq, Eq, Structural)]
pub struct DecodeError;

} // verus!
