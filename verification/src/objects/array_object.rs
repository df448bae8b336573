//! Placeholder value types for aggregate fields.
//!
//! Arrays (such as `Memos` or `SignerEntries`) and inner objects (such as `Memo`) cannot be read
//! as one value. Their fields name these types, which implement no decoder, so passing such a
//! field to a `get_field` accessor does not compile; an element or an inner field is reached
//! with a path instead (see [`crate::fields::locator`]).

use vstd::prelude::*;

verus! {

/// The value type of an array field.
#[derive(Debug, Clone, Copy, PartialEq, Eq, Structural)]
pub struct Array;

/// The value type of an inner-object field.
#[derive(Debug, Clone, Copy, PartialEq, Eq, Structural)]
pub struct Object;

} // verus!
