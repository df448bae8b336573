//! Typed, verified access to the XRP Ledger host environment for smart-contract code: field
//! reads from the current transaction and from ledger objects, nested-field locators, ledger
//! entry IDs, hashing and tracing.

pub mod bytes;
pub mod constants;
pub mod crypto;
pub mod current_tx;
pub mod fields;
pub mod host;
pub mod ledger_entry_ids;
pub mod objects;
pub mod sfield;
pub mod types;
