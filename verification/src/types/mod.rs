//! The value types that fields decode into.

pub mod account_id;
pub mod amount;
pub mod blob;
pub mod currency;
pub mod decode_error;
pub mod iou_number;
pub mod issue;
pub mod mpt_id;
pub mod public_key;
pub mod transaction_type;
pub mod uint;
