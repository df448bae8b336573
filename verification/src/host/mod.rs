//! The host interface: the error a host call can fail with, the [`HostBindings`] through which
//! every host function is reached, and the thin typed layers over them (chain information,
//! tracing).

pub mod bindings;
pub mod calls;
pub mod chain;
pub mod error_codes;
pub mod trace;

pub use bindings::{DefaultHost, HostBindings, create_default_mock};
pub use calls::{Host, HostCall};

use vstd::prelude::*;
use crate::host::error_codes::{
    BUFFER_TOO_SMALL, DATA_FIELD_TOO_LARGE, EMPTY_SLOT, FIELD_NOT_FOUND, FLOAT_COMPUTATION_ERROR,
    FLOAT_INPUT_MALFORMED, INDEX_OUT_OF_BOUNDS, INTERNAL_ERROR, INVALID_ACCOUNT, INVALID_DECODING,
    INVALID_FIELD, INVALID_PARAMS, LEDGER_OBJ_NOT_FOUND, LOCATOR_MALFORMED, NO_ARRAY,
    NO_MEM_EXPORTED, NOT_LEAF_FIELD, POINTER_OUT_OF_BOUNDS, SLOTS_FULL, SLOT_OUT_RANGE,
};

verus! {

/// An error reported by the host, or detected by this library on the host's answer.
///
/// Every variant but `Unknown` stands for one of the host's negative result codes;
/// `Unknown` keeps a code the host is not documented to return.
#[derive(Debug, Clone, Copy, PartialEq, Eq, Structural)]
pub enum Error {
    InternalError,
    FieldNotFound,
    BufferTooSmall,
    NoArray,
    NotLeafField,
    LocatorMalformed,
    SlotOutRange,
    SlotsFull,
    EmptySlot,
    LedgerObjNotFound,
    InvalidDecoding,
    DataFieldTooLarge,
    PointerOutOfBounds,
    NoMemoryExported,
    InvalidParams,
    InvalidAccount,
    InvalidField,
    IndexOutOfBounds,
    FloatInputMalformed,
    FloatComputationError,
    Unknown(i32),
}

impl Error {
    /// The error a result code stands for.
    pub open spec fn spec_from_code(code: i32) -> Error {
        if code == INTERNAL_ERROR {
            Error::InternalError
        } else if code == FIELD_NOT_FOUND {
            Error::FieldNotFound
        } else if code == BUFFER_TOO_SMALL {
            Error::BufferTooSmall
        } else if code == NO_ARRAY {
            Error::NoArray
        } else if code == NOT_LEAF_FIELD {
            Error::NotLeafField
        } else if code == LOCATOR_MALFORMED {
            Error::LocatorMalformed
        } else if code == SLOT_OUT_RANGE {
            Error::SlotOutRange
        } else if code == SLOTS_FULL {
            Error::SlotsFull
        } else if code == EMPTY_SLOT {
            Error::EmptySlot
        } else if code == LEDGER_OBJ_NOT_FOUND {
            Error::LedgerObjNotFound
        } else if code == INVALID_DECODING {
            Error::InvalidDecoding
        } else if code == DATA_FIELD_TOO_LARGE {
            Error::DataFieldTooLarge
        } else if code == POINTER_OUT_OF_BOUNDS {
            Error::PointerOutOfBounds
        } else if code == NO_MEM_EXPORTED {
            Error::NoMemoryExported
        } else if code == INVALID_PARAMS {
            Error::InvalidParams
        } else if code == INVALID_ACCOUNT {
            Error::InvalidAccount
        } else if code == INVALID_FIELD {
            Error::InvalidField
        } else if code == INDEX_OUT_OF_BOUNDS {
            Error::IndexOutOfBounds
        } else if code == FLOAT_INPUT_MALFORMED {
            Error::FloatInputMalformed
        } else if code == FLOAT_COMPUTATION_ERROR {
            Error::FloatComputationError
        } else {
            Error::Unknown(code)
        }
    }

    /// The result code an error stands for.
    pub open spec fn spec_code(self) -> i32 {
        match self {
            Error::InternalError => INTERNAL_ERROR,
            Error::FieldNotFound => FIELD_NOT_FOUND,
            Error::BufferTooSmall => BUFFER_TOO_SMALL,
            Error::NoArray => NO_ARRAY,
            Error::NotLeafField => NOT_LEAF_FIELD,
            Error::LocatorMalformed => LOCATOR_MALFORMED,
            Error::SlotOutRange => SLOT_OUT_RANGE,
            Error::SlotsFull => SLOTS_FULL,
            Error::EmptySlot => EMPTY_SLOT,
            Error::LedgerObjNotFound => LEDGER_OBJ_NOT_FOUND,
            Error::InvalidDecoding => INVALID_DECODING,
            Error::DataFieldTooLarge => DATA_FIELD_TOO_LARGE,
            Error::PointerOutOfBounds => POINTER_OUT_OF_BOUNDS,
            Error::NoMemoryExported => NO_MEM_EXPORTED,
            Error::InvalidParams => INVALID_PARAMS,
            Error::InvalidAccount => INVALID_ACCOUNT,
            Error::InvalidField => INVALID_FIELD,
            Error::IndexOutOfBounds => INDEX_OUT_OF_BOUNDS,
            Error::FloatInputMalformed => FLOAT_INPUT_MALFORMED,
            Error::FloatComputationError => FLOAT_COMPUTATION_ERROR,
            Error::Unknown(code) => code,
        }
    }

    /// An error is canonical unless it is an `Unknown` that carries one of the named codes.
    pub open spec fn is_canonical(self) -> bool {
        match self {
            Error::Unknown(code) => Error::spec_from_code(code) is Unknown,
            _ => true,
        }
    }

    /// Maps a result code to the error it stands for.
    pub fn from_code(code: i32) -> (r: Error)
        ensures
            r == Error::spec_from_code(code),
    {
        if code == INTERNAL_ERROR {
            Error::InternalError
        } else if code == FIELD_NOT_FOUND {
            Error::FieldNotFound
        } else if code == BUFFER_TOO_SMALL {
            Error::BufferTooSmall
        } else if code == NO_ARRAY {
            Error::NoArray
        } else if code == NOT_LEAF_FIELD {
            Error::NotLeafField
        } else if code == LOCATOR_MALFORMED {
            Error::LocatorMalformed
        } else if code == SLOT_OUT_RANGE {
            Error::SlotOutRange
        } else if code == SLOTS_FULL {
            Error::SlotsFull
        } else if code == EMPTY_SLOT {
            Error::EmptySlot
        } else if code == LEDGER_OBJ_NOT_FOUND {
            Error::LedgerObjNotFound
        } else if code == INVALID_DECODING {
            Error::InvalidDecoding
        } else if code == DATA_FIELD_TOO_LARGE {
            Error::DataFieldTooLarge
        } else if code == POINTER_OUT_OF_BOUNDS {
            Error::PointerOutOfBounds
        } else if code == NO_MEM_EXPORTED {
            Error::NoMemoryExported
        } else if code == INVALID_PARAMS {
            Error::InvalidParams
        } else if code == INVALID_ACCOUNT {
            Error::InvalidAccount
        } else if code == INVALID_FIELD {
            Error::InvalidField
        } else if code == INDEX_OUT_OF_BOUNDS {
            Error::IndexOutOfBounds
        } else if code == FLOAT_INPUT_MALFORMED {
            Error::FloatInputMalformed
        } else if code == FLOAT_COMPUTATION_ERROR {
            Error::FloatComputationError
        } else {
            Error::Unknown(code)
        }
    }

    /// The result code this error stands for.
    pub fn code(&self) -> (r: i32)
        ensures
            r == self.spec_code(),
    {
        match self {
            Error::InternalError => INTERNAL_ERROR,
            Error::FieldNotFound => FIELD_NOT_FOUND,
            Error::BufferTooSmall => BUFFER_TOO_SMALL,
            Error::NoArray => NO_ARRAY,
            Error::NotLeafField => NOT_LEAF_FIELD,
            Error::LocatorMalformed => LOCATOR_MALFORMED,
            Error::SlotOutRange => SLOT_OUT_RANGE,
            Error::SlotsFull => SLOTS_FULL,
            Error::EmptySlot => EMPTY_SLOT,
            Error::LedgerObjNotFound => LEDGER_OBJ_NOT_FOUND,
            Error::InvalidDecoding => INVALID_DECODING,
            Error::DataFieldTooLarge => DATA_FIELD_TOO_LARGE,
            Error::PointerOutOfBounds => POINTER_OUT_OF_BOUNDS,
            Error::NoMemoryExported => NO_MEM_EXPORTED,
            Error::InvalidParams => INVALID_PARAMS,
            Error::InvalidAccount => INVALID_ACCOUNT,
            Error::InvalidField => INVALID_FIELD,
            Error::IndexOutOfBounds => INDEX_OUT_OF_BOUNDS,
            Error::FloatInputMalformed => FLOAT_INPUT_MALFORMED,
            Error::FloatComputationError => FLOAT_COMPUTATION_ERROR,
            Error::Unknown(code) => *code,
        }
    }
}

/// Every result code survives the trip through an error: `from_code(c).code() == c`.
pub proof fn lemma_code_from_code(code: i32)
    ensures
        Error::spec_from_code(code).spec_code() == code,
{
}

/// Every canonical error survives the trip through its code: `from_code(e.code()) == e`.
pub proof fn lemma_from_code_code(e: Error)
    requires
        e.is_canonical(),
    ensures
        Error::spec_from_code(e.spec_code()) == e,
{
}

} // verus!
