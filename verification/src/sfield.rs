//! The serialized fields of transactions and ledger objects.
//!
//! Each field is a unit type implementing [`SField`]: its code (the serialized type code in the
//! high 16 bits, the field's index within that type in the low 16 bits) and the Rust type its
//! value decodes into. Aggregate fields (arrays and inner objects) have the placeholder types
//! [`Array`] and [`Object`], which no decoder accepts, so reading one as a value does not
//! compile; they are reached with a path instead. Fields whose serialized type has no Rust
//! counterpart yet are read as raw bytes.

use vstd::prelude::*;

verus! {

/// A serialized field: its code and the type of its value.
pub trait SField {
    /// The type a value of the field decodes into.
    type Value;

    /// The field's code.
    spec fn spec_code() -> i32;

    /// The field's code, as handed to the host.
    fn code(&self) -> (r: i32)
        ensures
            r == Self::spec_code(),
    ;
}

/// The `Generic` field (the generic field).
#[derive(Debug, Clone, Copy, PartialEq, Eq, Structural)]
pub struct Generic;

impl SField for Generic {
    type Value = u8;

    open spec fn spec_code() -> i32 {
        0
    }

    fn code(&self) -> (r: i32) {
        0
    }
}

/// The `Scale` field (type code 16, index 4).
#[derive(Debug, Clone, Copy, PartialEq, Eq, Structural)]
pub struct Scale;

impl SField for Scale {
    type Value = u8;

    open spec fn spec_code() -> i32 {
        1048580
    }

    fn code(&self) -> (r: i32) {
        1048580
    }
}

/// The `AssetScale` field (type code 16, index 5).
#[derive(Debug, Clone, Copy, PartialEq, Eq, Structural)]
pub struct AssetScale;

impl SField for AssetScale {
    type Value = u8;

    open spec fn spec_code() -> i32 {
        1048581
    }

    fn code(&self) -> (r: i32) {
        1048581
    }
}

/// The `TickSize` field (type code 16, index 16).
#[derive(Debug, Clone, Copy, PartialEq, Eq, Structural)]
pub struct TickSize;

impl SField for TickSize {
    type Value = u8;

    open spec fn spec_code() -> i32 {
        1048592
    }

    fn code(&self) -> (r: i32) {
        1048592
    }
}

/// The `WithdrawalPolicy` field (type code 16, index 20).
#[derive(Debug, Clone, Copy, PartialEq, Eq, Structural)]
pub struct WithdrawalPolicy;

impl SField for WithdrawalPolicy {
    type Value = u8;

    open spec fn spec_code() -> i32 {
        1048596
    }

    fn code(&self) -> (r: i32) {
        1048596
    }
}

/// The `TransactionType` field (type code 1, index 2).
#[derive(Debug, Clone, Copy, PartialEq, Eq, Structural)]
pub struct TransactionType;

impl SField for TransactionType {
    type Value = crate::types::transaction_type::TransactionType;

    open spec fn spec_code() -> i32 {
        65538
    }

    fn code(&self) -> (r: i32) {
        65538
    }
}

/// The `SignerWeight` field (type code 1, index 3).
#[derive(Debug, Clone, Copy, PartialEq, Eq, Structural)]
pub struct SignerWeight;

impl SField for SignerWeight {
    type Value = u16;

    open spec fn spec_code() -> i32 {
        65539
    }

    fn code(&self) -> (r: i32) {
        65539
    }
}

/// The `TransferFee` field (type code 1, index 4).
#[derive(Debug, Clone, Copy, PartialEq, Eq, Structural)]
pub struct TransferFee;

impl SField for TransferFee {
    type Value = u16;

    open spec fn spec_code() -> i32 {
        65540
    }

    fn code(&self) -> (r: i32) {
        65540
    }
}

/// The `TradingFee` field (type code 1, index 5).
#[derive(Debug, Clone, Copy, PartialEq, Eq, Structural)]
pub struct TradingFee;

impl SField for TradingFee {
    type Value = u16;

    open spec fn spec_code() -> i32 {
        65541
    }

    fn code(&self) -> (r: i32) {
        65541
    }
}

/// The `ManagementFeeRate` field (type code 1, index 22).
#[derive(Debug, Clone, Copy, PartialEq, Eq, Structural)]
pub struct ManagementFeeRate;

impl SField for ManagementFeeRate {
    type Value = u16;

    open spec fn spec_code() -> i32 {
        65558
    }

    fn code(&self) -> (r: i32) {
        65558
    }
}

/// The `NetworkID` field (type code 2, index 1).
#[derive(Debug, Clone, Copy, PartialEq, Eq, Structural)]
pub struct NetworkID;

impl SField for NetworkID {
    type Value = u32;

    open spec fn spec_code() -> i32 {
        131073
    }

    fn code(&self) -> (r: i32) {
        131073
    }
}

/// The `Flags` field (type code 2, index 2).
#[derive(Debug, Clone, Copy, PartialEq, Eq, Structural)]
pub struct Flags;

impl SField for Flags {
    type Value = u32;

    open spec fn spec_code() -> i32 {
        131074
    }

    fn code(&self) -> (r: i32) {
        131074
    }
}

/// The `SourceTag` field (type code 2, index 3).
#[derive(Debug, Clone, Copy, PartialEq, Eq, Structural)]
pub struct SourceTag;

impl SField for SourceTag {
    type Value = u32;

    open spec fn spec_code() -> i32 {
        131075
    }

    fn code(&self) -> (r: i32) {
        131075
    }
}

/// The `Sequence` field (type code 2, index 4).
#[derive(Debug, Clone, Copy, PartialEq, Eq, Structural)]
pub struct Sequence;

impl SField for Sequence {
    type Value = u32;

    open spec fn spec_code() -> i32 {
        131076
    }

    fn code(&self) -> (r: i32) {
        131076
    }
}

/// The `PreviousTxnLgrSeq` field (type code 2, index 5).
#[derive(Debug, Clone, Copy, PartialEq, Eq, Structural)]
pub struct PreviousTxnLgrSeq;

impl SField for PreviousTxnLgrSeq {
    type Value = u32;

    open spec fn spec_code() -> i32 {
        131077
    }

    fn code(&self) -> (r: i32) {
        131077
    }
}

/// The `Expiration` field (type code 2, index 10).
#[derive(Debug, Clone, Copy, PartialEq, Eq, Structural)]
pub struct Expiration;

impl SField for Expiration {
    type Value = u32;

    open spec fn spec_code() -> i32 {
        131082
    }

    fn code(&self) -> (r: i32) {
        131082
    }
}

/// The `TransferRate` field (type code 2, index 11).
#[derive(Debug, Clone, Copy, PartialEq, Eq, Structural)]
pub struct TransferRate;

impl SField for TransferRate {
    type Value = u32;

    open spec fn spec_code() -> i32 {
        131083
    }

    fn code(&self) -> (r: i32) {
        131083
    }
}

/// The `WalletSize` field (type code 2, index 12).
#[derive(Debug, Clone, Copy, PartialEq, Eq, Structural)]
pub struct WalletSize;

impl SField for WalletSize {
    type Value = u32;

    open spec fn spec_code() -> i32 {
        131084
    }

    fn code(&self) -> (r: i32) {
        131084
    }
}

/// The `OwnerCount` field (type code 2, index 13).
#[derive(Debug, Clone, Copy, PartialEq, Eq, Structural)]
pub struct OwnerCount;

impl SField for OwnerCount {
    type Value = u32;

    open spec fn spec_code() -> i32 {
        131085
    }

    fn code(&self) -> (r: i32) {
        131085
    }
}

/// The `DestinationTag` field (type code 2, index 14).
#[derive(Debug, Clone, Copy, PartialEq, Eq, Structural)]
pub struct DestinationTag;

impl SField for DestinationTag {
    type Value = u32;

    open spec fn spec_code() -> i32 {
        131086
    }

    fn code(&self) -> (r: i32) {
        131086
    }
}

/// The `LastUpdateTime` field (type code 2, index 15).
#[derive(Debug, Clone, Copy, PartialEq, Eq, Structural)]
pub struct LastUpdateTime;

impl SField for LastUpdateTime {
    type Value = u32;

    open spec fn spec_code() -> i32 {
        131087
    }

    fn code(&self) -> (r: i32) {
        131087
    }
}

/// The `HighQualityIn` field (type code 2, index 16).
#[derive(Debug, Clone, Copy, PartialEq, Eq, Structural)]
pub struct HighQualityIn;

impl SField for HighQualityIn {
    type Value = u32;

    open spec fn spec_code() -> i32 {
        131088
    }

    fn code(&self) -> (r: i32) {
        131088
    }
}

/// The `HighQualityOut` field (type code 2, index 17).
#[derive(Debug, Clone, Copy, PartialEq, Eq, Structural)]
pub struct HighQualityOut;

impl SField for HighQualityOut {
    type Value = u32;

    open spec fn spec_code() -> i32 {
        131089
    }

    fn code(&self) -> (r: i32) {
        131089
    }
}

/// The `LowQualityIn` field (type code 2, index 18).
#[derive(Debug, Clone, Copy, PartialEq, Eq, Structural)]
pub struct LowQualityIn;

impl SField for LowQualityIn {
    type Value = u32;

    open spec fn spec_code() -> i32 {
        131090
    }

    fn code(&self) -> (r: i32) {
        131090
    }
}

/// The `LowQualityOut` field (type code 2, index 19).
#[derive(Debug, Clone, Copy, PartialEq, Eq, Structural)]
pub struct LowQualityOut;

impl SField for LowQualityOut {
    type Value = u32;

    open spec fn spec_code() -> i32 {
        131091
    }

    fn code(&self) -> (r: i32) {
        131091
    }
}

/// The `FirstLedgerSequence` field (type code 2, index 26).
#[derive(Debug, Clone, Copy, PartialEq, Eq, Structural)]
pub struct FirstLedgerSequence;

impl SField for FirstLedgerSequence {
    type Value = u32;

    open spec fn spec_code() -> i32 {
        131098
    }

    fn code(&self) -> (r: i32) {
        131098
    }
}

/// The `LastLedgerSequence` field (type code 2, index 27).
#[derive(Debug, Clone, Copy, PartialEq, Eq, Structural)]
pub struct LastLedgerSequence;

impl SField for LastLedgerSequence {
    type Value = u32;

    open spec fn spec_code() -> i32 {
        131099
    }

    fn code(&self) -> (r: i32) {
        131099
    }
}

/// The `ReferenceFeeUnits` field (type code 2, index 30).
#[derive(Debug, Clone, Copy, PartialEq, Eq, Structural)]
pub struct ReferenceFeeUnits;

impl SField for ReferenceFeeUnits {
    type Value = u32;

    open spec fn spec_code() -> i32 {
        131102
    }

    fn code(&self) -> (r: i32) {
        131102
    }
}

/// The `ReserveBase` field (type code 2, index 31).
#[derive(Debug, Clone, Copy, PartialEq, Eq, Structural)]
pub struct ReserveBase;

impl SField for ReserveBase {
    type Value = u32;

    open spec fn spec_code() -> i32 {
        131103
    }

    fn code(&self) -> (r: i32) {
        131103
    }
}

/// The `ReserveIncrement` field (type code 2, index 32).
#[derive(Debug, Clone, Copy, PartialEq, Eq, Structural)]
pub struct ReserveIncrement;

impl SField for ReserveIncrement {
    type Value = u32;

    open spec fn spec_code() -> i32 {
        131104
    }

    fn code(&self) -> (r: i32) {
        131104
    }
}

/// The `SignerQuorum` field (type code 2, index 35).
#[derive(Debug, Clone, Copy, PartialEq, Eq, Structural)]
pub struct SignerQuorum;

impl SField for SignerQuorum {
    type Value = u32;

    open spec fn spec_code() -> i32 {
        131107
    }

    fn code(&self) -> (r: i32) {
        131107
    }
}

/// The `CancelAfter` field (type code 2, index 36).
#[derive(Debug, Clone, Copy, PartialEq, Eq, Structural)]
pub struct CancelAfter;

impl SField for CancelAfter {
    type Value = u32;

    open spec fn spec_code() -> i32 {
        131108
    }

    fn code(&self) -> (r: i32) {
        131108
    }
}

/// The `FinishAfter` field (type code 2, index 37).
#[derive(Debug, Clone, Copy, PartialEq, Eq, Structural)]
pub struct FinishAfter;

impl SField for FinishAfter {
    type Value = u32;

    open spec fn spec_code() -> i32 {
        131109
    }

    fn code(&self) -> (r: i32) {
        131109
    }
}

/// The `SignerListID` field (type code 2, index 38).
#[derive(Debug, Clone, Copy, PartialEq, Eq, Structural)]
pub struct SignerListID;

impl SField for SignerListID {
    type Value = u32;

    open spec fn spec_code() -> i32 {
        131110
    }

    fn code(&self) -> (r: i32) {
        131110
    }
}

/// The `SettleDelay` field (type code 2, index 39).
#[derive(Debug, Clone, Copy, PartialEq, Eq, Structural)]
pub struct SettleDelay;

impl SField for SettleDelay {
    type Value = u32;

    open spec fn spec_code() -> i32 {
        131111
    }

    fn code(&self) -> (r: i32) {
        131111
    }
}

/// The `TicketCount` field (type code 2, index 40).
#[derive(Debug, Clone, Copy, PartialEq, Eq, Structural)]
pub struct TicketCount;

impl SField for TicketCount {
    type Value = u32;

    open spec fn spec_code() -> i32 {
        131112
    }

    fn code(&self) -> (r: i32) {
        131112
    }
}

/// The `TicketSequence` field (type code 2, index 41).
#[derive(Debug, Clone, Copy, PartialEq, Eq, Structural)]
pub struct TicketSequence;

impl SField for TicketSequence {
    type Value = u32;

    open spec fn spec_code() -> i32 {
        131113
    }

    fn code(&self) -> (r: i32) {
        131113
    }
}

/// The `MintedNFTokens` field (type code 2, index 43).
#[derive(Debug, Clone, Copy, PartialEq, Eq, Structural)]
pub struct MintedNFTokens;

impl SField for MintedNFTokens {
    type Value = u32;

    open spec fn spec_code() -> i32 {
        131115
    }

    fn code(&self) -> (r: i32) {
        131115
    }
}

/// The `BurnedNFTokens` field (type code 2, index 44).
#[derive(Debug, Clone, Copy, PartialEq, Eq, Structural)]
pub struct BurnedNFTokens;

impl SField for BurnedNFTokens {
    type Value = u32;

    open spec fn spec_code() -> i32 {
        131116
    }

    fn code(&self) -> (r: i32) {
        131116
    }
}

/// The `FirstNFTokenSequence` field (type code 2, index 50).
#[derive(Debug, Clone, Copy, PartialEq, Eq, Structural)]
pub struct FirstNFTokenSequence;

impl SField for FirstNFTokenSequence {
    type Value = u32;

    open spec fn spec_code() -> i32 {
        131122
    }

    fn code(&self) -> (r: i32) {
        131122
    }
}

/// The `OracleDocumentID` field (type code 2, index 51).
#[derive(Debug, Clone, Copy, PartialEq, Eq, Structural)]
pub struct OracleDocumentID;

impl SField for OracleDocumentID {
    type Value = u32;

    open spec fn spec_code() -> i32 {
        131123
    }

    fn code(&self) -> (r: i32) {
        131123
    }
}

/// The `MutableFlags` field (type code 2, index 53).
#[derive(Debug, Clone, Copy, PartialEq, Eq, Structural)]
pub struct MutableFlags;

impl SField for MutableFlags {
    type Value = u32;

    open spec fn spec_code() -> i32 {
        131125
    }

    fn code(&self) -> (r: i32) {
        131125
    }
}

/// The `StartDate` field (type code 2, index 54).
#[derive(Debug, Clone, Copy, PartialEq, Eq, Structural)]
pub struct StartDate;

impl SField for StartDate {
    type Value = u32;

    open spec fn spec_code() -> i32 {
        131126
    }

    fn code(&self) -> (r: i32) {
        131126
    }
}

/// The `PaymentInterval` field (type code 2, index 55).
#[derive(Debug, Clone, Copy, PartialEq, Eq, Structural)]
pub struct PaymentInterval;

impl SField for PaymentInterval {
    type Value = u32;

    open spec fn spec_code() -> i32 {
        131127
    }

    fn code(&self) -> (r: i32) {
        131127
    }
}

/// The `GracePeriod` field (type code 2, index 56).
#[derive(Debug, Clone, Copy, PartialEq, Eq, Structural)]
pub struct GracePeriod;

impl SField for GracePeriod {
    type Value = u32;

    open spec fn spec_code() -> i32 {
        131128
    }

    fn code(&self) -> (r: i32) {
        131128
    }
}

/// The `PreviousPaymentDueDate` field (type code 2, index 57).
#[derive(Debug, Clone, Copy, PartialEq, Eq, Structural)]
pub struct PreviousPaymentDueDate;

impl SField for PreviousPaymentDueDate {
    type Value = u32;

    open spec fn spec_code() -> i32 {
        131129
    }

    fn code(&self) -> (r: i32) {
        131129
    }
}

/// The `NextPaymentDueDate` field (type code 2, index 58).
#[derive(Debug, Clone, Copy, PartialEq, Eq, Structural)]
pub struct NextPaymentDueDate;

impl SField for NextPaymentDueDate {
    type Value = u32;

    open spec fn spec_code() -> i32 {
        131130
    }

    fn code(&self) -> (r: i32) {
        131130
    }
}

/// The `PaymentRemaining` field (type code 2, index 59).
#[derive(Debug, Clone, Copy, PartialEq, Eq, Structural)]
pub struct PaymentRemaining;

impl SField for PaymentRemaining {
    type Value = u32;

    open spec fn spec_code() -> i32 {
        131131
    }

    fn code(&self) -> (r: i32) {
        131131
    }
}

/// The `LoanSequence` field (type code 2, index 61).
#[derive(Debug, Clone, Copy, PartialEq, Eq, Structural)]
pub struct LoanSequence;

impl SField for LoanSequence {
    type Value = u32;

    open spec fn spec_code() -> i32 {
        131133
    }

    fn code(&self) -> (r: i32) {
        131133
    }
}

/// The `CoverRateMinimum` field (type code 2, index 62).
#[derive(Debug, Clone, Copy, PartialEq, Eq, Structural)]
pub struct CoverRateMinimum;

impl SField for CoverRateMinimum {
    type Value = u32;

    open spec fn spec_code() -> i32 {
        131134
    }

    fn code(&self) -> (r: i32) {
        131134
    }
}

/// The `CoverRateLiquidation` field (type code 2, index 63).
#[derive(Debug, Clone, Copy, PartialEq, Eq, Structural)]
pub struct CoverRateLiquidation;

impl SField for CoverRateLiquidation {
    type Value = u32;

    open spec fn spec_code() -> i32 {
        131135
    }

    fn code(&self) -> (r: i32) {
        131135
    }
}

/// The `OverpaymentFee` field (type code 2, index 64).
#[derive(Debug, Clone, Copy, PartialEq, Eq, Structural)]
pub struct OverpaymentFee;

impl SField for OverpaymentFee {
    type Value = u32;

    open spec fn spec_code() -> i32 {
        131136
    }

    fn code(&self) -> (r: i32) {
        131136
    }
}

/// The `InterestRate` field (type code 2, index 65).
#[derive(Debug, Clone, Copy, PartialEq, Eq, Structural)]
pub struct InterestRate;

impl SField for InterestRate {
    type Value = u32;

    open spec fn spec_code() -> i32 {
        131137
    }

    fn code(&self) -> (r: i32) {
        131137
    }
}

/// The `LateInterestRate` field (type code 2, index 66).
#[derive(Debug, Clone, Copy, PartialEq, Eq, Structural)]
pub struct LateInterestRate;

impl SField for LateInterestRate {
    type Value = u32;

    open spec fn spec_code() -> i32 {
        131138
    }

    fn code(&self) -> (r: i32) {
        131138
    }
}

/// The `CloseInterestRate` field (type code 2, index 67).
#[derive(Debug, Clone, Copy, PartialEq, Eq, Structural)]
pub struct CloseInterestRate;

impl SField for CloseInterestRate {
    type Value = u32;

    open spec fn spec_code() -> i32 {
        131139
    }

    fn code(&self) -> (r: i32) {
        131139
    }
}

/// The `OverpaymentInterestRate` field (type code 2, index 68).
#[derive(Debug, Clone, Copy, PartialEq, Eq, Structural)]
pub struct OverpaymentInterestRate;

impl SField for OverpaymentInterestRate {
    type Value = u32;

    open spec fn spec_code() -> i32 {
        131140
    }

    fn code(&self) -> (r: i32) {
        131140
    }
}

/// The `ExtensionComputeLimit` field (type code 2, index 69).
#[derive(Debug, Clone, Copy, PartialEq, Eq, Structural)]
pub struct ExtensionComputeLimit;

impl SField for ExtensionComputeLimit {
    type Value = u32;

    open spec fn spec_code() -> i32 {
        131141
    }

    fn code(&self) -> (r: i32) {
        131141
    }
}

/// The `ExtensionSizeLimit` field (type code 2, index 70).
#[derive(Debug, Clone, Copy, PartialEq, Eq, Structural)]
pub struct ExtensionSizeLimit;

impl SField for ExtensionSizeLimit {
    type Value = u32;

    open spec fn spec_code() -> i32 {
        131142
    }

    fn code(&self) -> (r: i32) {
        131142
    }
}

/// The `GasPrice` field (type code 2, index 71).
#[derive(Debug, Clone, Copy, PartialEq, Eq, Structural)]
pub struct GasPrice;

impl SField for GasPrice {
    type Value = u32;

    open spec fn spec_code() -> i32 {
        131143
    }

    fn code(&self) -> (r: i32) {
        131143
    }
}

/// The `ComputationAllowance` field (type code 2, index 72).
#[derive(Debug, Clone, Copy, PartialEq, Eq, Structural)]
pub struct ComputationAllowance;

impl SField for ComputationAllowance {
    type Value = u32;

    open spec fn spec_code() -> i32 {
        131144
    }

    fn code(&self) -> (r: i32) {
        131144
    }
}

/// The `ConfidentialBalanceVersion` field (type code 2, index 73).
#[derive(Debug, Clone, Copy, PartialEq, Eq, Structural)]
pub struct ConfidentialBalanceVersion;

impl SField for ConfidentialBalanceVersion {
    type Value = u32;

    open spec fn spec_code() -> i32 {
        131145
    }

    fn code(&self) -> (r: i32) {
        131145
    }
}

/// The `IndexNext` field (type code 3, index 1).
#[derive(Debug, Clone, Copy, PartialEq, Eq, Structural)]
pub struct IndexNext;

impl SField for IndexNext {
    type Value = u64;

    open spec fn spec_code() -> i32 {
        196609
    }

    fn code(&self) -> (r: i32) {
        196609
    }
}

/// The `IndexPrevious` field (type code 3, index 2).
#[derive(Debug, Clone, Copy, PartialEq, Eq, Structural)]
pub struct IndexPrevious;

impl SField for IndexPrevious {
    type Value = u64;

    open spec fn spec_code() -> i32 {
        196610
    }

    fn code(&self) -> (r: i32) {
        196610
    }
}

/// The `BookNode` field (type code 3, index 3).
#[derive(Debug, Clone, Copy, PartialEq, Eq, Structural)]
pub struct BookNode;

impl SField for BookNode {
    type Value = u64;

    open spec fn spec_code() -> i32 {
        196611
    }

    fn code(&self) -> (r: i32) {
        196611
    }
}

/// The `OwnerNode` field (type code 3, index 4).
#[derive(Debug, Clone, Copy, PartialEq, Eq, Structural)]
pub struct OwnerNode;

impl SField for OwnerNode {
    type Value = u64;

    open spec fn spec_code() -> i32 {
        196612
    }

    fn code(&self) -> (r: i32) {
        196612
    }
}

/// The `BaseFee` field (type code 3, index 5).
#[derive(Debug, Clone, Copy, PartialEq, Eq, Structural)]
pub struct BaseFee;

impl SField for BaseFee {
    type Value = u64;

    open spec fn spec_code() -> i32 {
        196613
    }

    fn code(&self) -> (r: i32) {
        196613
    }
}

/// The `ExchangeRate` field (type code 3, index 6).
#[derive(Debug, Clone, Copy, PartialEq, Eq, Structural)]
pub struct ExchangeRate;

impl SField for ExchangeRate {
    type Value = u64;

    open spec fn spec_code() -> i32 {
        196614
    }

    fn code(&self) -> (r: i32) {
        196614
    }
}

/// The `LowNode` field (type code 3, index 7).
#[derive(Debug, Clone, Copy, PartialEq, Eq, Structural)]
pub struct LowNode;

impl SField for LowNode {
    type Value = u64;

    open spec fn spec_code() -> i32 {
        196615
    }

    fn code(&self) -> (r: i32) {
        196615
    }
}

/// The `HighNode` field (type code 3, index 8).
#[derive(Debug, Clone, Copy, PartialEq, Eq, Structural)]
pub struct HighNode;

impl SField for HighNode {
    type Value = u64;

    open spec fn spec_code() -> i32 {
        196616
    }

    fn code(&self) -> (r: i32) {
        196616
    }
}

/// The `DestinationNode` field (type code 3, index 9).
#[derive(Debug, Clone, Copy, PartialEq, Eq, Structural)]
pub struct DestinationNode;

impl SField for DestinationNode {
    type Value = u64;

    open spec fn spec_code() -> i32 {
        196617
    }

    fn code(&self) -> (r: i32) {
        196617
    }
}

/// The `NFTokenOfferNode` field (type code 3, index 12).
#[derive(Debug, Clone, Copy, PartialEq, Eq, Structural)]
pub struct NFTokenOfferNode;

impl SField for NFTokenOfferNode {
    type Value = u64;

    open spec fn spec_code() -> i32 {
        196620
    }

    fn code(&self) -> (r: i32) {
        196620
    }
}

/// The `ReferenceCount` field (type code 3, index 19).
#[derive(Debug, Clone, Copy, PartialEq, Eq, Structural)]
pub struct ReferenceCount;

impl SField for ReferenceCount {
    type Value = u64;

    open spec fn spec_code() -> i32 {
        196627
    }

    fn code(&self) -> (r: i32) {
        196627
    }
}

/// The `XChainClaimID` field (type code 3, index 20).
#[derive(Debug, Clone, Copy, PartialEq, Eq, Structural)]
pub struct XChainClaimID;

impl SField for XChainClaimID {
    type Value = u64;

    open spec fn spec_code() -> i32 {
        196628
    }

    fn code(&self) -> (r: i32) {
        196628
    }
}

/// The `XChainAccountCreateCount` field (type code 3, index 21).
#[derive(Debug, Clone, Copy, PartialEq, Eq, Structural)]
pub struct XChainAccountCreateCount;

impl SField for XChainAccountCreateCount {
    type Value = u64;

    open spec fn spec_code() -> i32 {
        196629
    }

    fn code(&self) -> (r: i32) {
        196629
    }
}

/// The `XChainAccountClaimCount` field (type code 3, index 22).
#[derive(Debug, Clone, Copy, PartialEq, Eq, Structural)]
pub struct XChainAccountClaimCount;

impl SField for XChainAccountClaimCount {
    type Value = u64;

    open spec fn spec_code() -> i32 {
        196630
    }

    fn code(&self) -> (r: i32) {
        196630
    }
}

/// The `AssetPrice` field (type code 3, index 23).
#[derive(Debug, Clone, Copy, PartialEq, Eq, Structural)]
pub struct AssetPrice;

impl SField for AssetPrice {
    type Value = u64;

    open spec fn spec_code() -> i32 {
        196631
    }

    fn code(&self) -> (r: i32) {
        196631
    }
}

/// The `MaximumAmount` field (type code 3, index 24).
#[derive(Debug, Clone, Copy, PartialEq, Eq, Structural)]
pub struct MaximumAmount;

impl SField for MaximumAmount {
    type Value = u64;

    open spec fn spec_code() -> i32 {
        196632
    }

    fn code(&self) -> (r: i32) {
        196632
    }
}

/// The `OutstandingAmount` field (type code 3, index 25).
#[derive(Debug, Clone, Copy, PartialEq, Eq, Structural)]
pub struct OutstandingAmount;

impl SField for OutstandingAmount {
    type Value = u64;

    open spec fn spec_code() -> i32 {
        196633
    }

    fn code(&self) -> (r: i32) {
        196633
    }
}

/// The `MPTAmount` field (type code 3, index 26).
#[derive(Debug, Clone, Copy, PartialEq, Eq, Structural)]
pub struct MPTAmount;

impl SField for MPTAmount {
    type Value = u64;

    open spec fn spec_code() -> i32 {
        196634
    }

    fn code(&self) -> (r: i32) {
        196634
    }
}

/// The `IssuerNode` field (type code 3, index 27).
#[derive(Debug, Clone, Copy, PartialEq, Eq, Structural)]
pub struct IssuerNode;

impl SField for IssuerNode {
    type Value = u64;

    open spec fn spec_code() -> i32 {
        196635
    }

    fn code(&self) -> (r: i32) {
        196635
    }
}

/// The `SubjectNode` field (type code 3, index 28).
#[derive(Debug, Clone, Copy, PartialEq, Eq, Structural)]
pub struct SubjectNode;

impl SField for SubjectNode {
    type Value = u64;

    open spec fn spec_code() -> i32 {
        196636
    }

    fn code(&self) -> (r: i32) {
        196636
    }
}

/// The `LockedAmount` field (type code 3, index 29).
#[derive(Debug, Clone, Copy, PartialEq, Eq, Structural)]
pub struct LockedAmount;

impl SField for LockedAmount {
    type Value = u64;

    open spec fn spec_code() -> i32 {
        196637
    }

    fn code(&self) -> (r: i32) {
        196637
    }
}

/// The `VaultNode` field (type code 3, index 30).
#[derive(Debug, Clone, Copy, PartialEq, Eq, Structural)]
pub struct VaultNode;

impl SField for VaultNode {
    type Value = u64;

    open spec fn spec_code() -> i32 {
        196638
    }

    fn code(&self) -> (r: i32) {
        196638
    }
}

/// The `LoanBrokerNode` field (type code 3, index 31).
#[derive(Debug, Clone, Copy, PartialEq, Eq, Structural)]
pub struct LoanBrokerNode;

impl SField for LoanBrokerNode {
    type Value = u64;

    open spec fn spec_code() -> i32 {
        196639
    }

    fn code(&self) -> (r: i32) {
        196639
    }
}

/// The `EmailHash` field (type code 4, index 1).
#[derive(Debug, Clone, Copy, PartialEq, Eq, Structural)]
pub struct EmailHash;

impl SField for EmailHash {
    type Value = crate::types::uint::Hash128;

    open spec fn spec_code() -> i32 {
        262145
    }

    fn code(&self) -> (r: i32) {
        262145
    }
}

/// The `TakerPaysCurrency` field (type code 17, index 1).
#[derive(Debug, Clone, Copy, PartialEq, Eq, Structural)]
pub struct TakerPaysCurrency;

impl SField for TakerPaysCurrency {
    type Value = crate::types::uint::Hash160;

    open spec fn spec_code() -> i32 {
        1114113
    }

    fn code(&self) -> (r: i32) {
        1114113
    }
}

/// The `TakerPaysIssuer` field (type code 17, index 2).
#[derive(Debug, Clone, Copy, PartialEq, Eq, Structural)]
pub struct TakerPaysIssuer;

impl SField for TakerPaysIssuer {
    type Value = crate::types::uint::Hash160;

    open spec fn spec_code() -> i32 {
        1114114
    }

    fn code(&self) -> (r: i32) {
        1114114
    }
}

/// The `TakerGetsCurrency` field (type code 17, index 3).
#[derive(Debug, Clone, Copy, PartialEq, Eq, Structural)]
pub struct TakerGetsCurrency;

impl SField for TakerGetsCurrency {
    type Value = crate::types::uint::Hash160;

    open spec fn spec_code() -> i32 {
        1114115
    }

    fn code(&self) -> (r: i32) {
        1114115
    }
}

/// The `TakerGetsIssuer` field (type code 17, index 4).
#[derive(Debug, Clone, Copy, PartialEq, Eq, Structural)]
pub struct TakerGetsIssuer;

impl SField for TakerGetsIssuer {
    type Value = crate::types::uint::Hash160;

    open spec fn spec_code() -> i32 {
        1114116
    }

    fn code(&self) -> (r: i32) {
        1114116
    }
}

/// The `MPTokenIssuanceID` field (type code 21, index 1).
#[derive(Debug, Clone, Copy, PartialEq, Eq, Structural)]
pub struct MPTokenIssuanceID;

impl SField for MPTokenIssuanceID {
    type Value = crate::types::uint::Hash192;

    open spec fn spec_code() -> i32 {
        1376257
    }

    fn code(&self) -> (r: i32) {
        1376257
    }
}

/// The `ShareMPTID` field (type code 21, index 2).
#[derive(Debug, Clone, Copy, PartialEq, Eq, Structural)]
pub struct ShareMPTID;

impl SField for ShareMPTID {
    type Value = crate::types::uint::Hash192;

    open spec fn spec_code() -> i32 {
        1376258
    }

    fn code(&self) -> (r: i32) {
        1376258
    }
}

/// The `TakerPaysMPT` field (type code 21, index 3).
#[derive(Debug, Clone, Copy, PartialEq, Eq, Structural)]
pub struct TakerPaysMPT;

impl SField for TakerPaysMPT {
    type Value = crate::types::uint::Hash192;

    open spec fn spec_code() -> i32 {
        1376259
    }

    fn code(&self) -> (r: i32) {
        1376259
    }
}

/// The `TakerGetsMPT` field (type code 21, index 4).
#[derive(Debug, Clone, Copy, PartialEq, Eq, Structural)]
pub struct TakerGetsMPT;

impl SField for TakerGetsMPT {
    type Value = crate::types::uint::Hash192;

    open spec fn spec_code() -> i32 {
        1376260
    }

    fn code(&self) -> (r: i32) {
        1376260
    }
}

/// The `PreviousTxnID` field (type code 5, index 5).
#[derive(Debug, Clone, Copy, PartialEq, Eq, Structural)]
pub struct PreviousTxnID;

impl SField for PreviousTxnID {
    type Value = crate::types::uint::Hash256;

    open spec fn spec_code() -> i32 {
        327685
    }

    fn code(&self) -> (r: i32) {
        327685
    }
}

/// The `WalletLocator` field (type code 5, index 7).
#[derive(Debug, Clone, Copy, PartialEq, Eq, Structural)]
pub struct WalletLocator;

impl SField for WalletLocator {
    type Value = crate::types::uint::Hash256;

    open spec fn spec_code() -> i32 {
        327687
    }

    fn code(&self) -> (r: i32) {
        327687
    }
}

/// The `RootIndex` field (type code 5, index 8).
#[derive(Debug, Clone, Copy, PartialEq, Eq, Structural)]
pub struct RootIndex;

impl SField for RootIndex {
    type Value = crate::types::uint::Hash256;

    open spec fn spec_code() -> i32 {
        327688
    }

    fn code(&self) -> (r: i32) {
        327688
    }
}

/// The `AccountTxnID` field (type code 5, index 9).
#[derive(Debug, Clone, Copy, PartialEq, Eq, Structural)]
pub struct AccountTxnID;

impl SField for AccountTxnID {
    type Value = crate::types::uint::Hash256;

    open spec fn spec_code() -> i32 {
        327689
    }

    fn code(&self) -> (r: i32) {
        327689
    }
}

/// The `NFTokenID` field (type code 5, index 10).
#[derive(Debug, Clone, Copy, PartialEq, Eq, Structural)]
pub struct NFTokenID;

impl SField for NFTokenID {
    type Value = crate::types::uint::Hash256;

    open spec fn spec_code() -> i32 {
        327690
    }

    fn code(&self) -> (r: i32) {
        327690
    }
}

/// The `AMMID` field (type code 5, index 14).
#[derive(Debug, Clone, Copy, PartialEq, Eq, Structural)]
pub struct AMMID;

impl SField for AMMID {
    type Value = crate::types::uint::Hash256;

    open spec fn spec_code() -> i32 {
        327694
    }

    fn code(&self) -> (r: i32) {
        327694
    }
}

/// The `BookDirectory` field (type code 5, index 16).
#[derive(Debug, Clone, Copy, PartialEq, Eq, Structural)]
pub struct BookDirectory;

impl SField for BookDirectory {
    type Value = crate::types::uint::Hash256;

    open spec fn spec_code() -> i32 {
        327696
    }

    fn code(&self) -> (r: i32) {
        327696
    }
}

/// The `InvoiceID` field (type code 5, index 17).
#[derive(Debug, Clone, Copy, PartialEq, Eq, Structural)]
pub struct InvoiceID;

impl SField for InvoiceID {
    type Value = crate::types::uint::Hash256;

    open spec fn spec_code() -> i32 {
        327697
    }

    fn code(&self) -> (r: i32) {
        327697
    }
}

/// The `PreviousPageMin` field (type code 5, index 26).
#[derive(Debug, Clone, Copy, PartialEq, Eq, Structural)]
pub struct PreviousPageMin;

impl SField for PreviousPageMin {
    type Value = crate::types::uint::Hash256;

    open spec fn spec_code() -> i32 {
        327706
    }

    fn code(&self) -> (r: i32) {
        327706
    }
}

/// The `NextPageMin` field (type code 5, index 27).
#[derive(Debug, Clone, Copy, PartialEq, Eq, Structural)]
pub struct NextPageMin;

impl SField for NextPageMin {
    type Value = crate::types::uint::Hash256;

    open spec fn spec_code() -> i32 {
        327707
    }

    fn code(&self) -> (r: i32) {
        327707
    }
}

/// The `DomainID` field (type code 5, index 34).
#[derive(Debug, Clone, Copy, PartialEq, Eq, Structural)]
pub struct DomainID;

impl SField for DomainID {
    type Value = crate::types::uint::Hash256;

    open spec fn spec_code() -> i32 {
        327714
    }

    fn code(&self) -> (r: i32) {
        327714
    }
}

/// The `VaultID` field (type code 5, index 35).
#[derive(Debug, Clone, Copy, PartialEq, Eq, Structural)]
pub struct VaultID;

impl SField for VaultID {
    type Value = crate::types::uint::Hash256;

    open spec fn spec_code() -> i32 {
        327715
    }

    fn code(&self) -> (r: i32) {
        327715
    }
}

/// The `LoanBrokerID` field (type code 5, index 37).
#[derive(Debug, Clone, Copy, PartialEq, Eq, Structural)]
pub struct LoanBrokerID;

impl SField for LoanBrokerID {
    type Value = crate::types::uint::Hash256;

    open spec fn spec_code() -> i32 {
        327717
    }

    fn code(&self) -> (r: i32) {
        327717
    }
}

/// The `ContractHash` field (type code 5, index 39).
#[derive(Debug, Clone, Copy, PartialEq, Eq, Structural)]
pub struct ContractHash;

impl SField for ContractHash {
    type Value = crate::types::uint::Hash256;

    open spec fn spec_code() -> i32 {
        327719
    }

    fn code(&self) -> (r: i32) {
        327719
    }
}

/// The `ContractID` field (type code 5, index 40).
#[derive(Debug, Clone, Copy, PartialEq, Eq, Structural)]
pub struct ContractID;

impl SField for ContractID {
    type Value = crate::types::uint::Hash256;

    open spec fn spec_code() -> i32 {
        327720
    }

    fn code(&self) -> (r: i32) {
        327720
    }
}

/// The `Amount` field (type code 6, index 1).
#[derive(Debug, Clone, Copy, PartialEq, Eq, Structural)]
pub struct Amount;

impl SField for Amount {
    type Value = crate::types::amount::Amount;

    open spec fn spec_code() -> i32 {
        393217
    }

    fn code(&self) -> (r: i32) {
        393217
    }
}

/// The `Balance` field (type code 6, index 2).
#[derive(Debug, Clone, Copy, PartialEq, Eq, Structural)]
pub struct Balance;

impl SField for Balance {
    type Value = crate::types::amount::Amount;

    open spec fn spec_code() -> i32 {
        393218
    }

    fn code(&self) -> (r: i32) {
        393218
    }
}

/// The `TakerPays` field (type code 6, index 4).
#[derive(Debug, Clone, Copy, PartialEq, Eq, Structural)]
pub struct TakerPays;

impl SField for TakerPays {
    type Value = crate::types::amount::Amount;

    open spec fn spec_code() -> i32 {
        393220
    }

    fn code(&self) -> (r: i32) {
        393220
    }
}

/// The `TakerGets` field (type code 6, index 5).
#[derive(Debug, Clone, Copy, PartialEq, Eq, Structural)]
pub struct TakerGets;

impl SField for TakerGets {
    type Value = crate::types::amount::Amount;

    open spec fn spec_code() -> i32 {
        393221
    }

    fn code(&self) -> (r: i32) {
        393221
    }
}

/// The `LowLimit` field (type code 6, index 6).
#[derive(Debug, Clone, Copy, PartialEq, Eq, Structural)]
pub struct LowLimit;

impl SField for LowLimit {
    type Value = crate::types::amount::Amount;

    open spec fn spec_code() -> i32 {
        393222
    }

    fn code(&self) -> (r: i32) {
        393222
    }
}

/// The `HighLimit` field (type code 6, index 7).
#[derive(Debug, Clone, Copy, PartialEq, Eq, Structural)]
pub struct HighLimit;

impl SField for HighLimit {
    type Value = crate::types::amount::Amount;

    open spec fn spec_code() -> i32 {
        393223
    }

    fn code(&self) -> (r: i32) {
        393223
    }
}

/// The `Fee` field (type code 6, index 8).
#[derive(Debug, Clone, Copy, PartialEq, Eq, Structural)]
pub struct Fee;

impl SField for Fee {
    type Value = crate::types::amount::Amount;

    open spec fn spec_code() -> i32 {
        393224
    }

    fn code(&self) -> (r: i32) {
        393224
    }
}

/// The `SendMax` field (type code 6, index 9).
#[derive(Debug, Clone, Copy, PartialEq, Eq, Structural)]
pub struct SendMax;

impl SField for SendMax {
    type Value = crate::types::amount::Amount;

    open spec fn spec_code() -> i32 {
        393225
    }

    fn code(&self) -> (r: i32) {
        393225
    }
}

/// The `BaseFeeDrops` field (type code 6, index 22).
#[derive(Debug, Clone, Copy, PartialEq, Eq, Structural)]
pub struct BaseFeeDrops;

impl SField for BaseFeeDrops {
    type Value = crate::types::amount::Amount;

    open spec fn spec_code() -> i32 {
        393238
    }

    fn code(&self) -> (r: i32) {
        393238
    }
}

/// The `ReserveBaseDrops` field (type code 6, index 23).
#[derive(Debug, Clone, Copy, PartialEq, Eq, Structural)]
pub struct ReserveBaseDrops;

impl SField for ReserveBaseDrops {
    type Value = crate::types::amount::Amount;

    open spec fn spec_code() -> i32 {
        393239
    }

    fn code(&self) -> (r: i32) {
        393239
    }
}

/// The `ReserveIncrementDrops` field (type code 6, index 24).
#[derive(Debug, Clone, Copy, PartialEq, Eq, Structural)]
pub struct ReserveIncrementDrops;

impl SField for ReserveIncrementDrops {
    type Value = crate::types::amount::Amount;

    open spec fn spec_code() -> i32 {
        393240
    }

    fn code(&self) -> (r: i32) {
        393240
    }
}

/// The `SignatureReward` field (type code 6, index 29).
#[derive(Debug, Clone, Copy, PartialEq, Eq, Structural)]
pub struct SignatureReward;

impl SField for SignatureReward {
    type Value = crate::types::amount::Amount;

    open spec fn spec_code() -> i32 {
        393245
    }

    fn code(&self) -> (r: i32) {
        393245
    }
}

/// The `MinAccountCreateAmount` field (type code 6, index 30).
#[derive(Debug, Clone, Copy, PartialEq, Eq, Structural)]
pub struct MinAccountCreateAmount;

impl SField for MinAccountCreateAmount {
    type Value = crate::types::amount::Amount;

    open spec fn spec_code() -> i32 {
        393246
    }

    fn code(&self) -> (r: i32) {
        393246
    }
}

/// The `LPTokenBalance` field (type code 6, index 31).
#[derive(Debug, Clone, Copy, PartialEq, Eq, Structural)]
pub struct LPTokenBalance;

impl SField for LPTokenBalance {
    type Value = crate::types::amount::Amount;

    open spec fn spec_code() -> i32 {
        393247
    }

    fn code(&self) -> (r: i32) {
        393247
    }
}

/// The `PublicKey` field (type code 7, index 1).
#[derive(Debug, Clone, Copy, PartialEq, Eq, Structural)]
pub struct PublicKey;

impl SField for PublicKey {
    type Value = crate::types::blob::PublicKeyBlob;

    open spec fn spec_code() -> i32 {
        458753
    }

    fn code(&self) -> (r: i32) {
        458753
    }
}

/// The `MessageKey` field (type code 7, index 2).
#[derive(Debug, Clone, Copy, PartialEq, Eq, Structural)]
pub struct MessageKey;

impl SField for MessageKey {
    type Value = crate::types::blob::PublicKeyBlob;

    open spec fn spec_code() -> i32 {
        458754
    }

    fn code(&self) -> (r: i32) {
        458754
    }
}

/// The `SigningPubKey` field (type code 7, index 3).
#[derive(Debug, Clone, Copy, PartialEq, Eq, Structural)]
pub struct SigningPubKey;

impl SField for SigningPubKey {
    type Value = crate::types::blob::PublicKeyBlob;

    open spec fn spec_code() -> i32 {
        458755
    }

    fn code(&self) -> (r: i32) {
        458755
    }
}

/// The `TxnSignature` field (type code 7, index 4).
#[derive(Debug, Clone, Copy, PartialEq, Eq, Structural)]
pub struct TxnSignature;

impl SField for TxnSignature {
    type Value = crate::types::blob::SignatureBlob;

    open spec fn spec_code() -> i32 {
        458756
    }

    fn code(&self) -> (r: i32) {
        458756
    }
}

/// The `URI` field (type code 7, index 5).
#[derive(Debug, Clone, Copy, PartialEq, Eq, Structural)]
pub struct URI;

impl SField for URI {
    type Value = crate::types::blob::UriBlob;

    open spec fn spec_code() -> i32 {
        458757
    }

    fn code(&self) -> (r: i32) {
        458757
    }
}

/// The `Domain` field (type code 7, index 7).
#[derive(Debug, Clone, Copy, PartialEq, Eq, Structural)]
pub struct Domain;

impl SField for Domain {
    type Value = crate::types::blob::UriBlob;

    open spec fn spec_code() -> i32 {
        458759
    }

    fn code(&self) -> (r: i32) {
        458759
    }
}

/// The `MemoType` field (type code 7, index 12).
#[derive(Debug, Clone, Copy, PartialEq, Eq, Structural)]
pub struct MemoType;

impl SField for MemoType {
    type Value = crate::types::blob::StandardBlob;

    open spec fn spec_code() -> i32 {
        458764
    }

    fn code(&self) -> (r: i32) {
        458764
    }
}

/// The `MemoData` field (type code 7, index 13).
#[derive(Debug, Clone, Copy, PartialEq, Eq, Structural)]
pub struct MemoData;

impl SField for MemoData {
    type Value = crate::types::blob::StandardBlob;

    open spec fn spec_code() -> i32 {
        458765
    }

    fn code(&self) -> (r: i32) {
        458765
    }
}

/// The `Condition` field (type code 7, index 17).
#[derive(Debug, Clone, Copy, PartialEq, Eq, Structural)]
pub struct Condition;

impl SField for Condition {
    type Value = crate::types::blob::ConditionBlob;

    open spec fn spec_code() -> i32 {
        458769
    }

    fn code(&self) -> (r: i32) {
        458769
    }
}

/// The `ValidatorToDisable` field (type code 7, index 20).
#[derive(Debug, Clone, Copy, PartialEq, Eq, Structural)]
pub struct ValidatorToDisable;

impl SField for ValidatorToDisable {
    type Value = crate::types::blob::StandardBlob;

    open spec fn spec_code() -> i32 {
        458772
    }

    fn code(&self) -> (r: i32) {
        458772
    }
}

/// The `ValidatorToReEnable` field (type code 7, index 21).
#[derive(Debug, Clone, Copy, PartialEq, Eq, Structural)]
pub struct ValidatorToReEnable;

impl SField for ValidatorToReEnable {
    type Value = crate::types::blob::StandardBlob;

    open spec fn spec_code() -> i32 {
        458773
    }

    fn code(&self) -> (r: i32) {
        458773
    }
}

/// The `DIDDocument` field (type code 7, index 26).
#[derive(Debug, Clone, Copy, PartialEq, Eq, Structural)]
pub struct DIDDocument;

impl SField for DIDDocument {
    type Value = crate::types::blob::StandardBlob;

    open spec fn spec_code() -> i32 {
        458778
    }

    fn code(&self) -> (r: i32) {
        458778
    }
}

/// The `Data` field (type code 7, index 27).
#[derive(Debug, Clone, Copy, PartialEq, Eq, Structural)]
pub struct Data;

impl SField for Data {
    type Value = crate::types::blob::StandardBlob;

    open spec fn spec_code() -> i32 {
        458779
    }

    fn code(&self) -> (r: i32) {
        458779
    }
}

/// The `AssetClass` field (type code 7, index 28).
#[derive(Debug, Clone, Copy, PartialEq, Eq, Structural)]
pub struct AssetClass;

impl SField for AssetClass {
    type Value = crate::types::blob::StandardBlob;

    open spec fn spec_code() -> i32 {
        458780
    }

    fn code(&self) -> (r: i32) {
        458780
    }
}

/// The `Provider` field (type code 7, index 29).
#[derive(Debug, Clone, Copy, PartialEq, Eq, Structural)]
pub struct Provider;

impl SField for Provider {
    type Value = crate::types::blob::StandardBlob;

    open spec fn spec_code() -> i32 {
        458781
    }

    fn code(&self) -> (r: i32) {
        458781
    }
}

/// The `MPTokenMetadata` field (type code 7, index 30).
#[derive(Debug, Clone, Copy, PartialEq, Eq, Structural)]
pub struct MPTokenMetadata;

impl SField for MPTokenMetadata {
    type Value = crate::types::blob::StandardBlob;

    open spec fn spec_code() -> i32 {
        458782
    }

    fn code(&self) -> (r: i32) {
        458782
    }
}

/// The `CredentialType` field (type code 7, index 31).
#[derive(Debug, Clone, Copy, PartialEq, Eq, Structural)]
pub struct CredentialType;

impl SField for CredentialType {
    type Value = crate::types::blob::StandardBlob;

    open spec fn spec_code() -> i32 {
        458783
    }

    fn code(&self) -> (r: i32) {
        458783
    }
}

/// The `FinishFunction` field (type code 7, index 32).
#[derive(Debug, Clone, Copy, PartialEq, Eq, Structural)]
pub struct FinishFunction;

impl SField for FinishFunction {
    type Value = crate::types::blob::WasmBlob;

    open spec fn spec_code() -> i32 {
        458784
    }

    fn code(&self) -> (r: i32) {
        458784
    }
}

/// The `ContractCode` field (type code 7, index 33).
#[derive(Debug, Clone, Copy, PartialEq, Eq, Structural)]
pub struct ContractCode;

impl SField for ContractCode {
    type Value = crate::types::blob::StandardBlob;

    open spec fn spec_code() -> i32 {
        458785
    }

    fn code(&self) -> (r: i32) {
        458785
    }
}

/// The `Bytecode` field (type code 7, index 34).
#[derive(Debug, Clone, Copy, PartialEq, Eq, Structural)]
pub struct Bytecode;

impl SField for Bytecode {
    type Value = crate::types::blob::WasmBlob;

    open spec fn spec_code() -> i32 {
        458786
    }

    fn code(&self) -> (r: i32) {
        458786
    }
}

/// The `HolderEncryptionKey` field (type code 7, index 35).
#[derive(Debug, Clone, Copy, PartialEq, Eq, Structural)]
pub struct HolderEncryptionKey;

impl SField for HolderEncryptionKey {
    type Value = crate::types::blob::StandardBlob;

    open spec fn spec_code() -> i32 {
        458787
    }

    fn code(&self) -> (r: i32) {
        458787
    }
}

/// The `IssuerEncryptedBalance` field (type code 7, index 36).
#[derive(Debug, Clone, Copy, PartialEq, Eq, Structural)]
pub struct IssuerEncryptedBalance;

impl SField for IssuerEncryptedBalance {
    type Value = crate::types::blob::StandardBlob;

    open spec fn spec_code() -> i32 {
        458788
    }

    fn code(&self) -> (r: i32) {
        458788
    }
}

/// The `AuditorEncryptedBalance` field (type code 7, index 37).
#[derive(Debug, Clone, Copy, PartialEq, Eq, Structural)]
pub struct AuditorEncryptedBalance;

impl SField for AuditorEncryptedBalance {
    type Value = crate::types::blob::StandardBlob;

    open spec fn spec_code() -> i32 {
        458789
    }

    fn code(&self) -> (r: i32) {
        458789
    }
}

/// The `ConfidentialBalanceInbox` field (type code 7, index 38).
#[derive(Debug, Clone, Copy, PartialEq, Eq, Structural)]
pub struct ConfidentialBalanceInbox;

impl SField for ConfidentialBalanceInbox {
    type Value = crate::types::blob::StandardBlob;

    open spec fn spec_code() -> i32 {
        458790
    }

    fn code(&self) -> (r: i32) {
        458790
    }
}

/// The `ConfidentialBalanceSpending` field (type code 7, index 39).
#[derive(Debug, Clone, Copy, PartialEq, Eq, Structural)]
pub struct ConfidentialBalanceSpending;

impl SField for ConfidentialBalanceSpending {
    type Value = crate::types::blob::StandardBlob;

    open spec fn spec_code() -> i32 {
        458791
    }

    fn code(&self) -> (r: i32) {
        458791
    }
}

/// The `Account` field (type code 8, index 1).
#[derive(Debug, Clone, Copy, PartialEq, Eq, Structural)]
pub struct Account;

impl SField for Account {
    type Value = crate::types::account_id::AccountID;

    open spec fn spec_code() -> i32 {
        524289
    }

    fn code(&self) -> (r: i32) {
        524289
    }
}

/// The `Owner` field (type code 8, index 2).
#[derive(Debug, Clone, Copy, PartialEq, Eq, Structural)]
pub struct Owner;

impl SField for Owner {
    type Value = crate::types::account_id::AccountID;

    open spec fn spec_code() -> i32 {
        524290
    }

    fn code(&self) -> (r: i32) {
        524290
    }
}

/// The `Destination` field (type code 8, index 3).
#[derive(Debug, Clone, Copy, PartialEq, Eq, Structural)]
pub struct Destination;

impl SField for Destination {
    type Value = crate::types::account_id::AccountID;

    open spec fn spec_code() -> i32 {
        524291
    }

    fn code(&self) -> (r: i32) {
        524291
    }
}

/// The `Issuer` field (type code 8, index 4).
#[derive(Debug, Clone, Copy, PartialEq, Eq, Structural)]
pub struct Issuer;

impl SField for Issuer {
    type Value = crate::types::account_id::AccountID;

    open spec fn spec_code() -> i32 {
        524292
    }

    fn code(&self) -> (r: i32) {
        524292
    }
}

/// The `Authorize` field (type code 8, index 5).
#[derive(Debug, Clone, Copy, PartialEq, Eq, Structural)]
pub struct Authorize;

impl SField for Authorize {
    type Value = crate::types::account_id::AccountID;

    open spec fn spec_code() -> i32 {
        524293
    }

    fn code(&self) -> (r: i32) {
        524293
    }
}

/// The `RegularKey` field (type code 8, index 8).
#[derive(Debug, Clone, Copy, PartialEq, Eq, Structural)]
pub struct RegularKey;

impl SField for RegularKey {
    type Value = crate::types::account_id::AccountID;

    open spec fn spec_code() -> i32 {
        524296
    }

    fn code(&self) -> (r: i32) {
        524296
    }
}

/// The `NFTokenMinter` field (type code 8, index 9).
#[derive(Debug, Clone, Copy, PartialEq, Eq, Structural)]
pub struct NFTokenMinter;

impl SField for NFTokenMinter {
    type Value = crate::types::account_id::AccountID;

    open spec fn spec_code() -> i32 {
        524297
    }

    fn code(&self) -> (r: i32) {
        524297
    }
}

/// The `OtherChainSource` field (type code 8, index 18).
#[derive(Debug, Clone, Copy, PartialEq, Eq, Structural)]
pub struct OtherChainSource;

impl SField for OtherChainSource {
    type Value = crate::types::account_id::AccountID;

    open spec fn spec_code() -> i32 {
        524306
    }

    fn code(&self) -> (r: i32) {
        524306
    }
}

/// The `Subject` field (type code 8, index 24).
#[derive(Debug, Clone, Copy, PartialEq, Eq, Structural)]
pub struct Subject;

impl SField for Subject {
    type Value = crate::types::account_id::AccountID;

    open spec fn spec_code() -> i32 {
        524312
    }

    fn code(&self) -> (r: i32) {
        524312
    }
}

/// The `Borrower` field (type code 8, index 25).
#[derive(Debug, Clone, Copy, PartialEq, Eq, Structural)]
pub struct Borrower;

impl SField for Borrower {
    type Value = crate::types::account_id::AccountID;

    open spec fn spec_code() -> i32 {
        524313
    }

    fn code(&self) -> (r: i32) {
        524313
    }
}

/// The `ContractAccount` field (type code 8, index 26).
#[derive(Debug, Clone, Copy, PartialEq, Eq, Structural)]
pub struct ContractAccount;

impl SField for ContractAccount {
    type Value = crate::types::account_id::AccountID;

    open spec fn spec_code() -> i32 {
        524314
    }

    fn code(&self) -> (r: i32) {
        524314
    }
}

/// The `DebtTotal` field (type code 9, index 6).
#[derive(Debug, Clone, Copy, PartialEq, Eq, Structural)]
pub struct DebtTotal;

impl SField for DebtTotal {
    type Value = [u8; 512];

    open spec fn spec_code() -> i32 {
        589830
    }

    fn code(&self) -> (r: i32) {
        589830
    }
}

/// The `DebtMaximum` field (type code 9, index 7).
#[derive(Debug, Clone, Copy, PartialEq, Eq, Structural)]
pub struct DebtMaximum;

impl SField for DebtMaximum {
    type Value = [u8; 512];

    open spec fn spec_code() -> i32 {
        589831
    }

    fn code(&self) -> (r: i32) {
        589831
    }
}

/// The `CoverAvailable` field (type code 9, index 8).
#[derive(Debug, Clone, Copy, PartialEq, Eq, Structural)]
pub struct CoverAvailable;

impl SField for CoverAvailable {
    type Value = [u8; 512];

    open spec fn spec_code() -> i32 {
        589832
    }

    fn code(&self) -> (r: i32) {
        589832
    }
}

/// The `LoanOriginationFee` field (type code 9, index 9).
#[derive(Debug, Clone, Copy, PartialEq, Eq, Structural)]
pub struct LoanOriginationFee;

impl SField for LoanOriginationFee {
    type Value = [u8; 512];

    open spec fn spec_code() -> i32 {
        589833
    }

    fn code(&self) -> (r: i32) {
        589833
    }
}

/// The `LoanServiceFee` field (type code 9, index 10).
#[derive(Debug, Clone, Copy, PartialEq, Eq, Structural)]
pub struct LoanServiceFee;

impl SField for LoanServiceFee {
    type Value = [u8; 512];

    open spec fn spec_code() -> i32 {
        589834
    }

    fn code(&self) -> (r: i32) {
        589834
    }
}

/// The `LatePaymentFee` field (type code 9, index 11).
#[derive(Debug, Clone, Copy, PartialEq, Eq, Structural)]
pub struct LatePaymentFee;

impl SField for LatePaymentFee {
    type Value = [u8; 512];

    open spec fn spec_code() -> i32 {
        589835
    }

    fn code(&self) -> (r: i32) {
        589835
    }
}

/// The `ClosePaymentFee` field (type code 9, index 12).
#[derive(Debug, Clone, Copy, PartialEq, Eq, Structural)]
pub struct ClosePaymentFee;

impl SField for ClosePaymentFee {
    type Value = [u8; 512];

    open spec fn spec_code() -> i32 {
        589836
    }

    fn code(&self) -> (r: i32) {
        589836
    }
}

/// The `PrincipalOutstanding` field (type code 9, index 13).
#[derive(Debug, Clone, Copy, PartialEq, Eq, Structural)]
pub struct PrincipalOutstanding;

impl SField for PrincipalOutstanding {
    type Value = [u8; 512];

    open spec fn spec_code() -> i32 {
        589837
    }

    fn code(&self) -> (r: i32) {
        589837
    }
}

/// The `PeriodicPayment` field (type code 9, index 14).
#[derive(Debug, Clone, Copy, PartialEq, Eq, Structural)]
pub struct PeriodicPayment;

impl SField for PeriodicPayment {
    type Value = [u8; 512];

    open spec fn spec_code() -> i32 {
        589838
    }

    fn code(&self) -> (r: i32) {
        589838
    }
}

/// The `TotalValueOutstanding` field (type code 9, index 15).
#[derive(Debug, Clone, Copy, PartialEq, Eq, Structural)]
pub struct TotalValueOutstanding;

impl SField for TotalValueOutstanding {
    type Value = [u8; 512];

    open spec fn spec_code() -> i32 {
        589839
    }

    fn code(&self) -> (r: i32) {
        589839
    }
}

/// The `ManagementFeeOutstanding` field (type code 9, index 16).
#[derive(Debug, Clone, Copy, PartialEq, Eq, Structural)]
pub struct ManagementFeeOutstanding;

impl SField for ManagementFeeOutstanding {
    type Value = [u8; 512];

    open spec fn spec_code() -> i32 {
        589840
    }

    fn code(&self) -> (r: i32) {
        589840
    }
}

/// The `LoanScale` field (type code 10, index 1).
#[derive(Debug, Clone, Copy, PartialEq, Eq, Structural)]
pub struct LoanScale;

impl SField for LoanScale {
    type Value = [u8; 512];

    open spec fn spec_code() -> i32 {
        655361
    }

    fn code(&self) -> (r: i32) {
        655361
    }
}

/// The `Indexes` field (type code 19, index 1).
#[derive(Debug, Clone, Copy, PartialEq, Eq, Structural)]
pub struct Indexes;

impl SField for Indexes {
    type Value = [u8; 512];

    open spec fn spec_code() -> i32 {
        1245185
    }

    fn code(&self) -> (r: i32) {
        1245185
    }
}

/// The `Hashes` field (type code 19, index 2).
#[derive(Debug, Clone, Copy, PartialEq, Eq, Structural)]
pub struct Hashes;

impl SField for Hashes {
    type Value = [u8; 512];

    open spec fn spec_code() -> i32 {
        1245186
    }

    fn code(&self) -> (r: i32) {
        1245186
    }
}

/// The `Amendments` field (type code 19, index 3).
#[derive(Debug, Clone, Copy, PartialEq, Eq, Structural)]
pub struct Amendments;

impl SField for Amendments {
    type Value = [u8; 512];

    open spec fn spec_code() -> i32 {
        1245187
    }

    fn code(&self) -> (r: i32) {
        1245187
    }
}

/// The `XChainBridge` field (type code 25, index 1).
#[derive(Debug, Clone, Copy, PartialEq, Eq, Structural)]
pub struct XChainBridge;

impl SField for XChainBridge {
    type Value = [u8; 512];

    open spec fn spec_code() -> i32 {
        1638401
    }

    fn code(&self) -> (r: i32) {
        1638401
    }
}

/// The `ContractJson` field (type code 27, index 1).
#[derive(Debug, Clone, Copy, PartialEq, Eq, Structural)]
pub struct ContractJson;

impl SField for ContractJson {
    type Value = [u8; 512];

    open spec fn spec_code() -> i32 {
        1769473
    }

    fn code(&self) -> (r: i32) {
        1769473
    }
}

/// The `Asset` field (type code 24, index 3).
#[derive(Debug, Clone, Copy, PartialEq, Eq, Structural)]
pub struct Asset;

impl SField for Asset {
    type Value = crate::types::issue::Issue;

    open spec fn spec_code() -> i32 {
        1572867
    }

    fn code(&self) -> (r: i32) {
        1572867
    }
}

/// The `Asset2` field (type code 24, index 4).
#[derive(Debug, Clone, Copy, PartialEq, Eq, Structural)]
pub struct Asset2;

impl SField for Asset2 {
    type Value = crate::types::issue::Issue;

    open spec fn spec_code() -> i32 {
        1572868
    }

    fn code(&self) -> (r: i32) {
        1572868
    }
}

/// The `Memo` field (type code 14, index 10).
#[derive(Debug, Clone, Copy, PartialEq, Eq, Structural)]
pub struct Memo;

impl SField for Memo {
    type Value = crate::objects::array_object::Object;

    open spec fn spec_code() -> i32 {
        917514
    }

    fn code(&self) -> (r: i32) {
        917514
    }
}

/// The `AuctionSlot` field (type code 14, index 27).
#[derive(Debug, Clone, Copy, PartialEq, Eq, Structural)]
pub struct AuctionSlot;

impl SField for AuctionSlot {
    type Value = crate::objects::array_object::Object;

    open spec fn spec_code() -> i32 {
        917531
    }

    fn code(&self) -> (r: i32) {
        917531
    }
}

/// The `SignerEntries` field (type code 15, index 4).
#[derive(Debug, Clone, Copy, PartialEq, Eq, Structural)]
pub struct SignerEntries;

impl SField for SignerEntries {
    type Value = crate::objects::array_object::Array;

    open spec fn spec_code() -> i32 {
        983044
    }

    fn code(&self) -> (r: i32) {
        983044
    }
}

/// The `Memos` field (type code 15, index 9).
#[derive(Debug, Clone, Copy, PartialEq, Eq, Structural)]
pub struct Memos;

impl SField for Memos {
    type Value = crate::objects::array_object::Array;

    open spec fn spec_code() -> i32 {
        983049
    }

    fn code(&self) -> (r: i32) {
        983049
    }
}

/// The `NFTokens` field (type code 15, index 10).
#[derive(Debug, Clone, Copy, PartialEq, Eq, Structural)]
pub struct NFTokens;

impl SField for NFTokens {
    type Value = crate::objects::array_object::Array;

    open spec fn spec_code() -> i32 {
        983050
    }

    fn code(&self) -> (r: i32) {
        983050
    }
}

/// The `VoteSlots` field (type code 15, index 12).
#[derive(Debug, Clone, Copy, PartialEq, Eq, Structural)]
pub struct VoteSlots;

impl SField for VoteSlots {
    type Value = crate::objects::array_object::Array;

    open spec fn spec_code() -> i32 {
        983052
    }

    fn code(&self) -> (r: i32) {
        983052
    }
}

/// The `Majorities` field (type code 15, index 16).
#[derive(Debug, Clone, Copy, PartialEq, Eq, Structural)]
pub struct Majorities;

impl SField for Majorities {
    type Value = crate::objects::array_object::Array;

    open spec fn spec_code() -> i32 {
        983056
    }

    fn code(&self) -> (r: i32) {
        983056
    }
}

/// The `DisabledValidators` field (type code 15, index 17).
#[derive(Debug, Clone, Copy, PartialEq, Eq, Structural)]
pub struct DisabledValidators;

impl SField for DisabledValidators {
    type Value = crate::objects::array_object::Array;

    open spec fn spec_code() -> i32 {
        983057
    }

    fn code(&self) -> (r: i32) {
        983057
    }
}

/// The `XChainClaimAttestations` field (type code 15, index 21).
#[derive(Debug, Clone, Copy, PartialEq, Eq, Structural)]
pub struct XChainClaimAttestations;

impl SField for XChainClaimAttestations {
    type Value = crate::objects::array_object::Array;

    open spec fn spec_code() -> i32 {
        983061
    }

    fn code(&self) -> (r: i32) {
        983061
    }
}

/// The `XChainCreateAccountAttestations` field (type code 15, index 22).
#[derive(Debug, Clone, Copy, PartialEq, Eq, Structural)]
pub struct XChainCreateAccountAttestations;

impl SField for XChainCreateAccountAttestations {
    type Value = crate::objects::array_object::Array;

    open spec fn spec_code() -> i32 {
        983062
    }

    fn code(&self) -> (r: i32) {
        983062
    }
}

/// The `PriceDataSeries` field (type code 15, index 24).
#[derive(Debug, Clone, Copy, PartialEq, Eq, Structural)]
pub struct PriceDataSeries;

impl SField for PriceDataSeries {
    type Value = crate::objects::array_object::Array;

    open spec fn spec_code() -> i32 {
        983064
    }

    fn code(&self) -> (r: i32) {
        983064
    }
}

/// The `AuthorizeCredentials` field (type code 15, index 26).
#[derive(Debug, Clone, Copy, PartialEq, Eq, Structural)]
pub struct AuthorizeCredentials;

impl SField for AuthorizeCredentials {
    type Value = crate::objects::array_object::Array;

    open spec fn spec_code() -> i32 {
        983066
    }

    fn code(&self) -> (r: i32) {
        983066
    }
}

/// The `AcceptedCredentials` field (type code 15, index 28).
#[derive(Debug, Clone, Copy, PartialEq, Eq, Structural)]
pub struct AcceptedCredentials;

impl SField for AcceptedCredentials {
    type Value = crate::objects::array_object::Array;

    open spec fn spec_code() -> i32 {
        983068
    }

    fn code(&self) -> (r: i32) {
        983068
    }
}

/// The `Permissions` field (type code 15, index 29).
#[derive(Debug, Clone, Copy, PartialEq, Eq, Structural)]
pub struct Permissions;

impl SField for Permissions {
    type Value = crate::objects::array_object::Array;

    open spec fn spec_code() -> i32 {
        983069
    }

    fn code(&self) -> (r: i32) {
        983069
    }
}

/// The `AdditionalBooks` field (type code 15, index 32).
#[derive(Debug, Clone, Copy, PartialEq, Eq, Structural)]
pub struct AdditionalBooks;

impl SField for AdditionalBooks {
    type Value = crate::objects::array_object::Array;

    open spec fn spec_code() -> i32 {
        983072
    }

    fn code(&self) -> (r: i32) {
        983072
    }
}

/// The `Functions` field (type code 15, index 33).
#[derive(Debug, Clone, Copy, PartialEq, Eq, Structural)]
pub struct Functions;

impl SField for Functions {
    type Value = crate::objects::array_object::Array;

    open spec fn spec_code() -> i32 {
        983073
    }

    fn code(&self) -> (r: i32) {
        983073
    }
}

/// The `InstanceParameters` field (type code 15, index 34).
#[derive(Debug, Clone, Copy, PartialEq, Eq, Structural)]
pub struct InstanceParameters;

impl SField for InstanceParameters {
    type Value = crate::objects::array_object::Array;

    open spec fn spec_code() -> i32 {
        983074
    }

    fn code(&self) -> (r: i32) {
        983074
    }
}

/// The `InstanceParameterValues` field (type code 15, index 35).
#[derive(Debug, Clone, Copy, PartialEq, Eq, Structural)]
pub struct InstanceParameterValues;

impl SField for InstanceParameterValues {
    type Value = crate::objects::array_object::Array;

    open spec fn spec_code() -> i32 {
        983075
    }

    fn code(&self) -> (r: i32) {
        983075
    }
}

} // verus!
