//! The `Loan` ledger object: typed accessors for its fields.

use vstd::prelude::*;
use crate::host::calls::Host;
use crate::fields::{current_ledger_obj, ledger_obj};
use crate::host::{Error, HostBindings};
use crate::objects::traits::{CurrentLedgerObjectCommonFields, LedgerObjectCommonFields};
use crate::sfield;
use crate::sfield::SField;
use crate::types::account_id::AccountID;
use crate::types::uint::Hash256;

verus! {

/// Trait providing access to fields specific to Loan objects in any ledger.
pub trait LoanFields: LedgerObjectCommonFields {
    /// Identifies the transaction ID that most recently modified this object.
    fn previous_txn_id<H: HostBindings>(&self, host: &mut Host<H>) -> (r: Result<Hash256, Error>)
        ensures
            ledger_obj::slot_read::<H, Hash256, 32>(
                *old(host),
                *final(host),
                self.spec_slot_num(),
                sfield::PreviousTxnID::spec_code(),
                r,
            ),
    {
        ledger_obj::get_field(host, self.get_slot_num(), sfield::PreviousTxnID)
    }

    /// The sequence of the ledger that contains the transaction that most recently modified this
    /// object.
    fn previous_txn_lgr_seq<H: HostBindings>(&self, host: &mut Host<H>) -> (r: Result<u32, Error>)
        ensures
            ledger_obj::slot_read::<H, u32, 4>(
                *old(host),
                *final(host),
                self.spec_slot_num(),
                sfield::PreviousTxnLgrSeq::spec_code(),
                r,
            ),
    {
        ledger_obj::get_field(host, self.get_slot_num(), sfield::PreviousTxnLgrSeq)
    }

    /// Identifies the page where this item is referenced in the owner's directory.
    fn owner_node<H: HostBindings>(&self, host: &mut Host<H>) -> (r: Result<u64, Error>)
        ensures
            ledger_obj::slot_read::<H, u64, 8>(
                *old(host),
                *final(host),
                self.spec_slot_num(),
                sfield::OwnerNode::spec_code(),
                r,
            ),
    {
        ledger_obj::get_field(host, self.get_slot_num(), sfield::OwnerNode)
    }

    /// Identifies the page where this item is referenced in the `LoanBroker` owner directory.
    fn loan_broker_node<H: HostBindings>(&self, host: &mut Host<H>) -> (r: Result<u64, Error>)
        ensures
            ledger_obj::slot_read::<H, u64, 8>(
                *old(host),
                *final(host),
                self.spec_slot_num(),
                sfield::LoanBrokerNode::spec_code(),
                r,
            ),
    {
        ledger_obj::get_field(host, self.get_slot_num(), sfield::LoanBrokerNode)
    }

    /// The ID of the _Loan Broker_ associated with this loan.
    fn loan_broker_id<H: HostBindings>(&self, host: &mut Host<H>) -> (r: Result<Hash256, Error>)
        ensures
            ledger_obj::slot_read::<H, Hash256, 32>(
                *old(host),
                *final(host),
                self.spec_slot_num(),
                sfield::LoanBrokerID::spec_code(),
                r,
            ),
    {
        ledger_obj::get_field(host, self.get_slot_num(), sfield::LoanBrokerID)
    }

    /// The sequence number of the loan.
    fn loan_sequence<H: HostBindings>(&self, host: &mut Host<H>) -> (r: Result<u32, Error>)
        ensures
            ledger_obj::slot_read::<H, u32, 4>(
                *old(host),
                *final(host),
                self.spec_slot_num(),
                sfield::LoanSequence::spec_code(),
                r,
            ),
    {
        ledger_obj::get_field(host, self.get_slot_num(), sfield::LoanSequence)
    }

    /// The account address of the _Borrower_.
    fn borrower<H: HostBindings>(&self, host: &mut Host<H>) -> (r: Result<AccountID, Error>)
        ensures
            ledger_obj::slot_read::<H, AccountID, 20>(
                *old(host),
                *final(host),
                self.spec_slot_num(),
                sfield::Borrower::spec_code(),
                r,
            ),
    {
        ledger_obj::get_field(host, self.get_slot_num(), sfield::Borrower)
    }

    /// The amount paid to the _Loan Broker_, taken from the principal loan at creation.
    /// Raw bytes; NUMBER is not yet typed in Rust.
    fn loan_origination_fee<H: HostBindings>(&self, host: &mut Host<H>) -> (r: Result<
        Option<[u8; 512]>,
        Error,
    >)
        ensures
            ledger_obj::slot_raw_read_optional(
                *old(host),
                *final(host),
                self.spec_slot_num(),
                sfield::LoanOriginationFee::spec_code(),
                r,
            ),
    {
        ledger_obj::get_raw_field_optional(host, self.get_slot_num(), sfield::LoanOriginationFee)
    }

    /// The amount paid to the _Loan Broker_ with each loan payment.
    /// Raw bytes; NUMBER is not yet typed in Rust.
    fn loan_service_fee<H: HostBindings>(&self, host: &mut Host<H>) -> (r: Result<Option<[u8; 512]>, Error>)
        ensures
            ledger_obj::slot_raw_read_optional(
                *old(host),
                *final(host),
                self.spec_slot_num(),
                sfield::LoanServiceFee::spec_code(),
                r,
            ),
    {
        ledger_obj::get_raw_field_optional(host, self.get_slot_num(), sfield::LoanServiceFee)
    }

    /// The amount paid to the _Loan Broker_ for each late payment.
    /// Raw bytes; NUMBER is not yet typed in Rust.
    fn late_payment_fee<H: HostBindings>(&self, host: &mut Host<H>) -> (r: Result<Option<[u8; 512]>, Error>)
        ensures
            ledger_obj::slot_raw_read_optional(
                *old(host),
                *final(host),
                self.spec_slot_num(),
                sfield::LatePaymentFee::spec_code(),
                r,
            ),
    {
        ledger_obj::get_raw_field_optional(host, self.get_slot_num(), sfield::LatePaymentFee)
    }

    /// The amount paid to the _Loan Broker_ when a full early payment is made.
    /// Raw bytes; NUMBER is not yet typed in Rust.
    fn close_payment_fee<H: HostBindings>(&self, host: &mut Host<H>) -> (r: Result<Option<[u8; 512]>, Error>)
        ensures
            ledger_obj::slot_raw_read_optional(
                *old(host),
                *final(host),
                self.spec_slot_num(),
                sfield::ClosePaymentFee::spec_code(),
                r,
            ),
    {
        ledger_obj::get_raw_field_optional(host, self.get_slot_num(), sfield::ClosePaymentFee)
    }

    /// The fee charged on overpayments, in units of 1/10th basis points. Valid values are 0 to
    /// 100000 (inclusive), representing 0% to 100%.
    fn overpayment_fee<H: HostBindings>(&self, host: &mut Host<H>) -> (r: Result<Option<u32>, Error>)
        ensures
            ledger_obj::slot_read_optional::<H, u32, 4>(
                *old(host),
                *final(host),
                self.spec_slot_num(),
                sfield::OverpaymentFee::spec_code(),
                r,
            ),
    {
        ledger_obj::get_field_optional(host, self.get_slot_num(), sfield::OverpaymentFee)
    }

    /// The annualized interest rate of the loan, in 1/10th basis points.
    fn interest_rate<H: HostBindings>(&self, host: &mut Host<H>) -> (r: Result<Option<u32>, Error>)
        ensures
            ledger_obj::slot_read_optional::<H, u32, 4>(
                *old(host),
                *final(host),
                self.spec_slot_num(),
                sfield::InterestRate::spec_code(),
                r,
            ),
    {
        ledger_obj::get_field_optional(host, self.get_slot_num(), sfield::InterestRate)
    }

    /// The premium added to the interest rate for late payments, in units of 1/10th basis points.
    /// Valid values are 0 to 100000 (inclusive), representing 0% to 100%.
    fn late_interest_rate<H: HostBindings>(&self, host: &mut Host<H>) -> (r: Result<Option<u32>, Error>)
        ensures
            ledger_obj::slot_read_optional::<H, u32, 4>(
                *old(host),
                *final(host),
                self.spec_slot_num(),
                sfield::LateInterestRate::spec_code(),
                r,
            ),
    {
        ledger_obj::get_field_optional(host, self.get_slot_num(), sfield::LateInterestRate)
    }

    /// The interest rate charged for repaying the loan early, in units of 1/10th basis points.
    /// Valid values are 0 to 100000 (inclusive), representing 0% to 100%.
    fn close_interest_rate<H: HostBindings>(&self, host: &mut Host<H>) -> (r: Result<Option<u32>, Error>)
        ensures
            ledger_obj::slot_read_optional::<H, u32, 4>(
                *old(host),
                *final(host),
                self.spec_slot_num(),
                sfield::CloseInterestRate::spec_code(),
                r,
            ),
    {
        ledger_obj::get_field_optional(host, self.get_slot_num(), sfield::CloseInterestRate)
    }

    /// The interest rate charged on overpayments, in units of 1/10th basis points. Valid values are
    /// 0 to 100000 (inclusive), representing 0% to 100%.
    fn overpayment_interest_rate<H: HostBindings>(&self, host: &mut Host<H>) -> (r: Result<
        Option<u32>,
        Error,
    >)
        ensures
            ledger_obj::slot_read_optional::<H, u32, 4>(
                *old(host),
                *final(host),
                self.spec_slot_num(),
                sfield::OverpaymentInterestRate::spec_code(),
                r,
            ),
    {
        ledger_obj::get_field_optional(host, self.get_slot_num(), sfield::OverpaymentInterestRate)
    }

    /// The timestamp of when the loan started, in seconds since the Ripple Epoch.
    fn start_date<H: HostBindings>(&self, host: &mut Host<H>) -> (r: Result<u32, Error>)
        ensures
            ledger_obj::slot_read::<H, u32, 4>(
                *old(host),
                *final(host),
                self.spec_slot_num(),
                sfield::StartDate::spec_code(),
                r,
            ),
    {
        ledger_obj::get_field(host, self.get_slot_num(), sfield::StartDate)
    }

    /// The number of seconds between loan payments.
    fn payment_interval<H: HostBindings>(&self, host: &mut Host<H>) -> (r: Result<u32, Error>)
        ensures
            ledger_obj::slot_read::<H, u32, 4>(
                *old(host),
                *final(host),
                self.spec_slot_num(),
                sfield::PaymentInterval::spec_code(),
                r,
            ),
    {
        ledger_obj::get_field(host, self.get_slot_num(), sfield::PaymentInterval)
    }

    /// The number of seconds after a loan payment is due before the loan defaults.
    fn grace_period<H: HostBindings>(&self, host: &mut Host<H>) -> (r: Result<Option<u32>, Error>)
        ensures
            ledger_obj::slot_read_optional::<H, u32, 4>(
                *old(host),
                *final(host),
                self.spec_slot_num(),
                sfield::GracePeriod::spec_code(),
                r,
            ),
    {
        ledger_obj::get_field_optional(host, self.get_slot_num(), sfield::GracePeriod)
    }

    /// The timestamp of when the previous payment was made, in seconds since the Ripple Epoch.
    fn previous_payment_due_date<H: HostBindings>(&self, host: &mut Host<H>) -> (r: Result<
        Option<u32>,
        Error,
    >)
        ensures
            ledger_obj::slot_read_optional::<H, u32, 4>(
                *old(host),
                *final(host),
                self.spec_slot_num(),
                sfield::PreviousPaymentDueDate::spec_code(),
                r,
            ),
    {
        ledger_obj::get_field_optional(host, self.get_slot_num(), sfield::PreviousPaymentDueDate)
    }

    /// The timestamp of when the next payment is due, in seconds since the Ripple Epoch.
    fn next_payment_due_date<H: HostBindings>(&self, host: &mut Host<H>) -> (r: Result<Option<u32>, Error>)
        ensures
            ledger_obj::slot_read_optional::<H, u32, 4>(
                *old(host),
                *final(host),
                self.spec_slot_num(),
                sfield::NextPaymentDueDate::spec_code(),
                r,
            ),
    {
        ledger_obj::get_field_optional(host, self.get_slot_num(), sfield::NextPaymentDueDate)
    }

    /// The number of payments remaining on the loan.
    fn payment_remaining<H: HostBindings>(&self, host: &mut Host<H>) -> (r: Result<Option<u32>, Error>)
        ensures
            ledger_obj::slot_read_optional::<H, u32, 4>(
                *old(host),
                *final(host),
                self.spec_slot_num(),
                sfield::PaymentRemaining::spec_code(),
                r,
            ),
    {
        ledger_obj::get_field_optional(host, self.get_slot_num(), sfield::PaymentRemaining)
    }

    /// The amount due for each payment interval.
    /// Raw bytes; NUMBER is not yet typed in Rust.
    fn periodic_payment<H: HostBindings>(&self, host: &mut Host<H>) -> (r: Result<[u8; 512], Error>)
        ensures
            ledger_obj::slot_raw_read(
                *old(host),
                *final(host),
                self.spec_slot_num(),
                sfield::PeriodicPayment::spec_code(),
                r,
            ),
    {
        ledger_obj::get_raw_field(host, self.get_slot_num(), sfield::PeriodicPayment)
    }

    /// The principal amount still owed on the loan.
    /// Raw bytes; NUMBER is not yet typed in Rust.
    fn principal_outstanding<H: HostBindings>(&self, host: &mut Host<H>) -> (r: Result<
        Option<[u8; 512]>,
        Error,
    >)
        ensures
            ledger_obj::slot_raw_read_optional(
                *old(host),
                *final(host),
                self.spec_slot_num(),
                sfield::PrincipalOutstanding::spec_code(),
                r,
            ),
    {
        ledger_obj::get_raw_field_optional(host, self.get_slot_num(), sfield::PrincipalOutstanding)
    }

    /// The total amount owed on the loan, including remaining principal and fees.
    /// Raw bytes; NUMBER is not yet typed in Rust.
    fn total_value_outstanding<H: HostBindings>(&self, host: &mut Host<H>) -> (r: Result<
        Option<[u8; 512]>,
        Error,
    >)
        ensures
            ledger_obj::slot_raw_read_optional(
                *old(host),
                *final(host),
                self.spec_slot_num(),
                sfield::TotalValueOutstanding::spec_code(),
                r,
            ),
    {
        ledger_obj::get_raw_field_optional(host, self.get_slot_num(), sfield::TotalValueOutstanding)
    }

    /// The remaining management fee owed to the loan broker.
    /// Raw bytes; NUMBER is not yet typed in Rust.
    fn management_fee_outstanding<H: HostBindings>(&self, host: &mut Host<H>) -> (r: Result<
        Option<[u8; 512]>,
        Error,
    >)
        ensures
            ledger_obj::slot_raw_read_optional(
                *old(host),
                *final(host),
                self.spec_slot_num(),
                sfield::ManagementFeeOutstanding::spec_code(),
                r,
            ),
    {
        ledger_obj::get_raw_field_optional(host, self.get_slot_num(), sfield::ManagementFeeOutstanding)
    }

    /// The scale factor that ensures all computed amounts are rounded to the same number of decimal
    /// places. It is based on the total loan value at creation time.
    /// Raw bytes; INT32 is not yet typed in Rust.
    fn loan_scale<H: HostBindings>(&self, host: &mut Host<H>) -> (r: Result<Option<[u8; 512]>, Error>)
        ensures
            ledger_obj::slot_raw_read_optional(
                *old(host),
                *final(host),
                self.spec_slot_num(),
                sfield::LoanScale::spec_code(),
                r,
            ),
    {
        ledger_obj::get_raw_field_optional(host, self.get_slot_num(), sfield::LoanScale)
    }
}

/// Trait providing access to fields specific to the current Loan object.
pub trait CurrentLoanFields: CurrentLedgerObjectCommonFields {
    /// Identifies the transaction ID that most recently modified this object.
    fn previous_txn_id<H: HostBindings>(&self, host: &mut Host<H>) -> (r: Result<Hash256, Error>)
        ensures
            current_ledger_obj::home_read::<H, Hash256, 32>(
                *old(host),
                *final(host),
                sfield::PreviousTxnID::spec_code(),
                r,
            ),
    {
        current_ledger_obj::get_field(host, sfield::PreviousTxnID)
    }

    /// The sequence of the ledger that contains the transaction that most recently modified this
    /// object.
    fn previous_txn_lgr_seq<H: HostBindings>(&self, host: &mut Host<H>) -> (r: Result<u32, Error>)
        ensures
            current_ledger_obj::home_read::<H, u32, 4>(
                *old(host),
                *final(host),
                sfield::PreviousTxnLgrSeq::spec_code(),
                r,
            ),
    {
        current_ledger_obj::get_field(host, sfield::PreviousTxnLgrSeq)
    }

    /// Identifies the page where this item is referenced in the owner's directory.
    fn owner_node<H: HostBindings>(&self, host: &mut Host<H>) -> (r: Result<u64, Error>)
        ensures
            current_ledger_obj::home_read::<H, u64, 8>(*old(host), *final(host), sfield::OwnerNode::spec_code(), r),
    {
        current_ledger_obj::get_field(host, sfield::OwnerNode)
    }

    /// Identifies the page where this item is referenced in the `LoanBroker` owner directory.
    fn loan_broker_node<H: HostBindings>(&self, host: &mut Host<H>) -> (r: Result<u64, Error>)
        ensures
            current_ledger_obj::home_read::<H, u64, 8>(
                *old(host),
                *final(host),
                sfield::LoanBrokerNode::spec_code(),
                r,
            ),
    {
        current_ledger_obj::get_field(host, sfield::LoanBrokerNode)
    }

    /// The ID of the _Loan Broker_ associated with this loan.
    fn loan_broker_id<H: HostBindings>(&self, host: &mut Host<H>) -> (r: Result<Hash256, Error>)
        ensures
            current_ledger_obj::home_read::<H, Hash256, 32>(
                *old(host),
                *final(host),
                sfield::LoanBrokerID::spec_code(),
                r,
            ),
    {
        current_ledger_obj::get_field(host, sfield::LoanBrokerID)
    }

    /// The sequence number of the loan.
    fn loan_sequence<H: HostBindings>(&self, host: &mut Host<H>) -> (r: Result<u32, Error>)
        ensures
            current_ledger_obj::home_read::<H, u32, 4>(*old(host), *final(host), sfield::LoanSequence::spec_code(), r),
    {
        current_ledger_obj::get_field(host, sfield::LoanSequence)
    }

    /// The account address of the _Borrower_.
    fn borrower<H: HostBindings>(&self, host: &mut Host<H>) -> (r: Result<AccountID, Error>)
        ensures
            current_ledger_obj::home_read::<H, AccountID, 20>(
                *old(host),
                *final(host),
                sfield::Borrower::spec_code(),
                r,
            ),
    {
        current_ledger_obj::get_field(host, sfield::Borrower)
    }

    /// The amount paid to the _Loan Broker_, taken from the principal loan at creation.
    /// Raw bytes; NUMBER is not yet typed in Rust.
    fn loan_origination_fee<H: HostBindings>(&self, host: &mut Host<H>) -> (r: Result<
        Option<[u8; 512]>,
        Error,
    >)
        ensures
            current_ledger_obj::home_raw_read_optional(
                *old(host),
                *final(host),
                sfield::LoanOriginationFee::spec_code(),
                r,
            ),
    {
        current_ledger_obj::get_raw_field_optional(host, sfield::LoanOriginationFee)
    }

    /// The amount paid to the _Loan Broker_ with each loan payment.
    /// Raw bytes; NUMBER is not yet typed in Rust.
    fn loan_service_fee<H: HostBindings>(&self, host: &mut Host<H>) -> (r: Result<Option<[u8; 512]>, Error>)
        ensures
            current_ledger_obj::home_raw_read_optional(
                *old(host),
                *final(host),
                sfield::LoanServiceFee::spec_code(),
                r,
            ),
    {
        current_ledger_obj::get_raw_field_optional(host, sfield::LoanServiceFee)
    }

    /// The amount paid to the _Loan Broker_ for each late payment.
    /// Raw bytes; NUMBER is not yet typed in Rust.
    fn late_payment_fee<H: HostBindings>(&self, host: &mut Host<H>) -> (r: Result<Option<[u8; 512]>, Error>)
        ensures
            current_ledger_obj::home_raw_read_optional(
                *old(host),
                *final(host),
                sfield::LatePaymentFee::spec_code(),
                r,
            ),
    {
        current_ledger_obj::get_raw_field_optional(host, sfield::LatePaymentFee)
    }

    /// The amount paid to the _Loan Broker_ when a full early payment is made.
    /// Raw bytes; NUMBER is not yet typed in Rust.
    fn close_payment_fee<H: HostBindings>(&self, host: &mut Host<H>) -> (r: Result<Option<[u8; 512]>, Error>)
        ensures
            current_ledger_obj::home_raw_read_optional(
                *old(host),
                *final(host),
                sfield::ClosePaymentFee::spec_code(),
                r,
            ),
    {
        current_ledger_obj::get_raw_field_optional(host, sfield::ClosePaymentFee)
    }

    /// The fee charged on overpayments, in units of 1/10th basis points. Valid values are 0 to
    /// 100000 (inclusive), representing 0% to 100%.
    fn overpayment_fee<H: HostBindings>(&self, host: &mut Host<H>) -> (r: Result<Option<u32>, Error>)
        ensures
            current_ledger_obj::home_read_optional::<H, u32, 4>(
                *old(host),
                *final(host),
                sfield::OverpaymentFee::spec_code(),
                r,
            ),
    {
        current_ledger_obj::get_field_optional(host, sfield::OverpaymentFee)
    }

    /// The annualized interest rate of the loan, in 1/10th basis points.
    fn interest_rate<H: HostBindings>(&self, host: &mut Host<H>) -> (r: Result<Option<u32>, Error>)
        ensures
            current_ledger_obj::home_read_optional::<H, u32, 4>(
                *old(host),
                *final(host),
                sfield::InterestRate::spec_code(),
                r,
            ),
    {
        current_ledger_obj::get_field_optional(host, sfield::InterestRate)
    }

    /// The premium added to the interest rate for late payments, in units of 1/10th basis points.
    /// Valid values are 0 to 100000 (inclusive), representing 0% to 100%.
    fn late_interest_rate<H: HostBindings>(&self, host: &mut Host<H>) -> (r: Result<Option<u32>, Error>)
        ensures
            current_ledger_obj::home_read_optional::<H, u32, 4>(
                *old(host),
                *final(host),
                sfield::LateInterestRate::spec_code(),
                r,
            ),
    {
        current_ledger_obj::get_field_optional(host, sfield::LateInterestRate)
    }

    /// The interest rate charged for repaying the loan early, in units of 1/10th basis points.
    /// Valid values are 0 to 100000 (inclusive), representing 0% to 100%.
    fn close_interest_rate<H: HostBindings>(&self, host: &mut Host<H>) -> (r: Result<Option<u32>, Error>)
        ensures
            current_ledger_obj::home_read_optional::<H, u32, 4>(
                *old(host),
                *final(host),
                sfield::CloseInterestRate::spec_code(),
                r,
            ),
    {
        current_ledger_obj::get_field_optional(host, sfield::CloseInterestRate)
    }

    /// The interest rate charged on overpayments, in units of 1/10th basis points. Valid values are
    /// 0 to 100000 (inclusive), representing 0% to 100%.
    fn overpayment_interest_rate<H: HostBindings>(&self, host: &mut Host<H>) -> (r: Result<
        Option<u32>,
        Error,
    >)
        ensures
            current_ledger_obj::home_read_optional::<H, u32, 4>(
                *old(host),
                *final(host),
                sfield::OverpaymentInterestRate::spec_code(),
                r,
            ),
    {
        current_ledger_obj::get_field_optional(host, sfield::OverpaymentInterestRate)
    }

    /// The timestamp of when the loan started, in seconds since the Ripple Epoch.
    fn start_date<H: HostBindings>(&self, host: &mut Host<H>) -> (r: Result<u32, Error>)
        ensures
            current_ledger_obj::home_read::<H, u32, 4>(*old(host), *final(host), sfield::StartDate::spec_code(), r),
    {
        current_ledger_obj::get_field(host, sfield::StartDate)
    }

    /// The number of seconds between loan payments.
    fn payment_interval<H: HostBindings>(&self, host: &mut Host<H>) -> (r: Result<u32, Error>)
        ensures
            current_ledger_obj::home_read::<H, u32, 4>(
                *old(host),
                *final(host),
                sfield::PaymentInterval::spec_code(),
                r,
            ),
    {
        current_ledger_obj::get_field(host, sfield::PaymentInterval)
    }

    /// The number of seconds after a loan payment is due before the loan defaults.
    fn grace_period<H: HostBindings>(&self, host: &mut Host<H>) -> (r: Result<Option<u32>, Error>)
        ensures
            current_ledger_obj::home_read_optional::<H, u32, 4>(
                *old(host),
                *final(host),
                sfield::GracePeriod::spec_code(),
                r,
            ),
    {
        current_ledger_obj::get_field_optional(host, sfield::GracePeriod)
    }

    /// The timestamp of when the previous payment was made, in seconds since the Ripple Epoch.
    fn previous_payment_due_date<H: HostBindings>(&self, host: &mut Host<H>) -> (r: Result<
        Option<u32>,
        Error,
    >)
        ensures
            current_ledger_obj::home_read_optional::<H, u32, 4>(
                *old(host),
                *final(host),
                sfield::PreviousPaymentDueDate::spec_code(),
                r,
            ),
    {
        current_ledger_obj::get_field_optional(host, sfield::PreviousPaymentDueDate)
    }

    /// The timestamp of when the next payment is due, in seconds since the Ripple Epoch.
    fn next_payment_due_date<H: HostBindings>(&self, host: &mut Host<H>) -> (r: Result<Option<u32>, Error>)
        ensures
            current_ledger_obj::home_read_optional::<H, u32, 4>(
                *old(host),
                *final(host),
                sfield::NextPaymentDueDate::spec_code(),
                r,
            ),
    {
        current_ledger_obj::get_field_optional(host, sfield::NextPaymentDueDate)
    }

    /// The number of payments remaining on the loan.
    fn payment_remaining<H: HostBindings>(&self, host: &mut Host<H>) -> (r: Result<Option<u32>, Error>)
        ensures
            current_ledger_obj::home_read_optional::<H, u32, 4>(
                *old(host),
                *final(host),
                sfield::PaymentRemaining::spec_code(),
                r,
            ),
    {
        current_ledger_obj::get_field_optional(host, sfield::PaymentRemaining)
    }

    /// The amount due for each payment interval.
    /// Raw bytes; NUMBER is not yet typed in Rust.
    fn periodic_payment<H: HostBindings>(&self, host: &mut Host<H>) -> (r: Result<[u8; 512], Error>)
        ensures
            current_ledger_obj::home_raw_read(*old(host), *final(host), sfield::PeriodicPayment::spec_code(), r),
    {
        current_ledger_obj::get_raw_field(host, sfield::PeriodicPayment)
    }

    /// The principal amount still owed on the loan.
    /// Raw bytes; NUMBER is not yet typed in Rust.
    fn principal_outstanding<H: HostBindings>(&self, host: &mut Host<H>) -> (r: Result<
        Option<[u8; 512]>,
        Error,
    >)
        ensures
            current_ledger_obj::home_raw_read_optional(
                *old(host),
                *final(host),
                sfield::PrincipalOutstanding::spec_code(),
                r,
            ),
    {
        current_ledger_obj::get_raw_field_optional(host, sfield::PrincipalOutstanding)
    }

    /// The total amount owed on the loan, including remaining principal and fees.
    /// Raw bytes; NUMBER is not yet typed in Rust.
    fn total_value_outstanding<H: HostBindings>(&self, host: &mut Host<H>) -> (r: Result<
        Option<[u8; 512]>,
        Error,
    >)
        ensures
            current_ledger_obj::home_raw_read_optional(
                *old(host),
                *final(host),
                sfield::TotalValueOutstanding::spec_code(),
                r,
            ),
    {
        current_ledger_obj::get_raw_field_optional(host, sfield::TotalValueOutstanding)
    }

    /// The remaining management fee owed to the loan broker.
    /// Raw bytes; NUMBER is not yet typed in Rust.
    fn management_fee_outstanding<H: HostBindings>(&self, host: &mut Host<H>) -> (r: Result<
        Option<[u8; 512]>,
        Error,
    >)
        ensures
            current_ledger_obj::home_raw_read_optional(
                *old(host),
                *final(host),
                sfield::ManagementFeeOutstanding::spec_code(),
                r,
            ),
    {
        current_ledger_obj::get_raw_field_optional(host, sfield::ManagementFeeOutstanding)
    }

    /// The scale factor that ensures all computed amounts are rounded to the same number of decimal
    /// places. It is based on the total loan value at creation time.
    /// Raw bytes; INT32 is not yet typed in Rust.
    fn loan_scale<H: HostBindings>(&self, host: &mut Host<H>) -> (r: Result<Option<[u8; 512]>, Error>)
        ensures
            current_ledger_obj::home_raw_read_optional(*old(host), *final(host), sfield::LoanScale::spec_code(), r),
    {
        current_ledger_obj::get_raw_field_optional(host, sfield::LoanScale)
    }
}

/// A handle to a Loan object cached in a host slot.
#[derive(Debug, Clone, Copy, PartialEq, Eq, Structural)]
pub struct Loan {
    pub slot_num: i32,
}

impl Loan {
    /// Wraps the slot a Loan object is cached in.
    pub fn new(slot_num: i32) -> (r: Loan)
        ensures
            r.slot_num == slot_num,
    {
        Loan { slot_num }
    }
}

impl LedgerObjectCommonFields for Loan {
    open spec fn spec_slot_num(&self) -> i32 {
        self.slot_num
    }

    fn get_slot_num(&self) -> (r: i32) {
        assert(self.spec_slot_num() == self.slot_num);
        self.slot_num
    }
}

impl LoanFields for Loan {

}

} // verus!
