//! Cash App payment provider.
//!
//! Cash App Pay (routed through Square). No payment is processed yet: every operation reports that it is not
//! implemented.
use vstd::prelude::*;
use crate::billing::error::{not_implemented_text, BillingError};
use crate::billing::traits::{
    not_implemented, Currency, PaymentIntent, PaymentIntentRequest, PaymentProvider,
    PaymentStatus, RefundRequest, RefundResult,
};

verus! {

/// Cash App payment provider.
///
/// Cash App Pay integration routes through the Square API.
#[derive(Debug)]
pub struct CashAppProvider {}

impl CashAppProvider {
    /// Create a new Cash App provider instance.
    pub fn new() -> (r: Self) {
        CashAppProvider {}
    }
}

impl PaymentProvider for CashAppProvider {
    open spec fn provider_key(&self) -> Seq<char> {
        "cashapp"@
    }

    /// Cash App is US-only (USD) with limited GBP support in the UK.
    open spec fn accepts(&self, currency: Currency) -> bool {
        currency == Currency::Usd || currency == Currency::Gbp
    }

    fn name(&self) -> (r: &'static str) {
        "cashapp"
    }

    fn initialize(&self) -> (r: Result<(), BillingError>)
        ensures
            r matches Err(e) && e.message() == not_implemented_text("CashAppProvider"@),
    {
        Err(not_implemented("CashAppProvider"))
    }

    fn create_payment_intent(&self, _request: &PaymentIntentRequest) -> (r: Result<
        PaymentIntent,
        BillingError,
    >)
        ensures
            r matches Err(e) && e.message() == not_implemented_text(
                "CashAppProvider::create_payment_intent"@,
            ),
    {
        Err(not_implemented("CashAppProvider::create_payment_intent"))
    }

    fn verify_payment(&self, _payment_id: &str) -> (r: Result<PaymentStatus, BillingError>)
        ensures
            r matches Err(e) && e.message() == not_implemented_text("CashAppProvider::verify_payment"@),
    {
        Err(not_implemented("CashAppProvider::verify_payment"))
    }

    fn refund(&self, _request: &RefundRequest) -> (r: Result<RefundResult, BillingError>)
        ensures
            r matches Err(e) && e.message() == not_implemented_text("CashAppProvider::refund"@),
    {
        Err(not_implemented("CashAppProvider::refund"))
    }

    fn supports_currency(&self, currency: &Currency) -> (r: bool) {
        match currency {
            Currency::Usd | Currency::Gbp => true,
            _ => false,
        }
    }
}

} // verus!
