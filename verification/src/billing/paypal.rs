//! PayPal payment provider.
//!
//! PayPal Orders/Checkout integration. No payment is processed yet: every operation reports that it is not
//! implemented.
use vstd::prelude::*;
use crate::billing::error::{not_implemented_text, BillingError};
use crate::billing::traits::{
    is_fiat, not_implemented, Currency, PaymentIntent, PaymentIntentRequest, PaymentProvider,
    PaymentStatus, RefundRequest, RefundResult,
};

verus! {

/// PayPal payment provider.
///
/// Will support PayPal checkout flows, buyer/seller protection, and subscription billing.
#[derive(Debug)]
pub struct PaypalProvider {}

impl PaypalProvider {
    /// Create a new PayPal provider instance.
    pub fn new() -> (r: Self) {
        PaypalProvider {}
    }
}

impl PaymentProvider for PaypalProvider {
    open spec fn provider_key(&self) -> Seq<char> {
        "paypal"@
    }

    /// PayPal supports the major fiat currencies.
    open spec fn accepts(&self, currency: Currency) -> bool {
        is_fiat(currency)
    }

    fn name(&self) -> (r: &'static str) {
        "paypal"
    }

    fn initialize(&self) -> (r: Result<(), BillingError>)
        ensures
            r matches Err(e) && e.message() == not_implemented_text("PaypalProvider"@),
    {
        Err(not_implemented("PaypalProvider"))
    }

    fn create_payment_intent(&self, _request: &PaymentIntentRequest) -> (r: Result<
        PaymentIntent,
        BillingError,
    >)
        ensures
            r matches Err(e) && e.message() == not_implemented_text(
                "PaypalProvider::create_payment_intent"@,
            ),
    {
        Err(not_implemented("PaypalProvider::create_payment_intent"))
    }

    fn verify_payment(&self, _payment_id: &str) -> (r: Result<PaymentStatus, BillingError>)
        ensures
            r matches Err(e) && e.message() == not_implemented_text("PaypalProvider::verify_payment"@),
    {
        Err(not_implemented("PaypalProvider::verify_payment"))
    }

    fn refund(&self, _request: &RefundRequest) -> (r: Result<RefundResult, BillingError>)
        ensures
            r matches Err(e) && e.message() == not_implemented_text("PaypalProvider::refund"@),
    {
        Err(not_implemented("PaypalProvider::refund"))
    }

    fn supports_currency(&self, currency: &Currency) -> (r: bool) {
        match currency {
            Currency::Usd | Currency::Eur | Currency::Gbp | Currency::Jpy => true,
            _ => false,
        }
    }
}

} // verus!
