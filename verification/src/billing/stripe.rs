//! Stripe payment provider.
//!
//! Card and international payment processing via the Stripe API. No payment is processed yet: every operation reports that it is not
//! implemented.
use vstd::prelude::*;
use crate::billing::error::{not_implemented_text, BillingError};
use crate::billing::traits::{
    is_fiat, not_implemented, Currency, PaymentIntent, PaymentIntentRequest, PaymentProvider,
    PaymentStatus, RefundRequest, RefundResult,
};

verus! {

/// Stripe payment provider.
///
/// Will support credit cards, bank transfers, and international payments via the Stripe API.
#[derive(Debug)]
pub struct StripeProvider {}

impl StripeProvider {
    /// Create a new Stripe provider instance.
    pub fn new() -> (r: Self) {
        StripeProvider {}
    }
}

impl PaymentProvider for StripeProvider {
    open spec fn provider_key(&self) -> Seq<char> {
        "stripe"@
    }

    /// Stripe supports the major fiat currencies.
    open spec fn accepts(&self, currency: Currency) -> bool {
        is_fiat(currency)
    }

    fn name(&self) -> (r: &'static str) {
        "stripe"
    }

    fn initialize(&self) -> (r: Result<(), BillingError>)
        ensures
            r matches Err(e) && e.message() == not_implemented_text("StripeProvider"@),
    {
        Err(not_implemented("StripeProvider"))
    }

    fn create_payment_intent(&self, _request: &PaymentIntentRequest) -> (r: Result<
        PaymentIntent,
        BillingError,
    >)
        ensures
            r matches Err(e) && e.message() == not_implemented_text(
                "StripeProvider::create_payment_intent"@,
            ),
    {
        Err(not_implemented("StripeProvider::create_payment_intent"))
    }

    fn verify_payment(&self, _payment_id: &str) -> (r: Result<PaymentStatus, BillingError>)
        ensures
            r matches Err(e) && e.message() == not_implemented_text("StripeProvider::verify_payment"@),
    {
        Err(not_implemented("StripeProvider::verify_payment"))
    }

    fn refund(&self, _request: &RefundRequest) -> (r: Result<RefundResult, BillingError>)
        ensures
            r matches Err(e) && e.message() == not_implemented_text("StripeProvider::refund"@),
    {
        Err(not_implemented("StripeProvider::refund"))
    }

    fn supports_currency(&self, currency: &Currency) -> (r: bool) {
        match currency {
            Currency::Usd | Currency::Eur | Currency::Gbp | Currency::Jpy => true,
            _ => false,
        }
    }
}

} // verus!
