//! American Express payment provider.
//!
//! Direct American Express processing for merchants that require it. No payment is processed yet: every operation reports that it is not
//! implemented.
use vstd::prelude::*;
use crate::billing::error::{not_implemented_text, BillingError};
use crate::billing::traits::{
    is_fiat, not_implemented, Currency, PaymentIntent, PaymentIntentRequest, PaymentProvider,
    PaymentStatus, RefundRequest, RefundResult,
};

verus! {

/// American Express payment provider.
///
/// Some merchant configurations require direct Amex integration rather than processing through Stripe.
#[derive(Debug)]
pub struct AmexProvider {}

impl AmexProvider {
    /// Create a new American Express provider instance.
    pub fn new() -> (r: Self) {
        AmexProvider {}
    }
}

impl PaymentProvider for AmexProvider {
    open spec fn provider_key(&self) -> Seq<char> {
        "amex"@
    }

    /// Amex primarily supports the major fiat currencies.
    open spec fn accepts(&self, currency: Currency) -> bool {
        is_fiat(currency)
    }

    fn name(&self) -> (r: &'static str) {
        "amex"
    }

    fn initialize(&self) -> (r: Result<(), BillingError>)
        ensures
            r matches Err(e) && e.message() == not_implemented_text("AmexProvider"@),
    {
        Err(not_implemented("AmexProvider"))
    }

    fn create_payment_intent(&self, _request: &PaymentIntentRequest) -> (r: Result<
        PaymentIntent,
        BillingError,
    >)
        ensures
            r matches Err(e) && e.message() == not_implemented_text(
                "AmexProvider::create_payment_intent"@,
            ),
    {
        Err(not_implemented("AmexProvider::create_payment_intent"))
    }

    fn verify_payment(&self, _payment_id: &str) -> (r: Result<PaymentStatus, BillingError>)
        ensures
            r matches Err(e) && e.message() == not_implemented_text("AmexProvider::verify_payment"@),
    {
        Err(not_implemented("AmexProvider::verify_payment"))
    }

    fn refund(&self, _request: &RefundRequest) -> (r: Result<RefundResult, BillingError>)
        ensures
            r matches Err(e) && e.message() == not_implemented_text("AmexProvider::refund"@),
    {
        Err(not_implemented("AmexProvider::refund"))
    }

    fn supports_currency(&self, currency: &Currency) -> (r: bool) {
        match currency {
            Currency::Usd | Currency::Eur | Currency::Gbp | Currency::Jpy => true,
            _ => false,
        }
    }
}

} // verus!
