//! Venmo payment provider.
//!
//! Venmo Pay (routed through PayPal/Braintree). No payment is processed yet: every operation reports that it is not
//! implemented.
use vstd::prelude::*;
use crate::billing::error::{not_implemented_text, BillingError};
use crate::billing::traits::{
    not_implemented, Currency, PaymentIntent, PaymentIntentRequest, PaymentProvider,
    PaymentStatus, RefundRequest, RefundResult,
};

verus! {

/// Venmo payment provider.
///
/// Venmo integration routes through PayPal/Braintree APIs.
#[derive(Debug)]
pub struct VenmoProvider {}

impl VenmoProvider {
    /// Create a new Venmo provider instance.
    pub fn new() -> (r: Self) {
        VenmoProvider {}
    }
}

impl PaymentProvider for VenmoProvider {
    open spec fn provider_key(&self) -> Seq<char> {
        "venmo"@
    }

    /// Venmo is US-only.
    open spec fn accepts(&self, currency: Currency) -> bool {
        currency == Currency::Usd
    }

    fn name(&self) -> (r: &'static str) {
        "venmo"
    }

    fn initialize(&self) -> (r: Result<(), BillingError>)
        ensures
            r matches Err(e) && e.message() == not_implemented_text("VenmoProvider"@),
    {
        Err(not_implemented("VenmoProvider"))
    }

    fn create_payment_intent(&self, _request: &PaymentIntentRequest) -> (r: Result<
        PaymentIntent,
        BillingError,
    >)
        ensures
            r matches Err(e) && e.message() == not_implemented_text(
                "VenmoProvider::create_payment_intent"@,
            ),
    {
        Err(not_implemented("VenmoProvider::create_payment_intent"))
    }

    fn verify_payment(&self, _payment_id: &str) -> (r: Result<PaymentStatus, BillingError>)
        ensures
            r matches Err(e) && e.message() == not_implemented_text("VenmoProvider::verify_payment"@),
    {
        Err(not_implemented("VenmoProvider::verify_payment"))
    }

    fn refund(&self, _request: &RefundRequest) -> (r: Result<RefundResult, BillingError>)
        ensures
            r matches Err(e) && e.message() == not_implemented_text("VenmoProvider::refund"@),
    {
        Err(not_implemented("VenmoProvider::refund"))
    }

    fn supports_currency(&self, currency: &Currency) -> (r: bool) {
        match currency {
            Currency::Usd => true,
            _ => false,
        }
    }
}

} // verus!
