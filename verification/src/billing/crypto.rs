//! crypto payment provider.
//!
//! On-chain cryptocurrency payments (BTC, ETH, USDC). No payment is processed yet: every operation reports that it is not
//! implemented.
use vstd::prelude::*;
use crate::billing::error::{not_implemented_text, BillingError};
use crate::billing::traits::{
    not_implemented, Currency, PaymentIntent, PaymentIntentRequest, PaymentProvider,
    PaymentStatus, RefundRequest, RefundResult,
};

verus! {

/// crypto payment provider.
///
/// Will support on-chain payments (BTC, ETH, USDC) via wallet address generation and transaction verification.
#[derive(Debug)]
pub struct CryptoProvider {}

impl CryptoProvider {
    /// Create a new crypto provider instance.
    pub fn new() -> (r: Self) {
        CryptoProvider {}
    }
}

impl PaymentProvider for CryptoProvider {
    open spec fn provider_key(&self) -> Seq<char> {
        "crypto"@
    }

    /// Only the crypto currencies are accepted.
    open spec fn accepts(&self, currency: Currency) -> bool {
        currency == Currency::Btc || currency == Currency::Eth || currency == Currency::Usdc
    }

    fn name(&self) -> (r: &'static str) {
        "crypto"
    }

    fn initialize(&self) -> (r: Result<(), BillingError>)
        ensures
            r matches Err(e) && e.message() == not_implemented_text("CryptoProvider"@),
    {
        Err(not_implemented("CryptoProvider"))
    }

    fn create_payment_intent(&self, _request: &PaymentIntentRequest) -> (r: Result<
        PaymentIntent,
        BillingError,
    >)
        ensures
            r matches Err(e) && e.message() == not_implemented_text(
                "CryptoProvider::create_payment_intent"@,
            ),
    {
        Err(not_implemented("CryptoProvider::create_payment_intent"))
    }

    fn verify_payment(&self, _payment_id: &str) -> (r: Result<PaymentStatus, BillingError>)
        ensures
            r matches Err(e) && e.message() == not_implemented_text("CryptoProvider::verify_payment"@),
    {
        Err(not_implemented("CryptoProvider::verify_payment"))
    }

    fn refund(&self, _request: &RefundRequest) -> (r: Result<RefundResult, BillingError>)
        ensures
            r matches Err(e) && e.message() == not_implemented_text("CryptoProvider::refund"@),
    {
        Err(not_implemented("CryptoProvider::refund"))
    }

    fn supports_currency(&self, currency: &Currency) -> (r: bool) {
        match currency {
            Currency::Btc | Currency::Eth | Currency::Usdc => true,
            _ => false,
        }
    }
}

} // verus!
