//! Billing subsystem: payment providers, spending controls, task metering and accounts.
//!
//! Payment providers implement [`PaymentProvider`] and are registered in
//! [`create_payment_provider`] under a canonical string key (e.g. `"stripe"`,
//! `"paypal"`, `"crypto"`). Spending controls ([`spending`]) provide per-user/per-tenant
//! budget enforcement, circuit breaking, and prepaid balance tracking.
//!
//! No provider performs real payment processing yet: their operations report that they
//! are not implemented.
//!
//! To add a new payment provider: implement [`PaymentProvider`] in its own module, add
//! the module and re-export below, register the key in [`create_payment_provider`] and
//! [`registered_provider_keys`], and add its configuration to
//! [`config::BillingProvidersConfig`].
pub mod error;
pub mod traits;
pub mod spending;
pub mod metering;
pub mod display;
pub mod config;
pub mod account;
pub mod stripe;
pub mod crypto;
pub mod amex;
pub mod paypal;
pub mod venmo;
pub mod cashapp;
pub mod persistence;
pub mod observer;
pub mod laws;

pub use amex::AmexProvider;
pub use cashapp::CashAppProvider;
pub use config::BillingConfig;
pub use crypto::CryptoProvider;
pub use error::BillingError;
pub use paypal::PaypalProvider;
pub use spending::{CircuitBreaker, PrepaymentBalance, SpendingLimit, UsageTracker};
pub use stripe::StripeProvider;
pub use traits::PaymentProvider;
pub use venmo::VenmoProvider;

use vstd::prelude::*;
use crate::billing::traits::{
    Currency, PaymentIntent, PaymentIntentRequest, PaymentStatus, RefundRequest, RefundResult,
};
use crate::billing::error::not_implemented_text;
use crate::text::{str_eq, string_of};

verus! {

/// The keys under which payment providers are registered, in registration order.
pub open spec fn registered_keys() -> Seq<Seq<char>> {
    seq!["stripe"@, "crypto"@, "amex"@, "paypal"@, "venmo"@, "cashapp"@]
}

/// One of the registered payment providers.
#[derive(Debug)]
pub enum AnyPaymentProvider {
    Stripe(StripeProvider),
    Crypto(CryptoProvider),
    Amex(AmexProvider),
    Paypal(PaypalProvider),
    Venmo(VenmoProvider),
    CashApp(CashAppProvider),
}

impl AnyPaymentProvider {
    /// The operation name an `initialize` call reports as not implemented: the provider's
    /// type name.
    pub open spec fn initialize_operation(&self) -> Seq<char> {
        match self {
            AnyPaymentProvider::Stripe(_) => "StripeProvider"@,
            AnyPaymentProvider::Crypto(_) => "CryptoProvider"@,
            AnyPaymentProvider::Amex(_) => "AmexProvider"@,
            AnyPaymentProvider::Paypal(_) => "PaypalProvider"@,
            AnyPaymentProvider::Venmo(_) => "VenmoProvider"@,
            AnyPaymentProvider::CashApp(_) => "CashAppProvider"@,
        }
    }

    /// The operation name a `create_payment_intent` call reports as not implemented.
    pub open spec fn intent_operation(&self) -> Seq<char> {
        match self {
            AnyPaymentProvider::Stripe(_) => "StripeProvider::create_payment_intent"@,
            AnyPaymentProvider::Crypto(_) => "CryptoProvider::create_payment_intent"@,
            AnyPaymentProvider::Amex(_) => "AmexProvider::create_payment_intent"@,
            AnyPaymentProvider::Paypal(_) => "PaypalProvider::create_payment_intent"@,
            AnyPaymentProvider::Venmo(_) => "VenmoProvider::create_payment_intent"@,
            AnyPaymentProvider::CashApp(_) => "CashAppProvider::create_payment_intent"@,
        }
    }

    /// The operation name a `verify_payment` call reports as not implemented.
    pub open spec fn verify_operation(&self) -> Seq<char> {
        match self {
            AnyPaymentProvider::Stripe(_) => "StripeProvider::verify_payment"@,
            AnyPaymentProvider::Crypto(_) => "CryptoProvider::verify_payment"@,
            AnyPaymentProvider::Amex(_) => "AmexProvider::verify_payment"@,
            AnyPaymentProvider::Paypal(_) => "PaypalProvider::verify_payment"@,
            AnyPaymentProvider::Venmo(_) => "VenmoProvider::verify_payment"@,
            AnyPaymentProvider::CashApp(_) => "CashAppProvider::verify_payment"@,
        }
    }

    /// The operation name a `refund` call reports as not implemented.
    pub open spec fn refund_operation(&self) -> Seq<char> {
        match self {
            AnyPaymentProvider::Stripe(_) => "StripeProvider::refund"@,
            AnyPaymentProvider::Crypto(_) => "CryptoProvider::refund"@,
            AnyPaymentProvider::Amex(_) => "AmexProvider::refund"@,
            AnyPaymentProvider::Paypal(_) => "PaypalProvider::refund"@,
            AnyPaymentProvider::Venmo(_) => "VenmoProvider::refund"@,
            AnyPaymentProvider::CashApp(_) => "CashAppProvider::refund"@,
        }
    }
}

impl PaymentProvider for AnyPaymentProvider {
    open spec fn provider_key(&self) -> Seq<char> {
        match self {
            AnyPaymentProvider::Stripe(p) => p.provider_key(),
            AnyPaymentProvider::Crypto(p) => p.provider_key(),
            AnyPaymentProvider::Amex(p) => p.provider_key(),
            AnyPaymentProvider::Paypal(p) => p.provider_key(),
            AnyPaymentProvider::Venmo(p) => p.provider_key(),
            AnyPaymentProvider::CashApp(p) => p.provider_key(),
        }
    }

    open spec fn accepts(&self, currency: Currency) -> bool {
        match self {
            AnyPaymentProvider::Stripe(p) => p.accepts(currency),
            AnyPaymentProvider::Crypto(p) => p.accepts(currency),
            AnyPaymentProvider::Amex(p) => p.accepts(currency),
            AnyPaymentProvider::Paypal(p) => p.accepts(currency),
            AnyPaymentProvider::Venmo(p) => p.accepts(currency),
            AnyPaymentProvider::CashApp(p) => p.accepts(currency),
        }
    }

    fn name(&self) -> (r: &'static str) {
        match self {
            AnyPaymentProvider::Stripe(p) => p.name(),
            AnyPaymentProvider::Crypto(p) => p.name(),
            AnyPaymentProvider::Amex(p) => p.name(),
            AnyPaymentProvider::Paypal(p) => p.name(),
            AnyPaymentProvider::Venmo(p) => p.name(),
            AnyPaymentProvider::CashApp(p) => p.name(),
        }
    }

    fn initialize(&self) -> (r: Result<(), BillingError>)
        ensures
            r matches Err(e) && e.message() == not_implemented_text(self.initialize_operation()),
    {
        match self {
            AnyPaymentProvider::Stripe(p) => p.initialize(),
            AnyPaymentProvider::Crypto(p) => p.initialize(),
            AnyPaymentProvider::Amex(p) => p.initialize(),
            AnyPaymentProvider::Paypal(p) => p.initialize(),
            AnyPaymentProvider::Venmo(p) => p.initialize(),
            AnyPaymentProvider::CashApp(p) => p.initialize(),
        }
    }

    fn create_payment_intent(&self, request: &PaymentIntentRequest) -> (r: Result<
        PaymentIntent,
        BillingError,
    >)
        ensures
            r matches Err(e) && e.message() == not_implemented_text(self.intent_operation()),
    {
        match self {
            AnyPaymentProvider::Stripe(p) => p.create_payment_intent(request),
            AnyPaymentProvider::Crypto(p) => p.create_payment_intent(request),
            AnyPaymentProvider::Amex(p) => p.create_payment_intent(request),
            AnyPaymentProvider::Paypal(p) => p.create_payment_intent(request),
            AnyPaymentProvider::Venmo(p) => p.create_payment_intent(request),
            AnyPaymentProvider::CashApp(p) => p.create_payment_intent(request),
        }
    }

    fn verify_payment(&self, payment_id: &str) -> (r: Result<PaymentStatus, BillingError>)
        ensures
            r matches Err(e) && e.message() == not_implemented_text(self.verify_operation()),
    {
        match self {
            AnyPaymentProvider::Stripe(p) => p.verify_payment(payment_id),
            AnyPaymentProvider::Crypto(p) => p.verify_payment(payment_id),
            AnyPaymentProvider::Amex(p) => p.verify_payment(payment_id),
            AnyPaymentProvider::Paypal(p) => p.verify_payment(payment_id),
            AnyPaymentProvider::Venmo(p) => p.verify_payment(payment_id),
            AnyPaymentProvider::CashApp(p) => p.verify_payment(payment_id),
        }
    }

    fn refund(&self, request: &RefundRequest) -> (r: Result<RefundResult, BillingError>)
        ensures
            r matches Err(e) && e.message() == not_implemented_text(self.refund_operation()),
    {
        match self {
            AnyPaymentProvider::Stripe(p) => p.refund(request),
            AnyPaymentProvider::Crypto(p) => p.refund(request),
            AnyPaymentProvider::Amex(p) => p.refund(request),
            AnyPaymentProvider::Paypal(p) => p.refund(request),
            AnyPaymentProvider::Venmo(p) => p.refund(request),
            AnyPaymentProvider::CashApp(p) => p.refund(request),
        }
    }

    fn supports_currency(&self, currency: &Currency) -> (r: bool) {
        match self {
            AnyPaymentProvider::Stripe(p) => p.supports_currency(currency),
            AnyPaymentProvider::Crypto(p) => p.supports_currency(currency),
            AnyPaymentProvider::Amex(p) => p.supports_currency(currency),
            AnyPaymentProvider::Paypal(p) => p.supports_currency(currency),
            AnyPaymentProvider::Venmo(p) => p.supports_currency(currency),
            AnyPaymentProvider::CashApp(p) => p.supports_currency(currency),
        }
    }
}

/// Create a payment provider by its canonical string key.
///
/// Supported keys:
/// - `"stripe"` — credit cards, international payments (via Stripe)
/// - `"crypto"` — cryptocurrency payments (BTC, ETH, USDC)
/// - `"amex"` — American Express direct processing
/// - `"paypal"` — PayPal checkout
/// - `"venmo"` — Venmo (via Braintree)
/// - `"cashapp"` — Cash App Pay (via Square)
///
/// Returns an error naming the key and the supported keys if the key is unrecognized.
pub fn create_payment_provider(key: &str) -> (r: Result<AnyPaymentProvider, BillingError>)
    ensures
        r is Ok <==> registered_keys().contains(key@),
        r matches Ok(p) ==> p.provider_key() == key@,
        r matches Err(e) ==> e matches BillingError::UnknownProvider { key: k } && k@ == key@,
{
    if str_eq(key, "stripe") {
        Ok(AnyPaymentProvider::Stripe(StripeProvider::new()))
    } else if str_eq(key, "crypto") {
        Ok(AnyPaymentProvider::Crypto(CryptoProvider::new()))
    } else if str_eq(key, "amex") {
        Ok(AnyPaymentProvider::Amex(AmexProvider::new()))
    } else if str_eq(key, "paypal") {
        Ok(AnyPaymentProvider::Paypal(PaypalProvider::new()))
    } else if str_eq(key, "venmo") {
        Ok(AnyPaymentProvider::Venmo(VenmoProvider::new()))
    } else if str_eq(key, "cashapp") {
        Ok(AnyPaymentProvider::CashApp(CashAppProvider::new()))
    } else {
        proof {
            assert(!registered_keys().contains(key@)) by {
                if registered_keys().contains(key@) {
                    let i = choose|i: int| 0 <= i < 6 && registered_keys()[i] == key@;
                    assert(0 <= i < 6);
                }
            }
        }
        Err(BillingError::UnknownProvider { key: string_of(key) })
    }
}

/// List all registered payment provider keys.
pub fn registered_provider_keys() -> (r: &'static [&'static str])
    ensures
        r@.len() == registered_keys().len(),
        forall|i: int| 0 <= i < r@.len() ==> #[trigger] r@[i]@ == registered_keys()[i],
{
    let keys: &'static [&'static str] = &["stripe", "crypto", "amex", "paypal", "venmo", "cashapp"];
    keys
}

} // verus!
