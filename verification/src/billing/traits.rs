//! Payment domain types and the payment provider trait.
//!
//! Every payment integration implements [`PaymentProvider`]. No provider performs real
//! payment processing yet: the operations report that they are not implemented.
use vstd::prelude::*;
use crate::billing::error::BillingError;
use crate::text::string_of;

verus! {

/// Supported currency codes (ISO 4217 subset plus crypto tickers).
#[derive(Debug, Clone, Copy, PartialEq, Eq, Hash, Structural)]
pub enum Currency {
    Usd,
    Eur,
    Gbp,
    Jpy,
    /// Bitcoin
    Btc,
    /// Ethereum
    Eth,
    /// USDC stablecoin
    Usdc,
}

/// The upper-case code of a currency.
pub open spec fn currency_code(c: Currency) -> Seq<char> {
    match c {
        Currency::Usd => "USD"@,
        Currency::Eur => "EUR"@,
        Currency::Gbp => "GBP"@,
        Currency::Jpy => "JPY"@,
        Currency::Btc => "BTC"@,
        Currency::Eth => "ETH"@,
        Currency::Usdc => "USDC"@,
    }
}

/// Whether a currency is one of the fiat currencies (USD, EUR, GBP, JPY).
pub open spec fn is_fiat(c: Currency) -> bool {
    c == Currency::Usd || c == Currency::Eur || c == Currency::Gbp || c == Currency::Jpy
}

impl Currency {
    /// The upper-case currency code, such as `USD`.
    pub fn code(&self) -> (r: &'static str)
        ensures
            r@ == currency_code(*self),
    {
        match self {
            Currency::Usd => "USD",
            Currency::Eur => "EUR",
            Currency::Gbp => "GBP",
            Currency::Jpy => "JPY",
            Currency::Btc => "BTC",
            Currency::Eth => "ETH",
            Currency::Usdc => "USDC",
        }
    }

    /// The currency code as an owned string.
    pub fn to_string(&self) -> (r: String)
        ensures
            r@ == currency_code(*self),
    {
        string_of(self.code())
    }
}

/// Amount with currency.
#[derive(Debug, Clone)]
pub struct Money {
    /// Amount in the smallest denomination (e.g. cents for USD, satoshi for BTC).
    pub amount_minor: u64,
    pub currency: Currency,
}

/// Request to create a payment intent.
#[derive(Debug, Clone)]
pub struct PaymentIntentRequest {
    /// Amount to charge.
    pub amount: Money,
    /// Opaque tenant/user identifier for the payer.
    pub payer_id: String,
    /// Free-form description shown on the invoice/receipt.
    pub description: Option<String>,
    /// Idempotency key to prevent duplicate charges.
    pub idempotency_key: Option<String>,
}

/// Result of a successfully created payment intent.
#[derive(Debug, Clone)]
pub struct PaymentIntent {
    /// Provider-assigned intent/transaction ID.
    pub id: String,
    /// Current status string (provider-specific, e.g. "requires_payment_method").
    pub status: String,
    /// Optional URL the payer should be redirected to for checkout.
    pub checkout_url: Option<String>,
}

/// Possible states returned by [`PaymentProvider::verify_payment`].
#[derive(Debug, Clone, PartialEq, Eq)]
pub enum PaymentStatus {
    Pending,
    Succeeded,
    Failed,
    Refunded,
    /// Provider returned an unrecognized status string.
    Unknown(String),
}

/// Request to issue a refund.
#[derive(Debug, Clone)]
pub struct RefundRequest {
    /// The ID of the payment intent or transaction being refunded.
    pub payment_id: String,
    /// Amount to refund. If `None`, refund the full amount.
    pub amount: Option<Money>,
    /// Reason for the refund.
    pub reason: Option<String>,
}

/// Result of a successfully issued refund.
#[derive(Debug, Clone)]
pub struct RefundResult {
    /// Provider-assigned refund ID.
    pub id: String,
    /// Refund status.
    pub status: String,
}

/// Core payment provider trait, implemented by each payment backend.
///
/// To add a new payment provider: implement this trait in its own module, add the
/// module to `billing`, and register its key in `create_payment_provider`.
pub trait PaymentProvider {
    /// The canonical lowercase key of this provider.
    spec fn provider_key(&self) -> Seq<char>;

    /// Whether this provider accepts the given currency.
    spec fn accepts(&self, currency: Currency) -> bool;

    /// Canonical lowercase provider name used as factory key (e.g. `"stripe"`).
    fn name(&self) -> (r: &'static str)
        ensures
            r@ == self.provider_key(),
    ;

    /// One-time initialization: establish connections, validate credentials, etc.
    fn initialize(&self) -> Result<(), BillingError>;

    /// Create a payment intent (authorize or begin a charge flow).
    fn create_payment_intent(&self, request: &PaymentIntentRequest) -> Result<
        PaymentIntent,
        BillingError,
    >;

    /// Query the current status of a previously created payment.
    fn verify_payment(&self, payment_id: &str) -> Result<PaymentStatus, BillingError>;

    /// Issue a full or partial refund.
    fn refund(&self, request: &RefundRequest) -> Result<RefundResult, BillingError>;

    /// Whether this provider supports the given currency.
    fn supports_currency(&self, currency: &Currency) -> (r: bool)
        ensures
            r == self.accepts(*currency),
    ;

    /// Optional health check; healthy unless a provider says otherwise.
    fn health_check(&self) -> (r: bool)
        default_ensures
            r,
    {
        true
    }
}

/// The "not implemented" error of an operation, named like `StripeProvider::refund`.
pub fn not_implemented(operation: &str) -> (r: BillingError)
    ensures
        r matches BillingError::NotImplemented { operation: op } && op@ == operation@,
{
    BillingError::NotImplemented { operation: string_of(operation) }
}

} // verus!
