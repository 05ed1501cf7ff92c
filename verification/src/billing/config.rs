//! Billing configuration schema.
//!
//! All amounts are stored in cents (USD minor units).
//!
//! # Billing Model
//!
//! - Flat $0.10 per task for all users on the default tier.
//! - Self-hosted Gemma as the default LLM (no per-token API cost to the user).
//! - Paid tier unlocks BYOK (bring your own API key) — no LLM markup.
//! - Prepaid balance with $10 minimum top-up, no refunds.
//! - $5/day default spending limit (soft cap).
//! - Low balance warnings at $2 and $1.
//! - Up to $2 negative overdraft allowed (temporary policy).
//! - Real-time cost display with batched updates.
use vstd::prelude::*;
use crate::text::string_of;

verus! {

/// Top-level billing configuration. Every field has a safe default.
#[derive(Debug, Clone)]
pub struct BillingConfig {
    /// Whether billing is enabled. Default: `false`.
    pub enabled: bool,
    /// Default payment provider key for top-ups (e.g. `"stripe"`, `"paypal"`).
    pub default_provider: Option<String>,
    /// Default currency for charges. Default: `"USD"`.
    pub default_currency: String,
    /// Per-provider configuration sections (for top-up payment processing).
    pub providers: BillingProvidersConfig,
    /// Task pricing configuration.
    pub pricing: PricingConfig,
    /// Spending limits and controls.
    pub spending: SpendingConfig,
    /// Balance and top-up configuration.
    pub balance: BalanceConfig,
}

impl Default for BillingConfig {
    fn default() -> (r: Self)
        ensures
            !r.enabled,
            r.default_provider is None,
            r.default_currency@ == "USD"@,
            r.providers.is_empty(),
            r.pricing.task_cost_cents == 10,
            r.spending.daily_limit_cents == 500,
            r.spending.circuit_breaker_enabled,
            r.spending.circuit_breaker_threshold == 5,
            r.balance.min_topup_cents == 1000,
            r.balance.max_overdraft_cents == 200,
            r.balance.warning_thresholds_cents@ == seq![200u32, 100u32],
            !r.balance.refunds_enabled,
    {
        BillingConfig {
            enabled: false,
            default_provider: None,
            default_currency: default_currency(),
            providers: BillingProvidersConfig::default(),
            pricing: PricingConfig::default(),
            spending: SpendingConfig::default(),
            balance: BalanceConfig::default(),
        }
    }
}

/// The default currency code, `USD`.
pub fn default_currency() -> (r: String)
    ensures
        r@ == "USD"@,
{
    string_of("USD")
}

// ── User tier ───────────────────────────────────────────────────

/// User billing tier: determines the LLM access model.
#[derive(Debug, Clone, Copy, PartialEq, Eq, Structural)]
pub enum UserTier {
    /// Default tier: uses platform-hosted Gemma, flat $0.10/task rate.
    Default,
    /// Paid tier: can bring own API key (BYOK), skips LLM markup,
    /// still pays platform fees per task.
    Paid,
}

/// The lower-case name of a tier.
pub open spec fn tier_name(t: UserTier) -> Seq<char> {
    match t {
        UserTier::Default => "default"@,
        UserTier::Paid => "paid"@,
    }
}

impl UserTier {
    /// The lower-case tier name, `default` or `paid`.
    pub fn to_string(&self) -> (r: String)
        ensures
            r@ == tier_name(*self),
    {
        match self {
            UserTier::Default => string_of("default"),
            UserTier::Paid => string_of("paid"),
        }
    }
}

// ── Pricing ─────────────────────────────────────────────────────

/// Task pricing configuration: a flat per-task rate regardless of complexity.
#[derive(Debug, Clone)]
pub struct PricingConfig {
    /// Cost per task in cents. Default: 10 ($0.10).
    pub task_cost_cents: u32,
}

impl Default for PricingConfig {
    fn default() -> (r: Self)
        ensures
            r.task_cost_cents == 10,
    {
        PricingConfig { task_cost_cents: default_task_cost_cents() }
    }
}

/// Default task cost: 10 cents.
pub fn default_task_cost_cents() -> (r: u32)
    ensures
        r == 10,
{
    10
}

// ── Spending limits ─────────────────────────────────────────────

/// Spending limit and budget enforcement configuration.
#[derive(Debug, Clone)]
pub struct SpendingConfig {
    /// Daily spending limit in cents. Default: 500 ($5.00).
    pub daily_limit_cents: u32,
    /// Whether the circuit breaker auto-halts on repeated payment failures.
    pub circuit_breaker_enabled: bool,
    /// Number of consecutive failures before circuit breaker trips.
    pub circuit_breaker_threshold: u32,
}

impl Default for SpendingConfig {
    fn default() -> (r: Self)
        ensures
            r.daily_limit_cents == 500,
            r.circuit_breaker_enabled,
            r.circuit_breaker_threshold == 5,
    {
        SpendingConfig {
            daily_limit_cents: default_daily_limit_cents(),
            circuit_breaker_enabled: default_true(),
            circuit_breaker_threshold: default_circuit_breaker_threshold(),
        }
    }
}

/// Default daily limit: 500 cents.
pub fn default_daily_limit_cents() -> (r: u32)
    ensures
        r == 500,
{
    500
}

/// Default circuit breaker threshold: 5 consecutive failures.
pub fn default_circuit_breaker_threshold() -> (r: u32)
    ensures
        r == 5,
{
    5
}

/// The default for switches that are on unless configured otherwise.
pub fn default_true() -> (r: bool)
    ensures
        r,
{
    true
}

// ── Balance ─────────────────────────────────────────────────────

/// Balance and top-up configuration.
#[derive(Debug, Clone)]
pub struct BalanceConfig {
    /// Minimum top-up amount in cents. Default: 1000 ($10.00).
    pub min_topup_cents: u32,
    /// Maximum allowed overdraft in cents. Default: 200 ($2.00).
    pub max_overdraft_cents: u32,
    /// Balance thresholds (in cents) at which low-balance warnings fire.
    /// Default: [200, 100] ($2.00 and $1.00).
    pub warning_thresholds_cents: Vec<u32>,
    /// Whether refunds are allowed. Default: `false` (no refunds).
    pub refunds_enabled: bool,
}

impl Default for BalanceConfig {
    fn default() -> (r: Self)
        ensures
            r.min_topup_cents == 1000,
            r.max_overdraft_cents == 200,
            r.warning_thresholds_cents@ == seq![200u32, 100u32],
            !r.refunds_enabled,
    {
        BalanceConfig {
            min_topup_cents: default_min_topup_cents(),
            max_overdraft_cents: default_max_overdraft_cents(),
            warning_thresholds_cents: default_warning_thresholds_cents(),
            refunds_enabled: false,
        }
    }
}

impl BalanceConfig {
    /// A field-by-field copy of this configuration.
    pub fn duplicate(&self) -> (r: Self)
        ensures
            r.min_topup_cents == self.min_topup_cents,
            r.max_overdraft_cents == self.max_overdraft_cents,
            r.warning_thresholds_cents@ == self.warning_thresholds_cents@,
            r.refunds_enabled == self.refunds_enabled,
    {
        BalanceConfig {
            min_topup_cents: self.min_topup_cents,
            max_overdraft_cents: self.max_overdraft_cents,
            warning_thresholds_cents: copy_thresholds(&self.warning_thresholds_cents),
            refunds_enabled: self.refunds_enabled,
        }
    }
}

/// A copy of a list of thresholds.
pub fn copy_thresholds(v: &Vec<u32>) -> (r: Vec<u32>)
    ensures
        r@ == v@,
{
    let mut out: Vec<u32> = Vec::new();
    let mut i: usize = 0;
    while i < v.len()
        invariant
            0 <= i <= v@.len(),
            out@ == v@.subrange(0, i as int),
        decreases v@.len() - i,
    {
        out.push(v[i]);
        i = i + 1;
        proof {
            assert(out@ =~= v@.subrange(0, i as int));
        }
    }
    proof {
        assert(v@.subrange(0, v@.len() as int) =~= v@);
    }
    out
}

/// Default minimum top-up: 1000 cents.
pub fn default_min_topup_cents() -> (r: u32)
    ensures
        r == 1000,
{
    1000
}

/// Default maximum overdraft: 200 cents.
pub fn default_max_overdraft_cents() -> (r: u32)
    ensures
        r == 200,
{
    200
}

/// Default warning thresholds: 200 and 100 cents.
pub fn default_warning_thresholds_cents() -> (r: Vec<u32>)
    ensures
        r@ == seq![200u32, 100u32],
{
    let mut v: Vec<u32> = Vec::new();
    v.push(200);
    v.push(100);
    proof {
        assert(v@ =~= seq![200u32, 100u32]);
    }
    v
}

// ── Payment provider configs ────────────────────────────────────

/// Per-provider credential and endpoint configuration.
///
/// Each field is optional; only configured providers will be available at runtime.
#[derive(Debug, Clone)]
pub struct BillingProvidersConfig {
    pub stripe: Option<StripeConfig>,
    pub paypal: Option<PaypalConfig>,
    pub crypto: Option<CryptoConfig>,
    pub amex: Option<AmexConfig>,
    pub venmo: Option<VenmoConfig>,
    pub cashapp: Option<CashAppConfig>,
}

impl BillingProvidersConfig {
    /// Whether no provider is configured.
    pub open spec fn is_empty(&self) -> bool {
        &&& self.stripe is None
        &&& self.paypal is None
        &&& self.crypto is None
        &&& self.amex is None
        &&& self.venmo is None
        &&& self.cashapp is None
    }
}

impl Default for BillingProvidersConfig {
    fn default() -> (r: Self)
        ensures
            r.is_empty(),
    {
        BillingProvidersConfig {
            stripe: None,
            paypal: None,
            crypto: None,
            amex: None,
            venmo: None,
            cashapp: None,
        }
    }
}

/// Stripe provider configuration.
#[derive(Debug, Clone)]
pub struct StripeConfig {
    pub api_key: Option<String>,
    pub webhook_secret: Option<String>,
}

/// PayPal provider configuration.
#[derive(Debug, Clone)]
pub struct PaypalConfig {
    pub client_id: Option<String>,
    pub client_secret: Option<String>,
    /// Whether to use the sandbox environment. Default: `true`.
    pub sandbox: bool,
}

/// Crypto payment configuration.
#[derive(Debug, Clone)]
pub struct CryptoConfig {
    pub rpc_url: Option<String>,
    /// Confirmations required before a payment counts. Default: 6.
    pub confirmations_required: u32,
}

/// Default confirmations required for crypto payments: 6.
pub fn default_confirmations() -> (r: u32)
    ensures
        r == 6,
{
    6
}

/// Amex provider configuration.
#[derive(Debug, Clone)]
pub struct AmexConfig {
    pub merchant_id: Option<String>,
}

/// Venmo provider configuration (via Braintree).
#[derive(Debug, Clone)]
pub struct VenmoConfig {
    pub merchant_id: Option<String>,
    pub public_key: Option<String>,
    pub private_key: Option<String>,
}

/// Cash App provider configuration (via Square).
#[derive(Debug, Clone)]
pub struct CashAppConfig {
    pub access_token: Option<String>,
    pub location_id: Option<String>,
}

} // verus!
