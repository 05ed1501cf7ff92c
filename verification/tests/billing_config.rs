use zeroclaw::billing::config::{
    default_confirmations, BalanceConfig, BillingConfig, BillingProvidersConfig, PricingConfig,
    SpendingConfig, UserTier,
};

#[test]
fn billing_config_default_is_disabled() {
    let config = BillingConfig::default();
    assert!(!config.enabled);
    assert!(config.default_provider.is_none());
    assert_eq!(config.default_currency, "USD");
}

#[test]
fn pricing_defaults_to_ten_cents() {
    let config = PricingConfig::default();
    assert_eq!(config.task_cost_cents, 10);
}

#[test]
fn spending_defaults_to_five_dollars_daily() {
    let config = SpendingConfig::default();
    assert_eq!(config.daily_limit_cents, 500);
}

#[test]
fn balance_defaults_match_mvp_spec() {
    let config = BalanceConfig::default();
    assert_eq!(config.min_topup_cents, 1000);
    assert_eq!(config.max_overdraft_cents, 200);
    assert_eq!(config.warning_thresholds_cents, vec![200, 100]);
    assert!(!config.refunds_enabled);
}

#[test]
fn user_tier_display() {
    assert_eq!(UserTier::Default.to_string(), "default");
    assert_eq!(UserTier::Paid.to_string(), "paid");
}

// ── Further checks ───────────────────────────────────────────────

#[test]
fn spending_defaults_enable_breaker_at_five() {
    let config = SpendingConfig::default();
    assert!(config.circuit_breaker_enabled);
    assert_eq!(config.circuit_breaker_threshold, 5);
}

#[test]
fn providers_default_to_unconfigured() {
    let providers = BillingProvidersConfig::default();
    assert!(providers.stripe.is_none());
    assert!(providers.paypal.is_none());
    assert!(providers.crypto.is_none());
    assert!(providers.amex.is_none());
    assert!(providers.venmo.is_none());
    assert!(providers.cashapp.is_none());
    assert_eq!(default_confirmations(), 6);
}

#[test]
fn duplicate_copies_balance_config() {
    let mut config = BalanceConfig::default();
    config.warning_thresholds_cents = vec![300, 150, 50];
    config.min_topup_cents = 2500;
    let copy = config.duplicate();
    assert_eq!(copy.warning_thresholds_cents, vec![300, 150, 50]);
    assert_eq!(copy.min_topup_cents, 2500);
}
