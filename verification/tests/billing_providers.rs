use zeroclaw::billing::traits::{
    Currency, Money, PaymentIntentRequest, PaymentProvider, PaymentStatus, RefundRequest,
};
use zeroclaw::billing::{
    AmexProvider, CashAppProvider, CryptoProvider, PaypalProvider, StripeProvider, VenmoProvider,
};

#[test]
fn stripe_provider_name() {
    let provider = StripeProvider::new();
    assert_eq!(provider.name(), "stripe");
}

#[test]
fn stripe_supports_fiat_currencies() {
    let provider = StripeProvider::new();
    assert!(provider.supports_currency(&Currency::Usd));
    assert!(provider.supports_currency(&Currency::Eur));
    assert!(!provider.supports_currency(&Currency::Btc));
}

#[test]
fn stripe_initialize_returns_not_implemented() {
    let provider = StripeProvider::new();
    let result = provider.initialize();
    assert!(result.is_err());
    assert!(result
        .unwrap_err()
        .to_string()
        .contains("not yet implemented"));
}

#[test]
fn stripe_operations_name_themselves() {
    let provider = StripeProvider::new();
    let request = PaymentIntentRequest {
        amount: Money { amount_minor: 100, currency: Currency::Usd },
        payer_id: "tenant_001".into(),
        description: None,
        idempotency_key: None,
    };
    assert_eq!(
        provider.create_payment_intent(&request).unwrap_err().to_string(),
        "StripeProvider::create_payment_intent is not yet implemented"
    );
    assert_eq!(
        provider.verify_payment("pi_1").unwrap_err().to_string(),
        "StripeProvider::verify_payment is not yet implemented"
    );
    let refund = RefundRequest { payment_id: "pi_1".into(), amount: None, reason: None };
    assert_eq!(
        provider.refund(&refund).unwrap_err().to_string(),
        "StripeProvider::refund is not yet implemented"
    );
    assert_eq!(
        provider.initialize().unwrap_err().to_string(),
        "StripeProvider is not yet implemented"
    );
    assert!(provider.health_check());
    let _ = PaymentStatus::Pending;
}

#[test]
fn crypto_provider_name() {
    let provider = CryptoProvider::new();
    assert_eq!(provider.name(), "crypto");
}

#[test]
fn crypto_supports_only_crypto_currencies() {
    let provider = CryptoProvider::new();
    assert!(provider.supports_currency(&Currency::Btc));
    assert!(provider.supports_currency(&Currency::Eth));
    assert!(provider.supports_currency(&Currency::Usdc));
    assert!(!provider.supports_currency(&Currency::Usd));
    assert!(!provider.supports_currency(&Currency::Eur));
}

#[test]
fn crypto_initialize_returns_not_implemented() {
    let provider = CryptoProvider::new();
    let result = provider.initialize();
    assert!(result.is_err());
    assert!(result
        .unwrap_err()
        .to_string()
        .contains("not yet implemented"));
}

#[test]
fn crypto_operations_name_themselves() {
    let provider = CryptoProvider::new();
    let request = PaymentIntentRequest {
        amount: Money { amount_minor: 100, currency: Currency::Usd },
        payer_id: "tenant_001".into(),
        description: None,
        idempotency_key: None,
    };
    assert_eq!(
        provider.create_payment_intent(&request).unwrap_err().to_string(),
        "CryptoProvider::create_payment_intent is not yet implemented"
    );
    assert_eq!(
        provider.verify_payment("pi_1").unwrap_err().to_string(),
        "CryptoProvider::verify_payment is not yet implemented"
    );
    let refund = RefundRequest { payment_id: "pi_1".into(), amount: None, reason: None };
    assert_eq!(
        provider.refund(&refund).unwrap_err().to_string(),
        "CryptoProvider::refund is not yet implemented"
    );
    assert_eq!(
        provider.initialize().unwrap_err().to_string(),
        "CryptoProvider is not yet implemented"
    );
    assert!(provider.health_check());
    let _ = PaymentStatus::Pending;
}

#[test]
fn amex_provider_name() {
    let provider = AmexProvider::new();
    assert_eq!(provider.name(), "amex");
}

#[test]
fn amex_supports_fiat_currencies() {
    let provider = AmexProvider::new();
    assert!(provider.supports_currency(&Currency::Usd));
    assert!(provider.supports_currency(&Currency::Gbp));
    assert!(!provider.supports_currency(&Currency::Btc));
}

#[test]
fn amex_initialize_returns_not_implemented() {
    let provider = AmexProvider::new();
    let result = provider.initialize();
    assert!(result.is_err());
    assert!(result
        .unwrap_err()
        .to_string()
        .contains("not yet implemented"));
}

#[test]
fn amex_operations_name_themselves() {
    let provider = AmexProvider::new();
    let request = PaymentIntentRequest {
        amount: Money { amount_minor: 100, currency: Currency::Usd },
        payer_id: "tenant_001".into(),
        description: None,
        idempotency_key: None,
    };
    assert_eq!(
        provider.create_payment_intent(&request).unwrap_err().to_string(),
        "AmexProvider::create_payment_intent is not yet implemented"
    );
    assert_eq!(
        provider.verify_payment("pi_1").unwrap_err().to_string(),
        "AmexProvider::verify_payment is not yet implemented"
    );
    let refund = RefundRequest { payment_id: "pi_1".into(), amount: None, reason: None };
    assert_eq!(
        provider.refund(&refund).unwrap_err().to_string(),
        "AmexProvider::refund is not yet implemented"
    );
    assert_eq!(
        provider.initialize().unwrap_err().to_string(),
        "AmexProvider is not yet implemented"
    );
    assert!(provider.health_check());
    let _ = PaymentStatus::Pending;
}

#[test]
fn paypal_provider_name() {
    let provider = PaypalProvider::new();
    assert_eq!(provider.name(), "paypal");
}

#[test]
fn paypal_supports_fiat_currencies() {
    let provider = PaypalProvider::new();
    assert!(provider.supports_currency(&Currency::Usd));
    assert!(provider.supports_currency(&Currency::Eur));
    assert!(!provider.supports_currency(&Currency::Btc));
}

#[test]
fn paypal_initialize_returns_not_implemented() {
    let provider = PaypalProvider::new();
    let result = provider.initialize();
    assert!(result.is_err());
    assert!(result
        .unwrap_err()
        .to_string()
        .contains("not yet implemented"));
}

#[test]
fn paypal_operations_name_themselves() {
    let provider = PaypalProvider::new();
    let request = PaymentIntentRequest {
        amount: Money { amount_minor: 100, currency: Currency::Usd },
        payer_id: "tenant_001".into(),
        description: None,
        idempotency_key: None,
    };
    assert_eq!(
        provider.create_payment_intent(&request).unwrap_err().to_string(),
        "PaypalProvider::create_payment_intent is not yet implemented"
    );
    assert_eq!(
        provider.verify_payment("pi_1").unwrap_err().to_string(),
        "PaypalProvider::verify_payment is not yet implemented"
    );
    let refund = RefundRequest { payment_id: "pi_1".into(), amount: None, reason: None };
    assert_eq!(
        provider.refund(&refund).unwrap_err().to_string(),
        "PaypalProvider::refund is not yet implemented"
    );
    assert_eq!(
        provider.initialize().unwrap_err().to_string(),
        "PaypalProvider is not yet implemented"
    );
    assert!(provider.health_check());
    let _ = PaymentStatus::Pending;
}

#[test]
fn venmo_provider_name() {
    let provider = VenmoProvider::new();
    assert_eq!(provider.name(), "venmo");
}

#[test]
fn venmo_supports_usd_only() {
    let provider = VenmoProvider::new();
    assert!(provider.supports_currency(&Currency::Usd));
    assert!(!provider.supports_currency(&Currency::Eur));
    assert!(!provider.supports_currency(&Currency::Btc));
}

#[test]
fn venmo_initialize_returns_not_implemented() {
    let provider = VenmoProvider::new();
    let result = provider.initialize();
    assert!(result.is_err());
    assert!(result
        .unwrap_err()
        .to_string()
        .contains("not yet implemented"));
}

#[test]
fn venmo_operations_name_themselves() {
    let provider = VenmoProvider::new();
    let request = PaymentIntentRequest {
        amount: Money { amount_minor: 100, currency: Currency::Usd },
        payer_id: "tenant_001".into(),
        description: None,
        idempotency_key: None,
    };
    assert_eq!(
        provider.create_payment_intent(&request).unwrap_err().to_string(),
        "VenmoProvider::create_payment_intent is not yet implemented"
    );
    assert_eq!(
        provider.verify_payment("pi_1").unwrap_err().to_string(),
        "VenmoProvider::verify_payment is not yet implemented"
    );
    let refund = RefundRequest { payment_id: "pi_1".into(), amount: None, reason: None };
    assert_eq!(
        provider.refund(&refund).unwrap_err().to_string(),
        "VenmoProvider::refund is not yet implemented"
    );
    assert_eq!(
        provider.initialize().unwrap_err().to_string(),
        "VenmoProvider is not yet implemented"
    );
    assert!(provider.health_check());
    let _ = PaymentStatus::Pending;
}

#[test]
fn cashapp_provider_name() {
    let provider = CashAppProvider::new();
    assert_eq!(provider.name(), "cashapp");
}

#[test]
fn cashapp_supports_usd_and_gbp() {
    let provider = CashAppProvider::new();
    assert!(provider.supports_currency(&Currency::Usd));
    assert!(provider.supports_currency(&Currency::Gbp));
    assert!(!provider.supports_currency(&Currency::Eur));
    assert!(!provider.supports_currency(&Currency::Btc));
}

#[test]
fn cashapp_initialize_returns_not_implemented() {
    let provider = CashAppProvider::new();
    let result = provider.initialize();
    assert!(result.is_err());
    assert!(result
        .unwrap_err()
        .to_string()
        .contains("not yet implemented"));
}

#[test]
fn cashapp_operations_name_themselves() {
    let provider = CashAppProvider::new();
    let request = PaymentIntentRequest {
        amount: Money { amount_minor: 100, currency: Currency::Usd },
        payer_id: "tenant_001".into(),
        description: None,
        idempotency_key: None,
    };
    assert_eq!(
        provider.create_payment_intent(&request).unwrap_err().to_string(),
        "CashAppProvider::create_payment_intent is not yet implemented"
    );
    assert_eq!(
        provider.verify_payment("pi_1").unwrap_err().to_string(),
        "CashAppProvider::verify_payment is not yet implemented"
    );
    let refund = RefundRequest { payment_id: "pi_1".into(), amount: None, reason: None };
    assert_eq!(
        provider.refund(&refund).unwrap_err().to_string(),
        "CashAppProvider::refund is not yet implemented"
    );
    assert_eq!(
        provider.initialize().unwrap_err().to_string(),
        "CashAppProvider is not yet implemented"
    );
    assert!(provider.health_check());
    let _ = PaymentStatus::Pending;
}
