use zeroclaw::billing::traits::{Currency, Money, PaymentIntentRequest, RefundRequest};
use zeroclaw::billing::{create_payment_provider, registered_provider_keys, PaymentProvider};

#[test]
fn factory_creates_all_registered_providers() {
    for key in registered_provider_keys() {
        let provider = create_payment_provider(key).unwrap_or_else(|e| {
            panic!("Failed to create provider \"{key}\": {}", e.to_string())
        });
        assert_eq!(provider.name(), *key);
    }
}

#[test]
fn factory_rejects_unknown_key() {
    let result = create_payment_provider("unknown_provider");
    assert!(result.is_err());
    let err = result.err().unwrap().to_string();
    assert!(err.contains("Unknown payment provider"));
    assert!(err.contains("unknown_provider"));
}

#[test]
fn factory_error_lists_supported_keys() {
    let err = create_payment_provider("nope").err().unwrap().to_string();
    for key in registered_provider_keys() {
        assert!(
            err.contains(key),
            "Error should mention supported key \"{key}\""
        );
    }
}

#[test]
fn registered_keys_are_non_empty() {
    assert!(!registered_provider_keys().is_empty());
}

#[test]
fn registered_keys_are_lowercase() {
    for key in registered_provider_keys() {
        assert_eq!(
            *key,
            key.to_lowercase(),
            "Factory key \"{key}\" must be lowercase"
        );
    }
}

// ── Further checks ───────────────────────────────────────────────

#[test]
fn factory_error_text_is_exact() {
    let err = create_payment_provider("Stripe").err().unwrap().to_string();
    assert_eq!(
        err,
        "Unknown payment provider: \"Stripe\". Supported: stripe, crypto, amex, paypal, venmo, cashapp"
    );
}

#[test]
fn registered_keys_in_order() {
    assert_eq!(
        registered_provider_keys(),
        &["stripe", "crypto", "amex", "paypal", "venmo", "cashapp"]
    );
}

#[test]
fn factory_providers_keep_their_behaviour() {
    let crypto = create_payment_provider("crypto").unwrap();
    assert!(crypto.supports_currency(&Currency::Btc));
    assert!(!crypto.supports_currency(&Currency::Usd));
    assert!(crypto.health_check());
    let err = crypto.initialize().unwrap_err().to_string();
    assert_eq!(err, "CryptoProvider is not yet implemented");
}

#[test]
fn factory_providers_name_their_operations() {
    let provider = create_payment_provider("cashapp").unwrap();
    let request = RefundRequest { payment_id: "pi_1".to_string(), amount: None, reason: None };
    assert_eq!(provider.refund(&request).unwrap_err().to_string(), "CashAppProvider::refund is not yet implemented");
    assert_eq!(
        provider.verify_payment("pi_1").unwrap_err().to_string(),
        "CashAppProvider::verify_payment is not yet implemented"
    );
    let intent = PaymentIntentRequest {
        amount: Money { amount_minor: 100, currency: Currency::Usd },
        payer_id: "u".to_string(),
        description: None,
        idempotency_key: None,
    };
    assert_eq!(
        provider.create_payment_intent(&intent).unwrap_err().to_string(),
        "CashAppProvider::create_payment_intent is not yet implemented"
    );
    assert_eq!(provider.initialize().unwrap_err().to_string(), "CashAppProvider is not yet implemented");
}
