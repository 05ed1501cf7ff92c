use zeroclaw::billing::traits::{Currency, Money, PaymentStatus, RefundRequest};

#[test]
fn currency_display_outputs_iso_codes() {
    assert_eq!(Currency::Usd.to_string(), "USD");
    assert_eq!(Currency::Eur.to_string(), "EUR");
    assert_eq!(Currency::Btc.to_string(), "BTC");
    assert_eq!(Currency::Usdc.to_string(), "USDC");
}

#[test]
fn payment_status_variants() {
    assert_eq!(PaymentStatus::Pending, PaymentStatus::Pending);
    assert_ne!(PaymentStatus::Succeeded, PaymentStatus::Failed);
    assert_eq!(
        PaymentStatus::Unknown("custom".into()),
        PaymentStatus::Unknown("custom".into())
    );
}

#[test]
fn refund_request_partial_amount() {
    let req = RefundRequest {
        payment_id: "pi_test_123".into(),
        amount: Some(Money {
            amount_minor: 500,
            currency: Currency::Usd,
        }),
        reason: Some("Customer request".into()),
    };
    assert!(req.amount.is_some());
}

#[test]
fn refund_request_full_amount() {
    let req = RefundRequest {
        payment_id: "pi_test_456".into(),
        amount: None,
        reason: None,
    };
    assert!(req.amount.is_none());
}

#[test]
fn currency_codes_of_remaining_currencies() {
    assert_eq!(Currency::Gbp.code(), "GBP");
    assert_eq!(Currency::Jpy.code(), "JPY");
    assert_eq!(Currency::Eth.code(), "ETH");
}
