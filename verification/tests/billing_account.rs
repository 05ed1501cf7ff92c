use zeroclaw::billing::account::UserAccount;
use zeroclaw::billing::config::{BillingConfig, UserTier};

fn test_config() -> BillingConfig {
    BillingConfig::default()
}

#[test]
fn new_account_starts_with_zero_balance() {
    let config = test_config();
    let account = UserAccount::new("user_a", &config);
    assert_eq!(account.balance_cents(), 0);
    assert_eq!(account.tier, UserTier::Default);
    assert!(!account.has_own_api_key);
    assert!(account.uses_platform_llm());
}

#[test]
fn paid_account_uses_own_key() {
    let config = test_config();
    let account = UserAccount::new_paid("user_a", &config);
    assert_eq!(account.tier, UserTier::Paid);
    assert!(account.has_own_api_key);
    assert!(!account.uses_platform_llm());
}

#[test]
fn top_up_and_run_tasks() {
    let config = test_config();
    let mut account = UserAccount::new("user_a", &config);

    // Top up $10.00
    let result = account.top_up(1000).unwrap();
    assert_eq!(result.new_balance_cents, 1000);

    // Run 5 tasks ($0.50 total)
    for _ in 0..5 {
        let preflight = account.start_task();
        assert!(preflight.allowed);
        let charge = account.complete_task();
        assert!(charge.charged);
    }

    assert_eq!(account.balance_cents(), 950);
    assert_eq!(account.tasks_today(), 5);
    assert_eq!(account.spent_today_cents(), 50);
}

#[test]
fn top_up_rejects_below_minimum() {
    let config = test_config();
    let mut account = UserAccount::new("user_a", &config);
    let result = account.top_up(500); // $5 < $10 minimum
    assert!(result.is_err());
}

#[test]
fn daily_limit_blocks_new_tasks() {
    let config = test_config();
    let mut account = UserAccount::new("user_a", &config);
    account.top_up(5000).unwrap(); // $50.00

    // Run 50 tasks to hit $5.00 daily limit
    for _ in 0..50 {
        account.complete_task();
    }

    let preflight = account.start_task();
    assert!(!preflight.allowed);
    assert!(preflight.reason.unwrap().contains("Daily spending limit"));
}

#[test]
fn daily_reset_allows_new_tasks() {
    let config = test_config();
    let mut account = UserAccount::new("user_a", &config);
    account.top_up(5000).unwrap();

    // Hit daily limit
    for _ in 0..50 {
        account.complete_task();
    }
    assert!(!account.start_task().allowed);

    // Reset daily counters
    account.reset_daily();
    assert!(account.start_task().allowed);
}

#[test]
fn set_daily_limit() {
    let config = test_config();
    let mut account = UserAccount::new("user_a", &config);
    assert_eq!(account.daily_limit_cents(), 500);

    account.set_daily_limit(2000); // $20/day
    assert_eq!(account.daily_limit_cents(), 2000);
}

#[test]
fn summary_reflects_state() {
    let config = test_config();
    let mut account = UserAccount::new("user_a", &config);
    account.top_up(1000).unwrap();
    account.complete_task();

    let summary = account.summary();
    assert_eq!(summary.user_id, "user_a");
    assert_eq!(summary.tier, UserTier::Default);
    assert_eq!(summary.balance_cents, 990);
    assert_eq!(summary.tasks_today, 1);
    assert!(summary.uses_platform_llm);
}

#[test]
fn circuit_breaker_blocks_tasks() {
    let config = test_config();
    let mut account = UserAccount::new("user_a", &config);
    account.top_up(1000).unwrap();

    // Trip circuit breaker (5 failures)
    for _ in 0..5 {
        account.record_payment_failure();
    }

    let preflight = account.start_task();
    assert!(!preflight.allowed);
    assert!(preflight.reason.unwrap().contains("temporarily halted"));

    // Recovery
    account.record_payment_success();
    assert!(account.start_task().allowed);
}

// ── Further checks of the account rules ──────────────────────────

#[test]
fn top_up_error_names_the_minimum() {
    let config = test_config();
    let mut account = UserAccount::new("user_a", &config);
    let err = account.top_up(500).err().unwrap();
    assert_eq!(err.to_string(), "Minimum top-up is $10.00 (requested $5.00)");
    assert_eq!(account.balance_cents(), 0);
}

#[test]
fn summary_formats_amounts() {
    let config = test_config();
    let mut account = UserAccount::new("user_a", &config);
    account.top_up(1234).unwrap();
    account.complete_task();
    let summary = account.summary();
    assert_eq!(summary.balance_display, "$12.24");
    assert_eq!(summary.spent_today_display, "$0.10");
    assert_eq!(summary.daily_limit_display, "$5.00");
    assert_eq!(summary.spent_today_cents, 10);
}

#[test]
fn preflight_on_empty_account_is_allowed_within_overdraft() {
    let config = test_config();
    let account = UserAccount::new("user_a", &config);
    // $0.00 balance, $0.10 task: -$0.10 stays within the $2.00 overdraft.
    let preflight = account.start_task();
    assert!(preflight.allowed);
    assert_eq!(preflight.balance_display, "$0.00");
}

#[test]
fn restore_balance_sets_balance() {
    let config = test_config();
    let mut account = UserAccount::new("user_a", &config);
    account.restore_balance(-150);
    assert_eq!(account.balance_cents(), -150);
    assert_eq!(account.balance_display(), "-$1.50");
}

#[test]
fn overdraft_stops_charging_after_limit() {
    let config = test_config();
    let mut account = UserAccount::new("user_a", &config);
    // 20 tasks take the balance to -$2.00; the 21st is refused.
    for _ in 0..20 {
        assert!(account.complete_task().charged);
    }
    assert_eq!(account.balance_cents(), -200);
    let refused = account.complete_task();
    assert!(!refused.charged);
    assert_eq!(refused.amount_cents, 0);
    assert_eq!(account.balance_cents(), -200);
    assert_eq!(account.tasks_today(), 20);
}

#[test]
fn configured_overdraft_decides_admission_and_charge() {
    let mut config = test_config();
    config.balance.max_overdraft_cents = 500;
    let mut account = UserAccount::new("user_a", &config);
    account.restore_balance(-300);
    assert!(account.start_task().allowed);
    assert!(account.complete_task().charged);
    assert_eq!(account.balance_cents(), -310);
    account.restore_balance(-495);
    let preflight = account.start_task();
    assert!(!preflight.allowed);
    assert!(preflight.reason.unwrap().contains("Insufficient balance"));
    assert!(!account.complete_task().charged);
    assert_eq!(account.balance_cents(), -495);

    let default_account = {
        let mut a = UserAccount::new("user_b", &test_config());
        a.restore_balance(-300);
        a
    };
    assert!(!default_account.start_task().allowed);
}
