//! Concrete instances of the billing laws.
use zeroclaw::billing::account::UserAccount;
use zeroclaw::billing::config::BillingConfig;
use zeroclaw::billing::display::CostDisplay;
use zeroclaw::billing::spending::{CircuitBreaker, PrepaymentBalance, UsageTracker, WarningLevel};

#[test]
fn admitted_tasks_never_overrun_daily_limit() {
    let config = BillingConfig::default();
    let mut account = UserAccount::new("user_a", &config);
    account.top_up(10_000).unwrap();
    let mut admitted = 0;
    for _ in 0..80 {
        if account.start_task().allowed {
            admitted += 1;
            account.complete_task();
        }
        assert!(account.spent_today_cents() <= account.daily_limit_cents());
    }
    assert_eq!(admitted, 50);
}

#[test]
fn breaker_trips_exactly_at_threshold() {
    for threshold in 1..6u32 {
        let mut breaker = CircuitBreaker::new(threshold);
        for n in 1..10u32 {
            breaker.record_failure();
            assert_eq!(breaker.is_allowed(), n < threshold);
        }
        breaker.record_success();
        assert!(breaker.is_allowed());
    }
}

#[test]
fn display_totals_are_sums() {
    let mut display = CostDisplay::new();
    let costs = [10u32, 25, 0, 7];
    for c in costs {
        display.record(c);
    }
    assert_eq!(display.session_tasks(), 4);
    assert_eq!(display.session_cost_cents(), 42);
    display.flush(0, WarningLevel::Critical);
    assert_eq!(display.session_cost_cents(), 42);
}

#[test]
fn recorded_spend_is_read_back() {
    let mut tracker = UsageTracker::new();
    tracker.record("a", 300);
    tracker.record("b", 50);
    tracker.record("a", 200);
    assert_eq!(tracker.current_spend("a"), 500);
    assert_eq!(tracker.current_spend("b"), 50);
    assert_eq!(tracker.current_spend("c"), 0);
    assert_eq!(tracker.daily_task_count("a"), 0);
}

#[test]
fn recorded_tasks_are_read_back_until_reset() {
    let mut tracker = UsageTracker::new();
    tracker.record_task("a", 10);
    tracker.record_task("a", 10);
    tracker.record_task("b", 5);
    assert_eq!((tracker.daily_task_count("a"), tracker.daily_spend_cents("a")), (2, 20));
    assert_eq!(tracker.current_spend("a"), 20);
    assert_eq!(tracker.daily_spend_cents("b"), 5);
    tracker.reset_daily();
    assert_eq!((tracker.daily_task_count("a"), tracker.daily_spend_cents("a")), (0, 0));
    assert_eq!(tracker.current_spend("a"), 20);
    assert_eq!(tracker.current_spend("b"), 5);
}

#[test]
fn debit_undoes_credit() {
    let mut balance = PrepaymentBalance::with_balance("user_a", 120);
    balance.credit(1000);
    assert!(balance.debit(1000));
    assert_eq!(balance.balance(), 120);
    let mut negative = PrepaymentBalance::with_balance("user_b", -50);
    negative.credit(100);
    assert!(!negative.debit(100));
    assert_eq!(negative.balance(), 50);
}
