use zeroclaw::billing::display::CostDisplay;
use zeroclaw::billing::spending::WarningLevel;

#[test]
fn new_display_is_empty() {
    let display = CostDisplay::new();
    assert_eq!(display.session_tasks(), 0);
    assert_eq!(display.session_cost_cents(), 0);
    assert!(!display.has_pending());
}

#[test]
fn record_accumulates() {
    let mut display = CostDisplay::new();
    display.record(10);
    display.record(10);
    display.record(10);

    assert!(display.has_pending());
    assert_eq!(display.session_tasks(), 3);
    assert_eq!(display.session_cost_cents(), 30);
}

#[test]
fn flush_returns_update_and_resets_pending() {
    let mut display = CostDisplay::new();
    display.record(10);
    display.record(10);

    let update = display.flush(980, WarningLevel::Normal).unwrap();
    assert_eq!(update.tasks_since_last, 2);
    assert_eq!(update.cost_since_last_cents, 20);
    assert_eq!(update.cost_since_last, "$0.20");
    assert_eq!(update.balance, "$9.80");
    assert_eq!(update.session_tasks, 2);
    assert_eq!(update.session_cost_cents, 20);
    assert_eq!(update.session_cost, "$0.20");
    assert_eq!(update.warning, WarningLevel::Normal);

    // Pending is cleared, session totals remain
    assert!(!display.has_pending());
    assert_eq!(display.session_tasks(), 2);
}

#[test]
fn flush_returns_none_when_no_activity() {
    let mut display = CostDisplay::new();
    assert!(display.flush(1000, WarningLevel::Normal).is_none());
}

#[test]
fn flush_with_warning() {
    let mut display = CostDisplay::new();
    display.record(10);
    let update = display.flush(150, WarningLevel::Low).unwrap();
    assert_eq!(update.warning, WarningLevel::Low);
}

#[test]
fn multiple_flushes_accumulate_session() {
    let mut display = CostDisplay::new();

    // First batch: 3 tasks
    display.record(10);
    display.record(10);
    display.record(10);
    let update1 = display.flush(970, WarningLevel::Normal).unwrap();
    assert_eq!(update1.tasks_since_last, 3);
    assert_eq!(update1.session_tasks, 3);

    // Second batch: 2 tasks
    display.record(10);
    display.record(10);
    let update2 = display.flush(950, WarningLevel::Normal).unwrap();
    assert_eq!(update2.tasks_since_last, 2);
    assert_eq!(update2.session_tasks, 5);
    assert_eq!(update2.session_cost_cents, 50);
}

#[test]
fn reset_session_clears_everything() {
    let mut display = CostDisplay::new();
    display.record(10);
    display.record(10);

    display.reset_session();
    assert!(!display.has_pending());
    assert_eq!(display.session_tasks(), 0);
    assert_eq!(display.session_cost_cents(), 0);
}

// ── Further checks ───────────────────────────────────────────────

#[test]
fn second_flush_without_activity_is_none() {
    let mut display = CostDisplay::new();
    display.record(15);
    assert!(display.flush(-5, WarningLevel::Critical).is_some());
    assert!(display.flush(-5, WarningLevel::Critical).is_none());
    assert_eq!(display.session_cost_cents(), 15);
}

#[test]
fn flush_formats_negative_balance() {
    let mut display = CostDisplay::new();
    display.record(125);
    let update = display.flush(-5, WarningLevel::Critical).unwrap();
    assert_eq!(update.balance, "-$0.05");
    assert_eq!(update.cost_since_last, "$1.25");
}

#[test]
fn can_record_cost_detects_overflow() {
    let mut display = CostDisplay::new();
    assert!(display.can_record_cost(u32::MAX));
    display.record(u32::MAX);
    assert!(!display.can_record_cost(1));
    assert!(display.can_record_cost(0));
}
