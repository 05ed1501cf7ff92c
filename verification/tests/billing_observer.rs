use zeroclaw::billing::config::BillingConfig;
use zeroclaw::billing::observer::BillingSession;
use zeroclaw::billing::spending::WarningLevel;

fn test_session(enabled: bool) -> BillingSession {
    let mut config = BillingConfig::default();
    config.enabled = enabled;
    BillingSession::new(&config, "test_user", None)
}

#[test]
fn disabled_observer_passes_through() {
    let mut session = test_session(false);
    assert!(session.record_agent_start().is_none());
    assert!(session.record_agent_end().is_none());
    // No charge since disabled
    let summary = session.account_summary();
    assert_eq!(summary.tasks_today, 0);
}

#[test]
fn enabled_observer_charges_on_agent_end() {
    let mut session = test_session(true);
    // Top up first
    session.top_up(1000).unwrap();

    session.record_agent_start();
    session.record_agent_end();

    let summary = session.account_summary();
    assert_eq!(summary.tasks_today, 1);
    assert_eq!(summary.balance_cents, 990);
}

#[test]
fn observer_persists_balance() {
    let mut config = BillingConfig::default();
    config.enabled = true;

    // Create, top up, run a task; the caller writes the balance on flush.
    let persisted = {
        let mut session = BillingSession::new(&config, "test_user", None);
        session.top_up(1000).unwrap();
        session.record_agent_start();
        session.record_agent_end();
        session.balance_cents()
    };

    // Reload — balance should be restored
    let session2 = BillingSession::new(&config, "test_user", Some(persisted));
    let summary = session2.account_summary();
    assert_eq!(summary.balance_cents, 990);
}

#[test]
fn no_charge_without_agent_start() {
    let mut session = test_session(true);
    session.top_up(1000).unwrap();

    // AgentEnd without AgentStart — should not charge
    assert!(session.record_agent_end().is_none());

    let summary = session.account_summary();
    assert_eq!(summary.tasks_today, 0);
    assert_eq!(summary.balance_cents, 1000);
}

#[test]
fn flush_display_returns_update() {
    let mut session = test_session(true);
    session.top_up(1000).unwrap();

    session.record_agent_start();
    session.record_agent_end();

    let update = session.flush_display();
    assert!(update.is_some());
    let update = update.unwrap();
    assert_eq!(update.session_tasks, 1);
    assert_eq!(update.session_cost_cents, 10);
}

// ── Further checks ───────────────────────────────────────────────

#[test]
fn one_start_charges_once() {
    let mut session = test_session(true);
    session.top_up(1000).unwrap();
    let preflight = session.record_agent_start().unwrap();
    assert!(preflight.allowed);
    assert!(session.record_agent_end().unwrap().charged);
    assert!(session.record_agent_end().is_none());
    assert_eq!(session.balance_cents(), 990);
}

#[test]
fn flush_display_warns_at_low_balance() {
    let mut config = BillingConfig::default();
    config.enabled = true;
    let mut session = BillingSession::new(&config, "u", Some(105));
    assert!(session.display_has_room());
    session.record_agent_start();
    session.record_agent_end();
    let update = session.flush_display().unwrap();
    assert_eq!(update.balance, "$0.95");
    assert_eq!(update.warning, WarningLevel::Critical);
    assert!(session.flush_display().is_none());
    assert_eq!(session.user_id(), "u");
}

#[test]
fn session_limits_and_reset() {
    let mut session = test_session(true);
    session.top_up(5000).unwrap();
    session.set_daily_limit(20);
    for _ in 0..2 {
        session.record_agent_start();
        session.record_agent_end();
    }
    let blocked = session.record_agent_start().unwrap();
    assert!(!blocked.allowed);
    session.reset_daily();
    assert_eq!(session.account_summary().tasks_today, 0);
    assert_eq!(session.account_summary().daily_limit_cents, 20);
}

#[test]
fn second_end_without_start_charges_nothing() {
    let mut session = test_session(true);
    session.top_up(1000).unwrap();
    session.record_agent_start();
    session.record_agent_end();
    assert!(session.record_agent_end().is_none());
    let summary = session.account_summary();
    assert_eq!((summary.tasks_today, summary.balance_cents), (1, 990));
}

#[test]
fn agent_start_reports_balance_and_warning() {
    let mut session = test_session(true);
    session.top_up(1000).unwrap();
    let preflight = session.record_agent_start().unwrap();
    assert_eq!(preflight.balance_display, "$10.00");
    assert_eq!(preflight.warning, WarningLevel::Normal);
    assert_eq!(session.min_topup_cents(), 1000);
    assert!(session.will_charge_on_end());
    session.record_agent_end();
    assert!(!session.will_charge_on_end());
}

#[test]
fn refused_top_up_near_the_largest_balance() {
    let mut config = BillingConfig::default();
    config.enabled = true;
    let mut session = BillingSession::new(&config, "rich", Some(i64::MAX - 5));
    assert!(session.top_up(500).is_err());
    assert_eq!(session.balance_cents(), i64::MAX - 5);
}
