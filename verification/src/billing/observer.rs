//! Billing decisions of the agent lifecycle.
//!
//! A [`BillingSession`] meters tasks as they flow through the agent orchestration loop:
//! on agent start it runs a preflight check (the task is not blocked; the result is for
//! warnings), on agent end it charges the flat task rate and feeds the batched cost
//! display. When billing is disabled every event passes through without effect. Locking,
//! logging and writing the balance to disk belong to the caller.
use vstd::prelude::*;
use crate::billing::account::{AccountSummary, TopUpResult, UserAccount};
use crate::billing::config::{BillingConfig, UserTier};
use crate::billing::display::{after_record, can_record, CostDisplay, DisplayCounters, DisplayUpdate};
use crate::billing::error::BillingError;
use crate::billing::metering::{ChargeResult, PreflightResult};
use crate::billing::spending::{fresh_breaker, warning_for, DailyUsage, WarningLevel};
use crate::text::cents_text;

verus! {

/// The warning level shown by the cost display: critical at or below $1.00, low at or
/// below $2.00.
pub open spec fn display_warning(balance: int) -> WarningLevel {
    warning_for(balance, seq![200u32, 100u32])
}

/// The billing state of one user during agent execution.
pub struct BillingSession {
    /// The user's account.
    account: UserAccount,
    /// Batched cost display.
    display: CostDisplay,
    /// Whether a task is currently in flight (between agent start and agent end).
    task_in_flight: bool,
    /// Whether billing is enabled.
    enabled: bool,
}

impl BillingSession {
    /// The session's parts agree.
    pub closed spec fn wf(&self) -> bool {
        self.account.wf()
    }

    /// The user's account.
    pub closed spec fn account_spec(&self) -> &UserAccount {
        &self.account
    }

    /// The cost display counters.
    pub closed spec fn display_spec(&self) -> DisplayCounters {
        self.display@
    }

    /// Whether a task is in flight.
    pub closed spec fn in_flight(&self) -> bool {
        self.task_in_flight
    }

    /// Whether billing is enabled.
    pub closed spec fn is_enabled(&self) -> bool {
        self.enabled
    }

    /// Create a session from config, restoring a persisted balance when one was found.
    pub fn new(config: &BillingConfig, user_id: &str, persisted_balance: Option<i64>) -> (r: Self)
        ensures
            r.wf(),
            r.account_spec().user_spec() == user_id@,
            r.account_spec().balance_spec() == (match persisted_balance {
                Some(b) => b as int,
                None => 0,
            }),
            r.account_spec().today() == (DailyUsage { tasks: 0, spend_cents: 0 }),
            r.account_spec().task_cost() == config.pricing.task_cost_cents,
            r.account_spec().daily_limit_spec() == config.spending.daily_limit_cents,
            r.account_spec().tier_spec() == UserTier::Default,
            !r.account_spec().own_key_spec(),
            r.account_spec().min_topup() == config.balance.min_topup_cents,
            r.account_spec().thresholds() == config.balance.warning_thresholds_cents@,
            r.account_spec().overdraft() == config.balance.max_overdraft_cents,
            r.account_spec().breaker_spec() == fresh_breaker(config.spending.circuit_breaker_threshold),
            r.display_spec() == crate::billing::display::empty_counters(),
            !r.in_flight(),
            r.is_enabled() == config.enabled,
    {
        let mut account = UserAccount::new(user_id, config);
        if let Some(b) = persisted_balance {
            account.restore_balance(b);
        }
        BillingSession { account, display: CostDisplay::new(), task_in_flight: false, enabled: config.enabled }
    }

    /// The current account summary (for CLI display).
    pub fn account_summary(&self) -> (r: AccountSummary)
        requires
            self.wf(),
        ensures
            r.user_id@ == self.account_spec().user_spec(),
            r.balance_cents == self.account_spec().balance_spec(),
            r.tasks_today == self.account_spec().today().tasks,
            r.spent_today_cents == self.account_spec().today().spend_cents,
            r.daily_limit_cents == self.account_spec().daily_limit_spec(),
    {
        self.account.summary()
    }

    /// The current balance in cents.
    pub fn balance_cents(&self) -> (r: i64)
        ensures
            r == self.account_spec().balance_spec(),
    {
        self.account.balance_cents()
    }

    /// The user ID of the account.
    pub fn user_id(&self) -> (r: &str)
        ensures
            r@ == self.account_spec().user_spec(),
    {
        self.account.user_id_str()
    }

    /// Top up the account balance.
    pub fn top_up(&mut self, amount_cents: u32) -> (r: Result<TopUpResult, BillingError>)
        requires
            old(self).wf(),
            amount_cents >= old(self).account_spec().min_topup() ==> old(self).account_spec().balance_spec()
                + amount_cents <= i64::MAX,
        ensures
            final(self).wf(),
            final(self).account_spec().same_setup(old(self).account_spec()),
            final(self).account_spec().breaker_spec() == old(self).account_spec().breaker_spec(),
            final(self).account_spec().daily_limit_spec() == old(self).account_spec().daily_limit_spec(),
            r is Ok <==> amount_cents >= old(self).account_spec().min_topup(),
            final(self).account_spec().balance_spec() == (if r is Ok {
                old(self).account_spec().balance_spec() + amount_cents
            } else {
                old(self).account_spec().balance_spec()
            }),
            final(self).account_spec().today() == old(self).account_spec().today(),
            final(self).display_spec() == old(self).display_spec(),
            final(self).in_flight() == old(self).in_flight(),
            final(self).is_enabled() == old(self).is_enabled(),
    {
        self.account.top_up(amount_cents)
    }

    /// Set the daily spending limit.
    pub fn set_daily_limit(&mut self, limit_cents: u32)
        requires
            old(self).wf(),
        ensures
            final(self).wf(),
            final(self).account_spec().same_setup(old(self).account_spec()),
            final(self).account_spec().breaker_spec() == old(self).account_spec().breaker_spec(),
            final(self).account_spec().daily_limit_spec() == limit_cents,
            final(self).account_spec().balance_spec() == old(self).account_spec().balance_spec(),
            final(self).account_spec().today() == old(self).account_spec().today(),
            final(self).display_spec() == old(self).display_spec(),
            final(self).in_flight() == old(self).in_flight(),
            final(self).is_enabled() == old(self).is_enabled(),
    {
        self.account.set_daily_limit(limit_cents);
    }

    /// Reset daily counters (call at the day boundary).
    pub fn reset_daily(&mut self)
        requires
            old(self).wf(),
        ensures
            final(self).wf(),
            final(self).account_spec().same_setup(old(self).account_spec()),
            final(self).account_spec().breaker_spec() == old(self).account_spec().breaker_spec(),
            final(self).account_spec().daily_limit_spec() == old(self).account_spec().daily_limit_spec(),
            final(self).account_spec().today() == (DailyUsage { tasks: 0, spend_cents: 0 }),
            final(self).account_spec().balance_spec() == old(self).account_spec().balance_spec(),
            final(self).display_spec() == old(self).display_spec(),
            final(self).in_flight() == old(self).in_flight(),
            final(self).is_enabled() == old(self).is_enabled(),
    {
        self.account.reset_daily();
    }

    /// Flush the cost display, with the balance's warning level, and return any pending
    /// update.
    pub fn flush_display(&mut self) -> (r: Option<DisplayUpdate>)
        requires
            old(self).wf(),
        ensures
            final(self).wf(),
            final(self).account_spec().same_setup(old(self).account_spec()),
            final(self).account_spec().breaker_spec() == old(self).account_spec().breaker_spec(),
            final(self).account_spec().daily_limit_spec() == old(self).account_spec().daily_limit_spec(),
            r is None <==> old(self).display_spec().pending_tasks == 0,
            r matches Some(u) ==> u.balance@ == cents_text(old(self).account_spec().balance_spec())
                && u.warning == display_warning(old(self).account_spec().balance_spec())
                && u.tasks_since_last == old(self).display_spec().pending_tasks
                && u.session_tasks == old(self).display_spec().session_tasks
                && u.session_cost_cents == old(self).display_spec().session_cost_cents,
            final(self).display_spec() == (if r is Some {
                crate::billing::display::after_flush(old(self).display_spec())
            } else {
                old(self).display_spec()
            }),
            final(self).account_spec().balance_spec() == old(self).account_spec().balance_spec(),
            final(self).account_spec().today() == old(self).account_spec().today(),
            final(self).in_flight() == old(self).in_flight(),
    {
        let balance = self.account.balance_cents();
        let warning = if balance <= 100 {
            WarningLevel::Critical
        } else if balance <= 200 {
            WarningLevel::Low
        } else {
            WarningLevel::Normal
        };
        self.display.flush(balance, warning)
    }

    /// Whether an agent end would charge a task now: billing is enabled, a task is in
    /// flight, and its price keeps the balance within the overdraft allowance.
    pub open spec fn charges_on_end(&self) -> bool {
        &&& self.is_enabled()
        &&& self.in_flight()
        &&& crate::billing::spending::within_overdraft(
            self.account_spec().balance_spec(),
            self.account_spec().task_cost() as int,
            self.account_spec().overdraft() as int,
        )
    }

    /// Whether an agent end would charge a task now.
    pub fn will_charge_on_end(&self) -> (r: bool)
        ensures
            r == self.charges_on_end(),
    {
        self.enabled && self.task_in_flight && self.account.can_charge_task()
    }

    /// The minimum top-up in cents.
    pub fn min_topup_cents(&self) -> (r: u32)
        ensures
            r == self.account_spec().min_topup(),
    {
        self.account.min_topup_cents()
    }

    /// Whether the cost display can record one more task charge.
    pub fn display_has_room(&self) -> (r: bool)
        requires
            self.wf(),
        ensures
            r == can_record(self.display_spec(), self.account_spec().task_cost()),
    {
        let c = self.account.task_cost_cents();
        let d = &self.display;
        d.can_record_cost(c)
    }

    /// The agent started a task: mark it in flight and run the preflight check.
    ///
    /// Returns `None` when billing is disabled (nothing changes); otherwise the preflight
    /// result, which the caller reports. The task is not blocked here.
    pub fn record_agent_start(&mut self) -> (r: Option<PreflightResult>)
        requires
            old(self).wf(),
        ensures
            final(self).wf(),
            final(self).account_spec().same_setup(old(self).account_spec()),
            final(self).account_spec().breaker_spec() == old(self).account_spec().breaker_spec(),
            final(self).account_spec().daily_limit_spec() == old(self).account_spec().daily_limit_spec(),
            !old(self).is_enabled() ==> r is None && final(self).in_flight() == old(self).in_flight(),
            old(self).is_enabled() ==> (r matches Some(p) && final(self).in_flight() && p.allowed
                == old(self).account_spec().denial().is_none() && p.reason.deep_view()
                == old(self).account_spec().denial() && p.balance_display@ == cents_text(
                old(self).account_spec().balance_spec(),
            ) && p.warning == warning_for(
                old(self).account_spec().balance_spec(),
                old(self).account_spec().thresholds(),
            )),
            final(self).account_spec().balance_spec() == old(self).account_spec().balance_spec(),
            final(self).account_spec().today() == old(self).account_spec().today(),
            final(self).display_spec() == old(self).display_spec(),
            final(self).is_enabled() == old(self).is_enabled(),
    {
        if !self.enabled {
            return None;
        }
        self.task_in_flight = true;
        Some(self.account.start_task())
    }

    /// The agent finished a task: charge it if one was in flight.
    ///
    /// Returns `None` when billing is disabled or no task was in flight (nothing is
    /// charged); otherwise the charge result. A successful charge is added to the cost
    /// display; the caller then persists the new balance.
    pub fn record_agent_end(&mut self) -> (r: Option<ChargeResult>)
        requires
            old(self).wf(),
            old(self).charges_on_end() ==> can_record(
                old(self).display_spec(),
                old(self).account_spec().task_cost(),
            ),
        ensures
            final(self).wf(),
            final(self).account_spec().same_setup(old(self).account_spec()),
            final(self).account_spec().breaker_spec() == old(self).account_spec().breaker_spec(),
            final(self).account_spec().daily_limit_spec() == old(self).account_spec().daily_limit_spec(),
            (!old(self).is_enabled() || !old(self).in_flight()) ==> r is None
                && final(self).account_spec().balance_spec() == old(self).account_spec().balance_spec()
                && final(self).account_spec().today() == old(self).account_spec().today()
                && final(self).display_spec() == old(self).display_spec()
                && final(self).in_flight() == old(self).in_flight(),
            (old(self).is_enabled() && old(self).in_flight()) ==> (r matches Some(c)
                && !final(self).in_flight()
                && c.charged == crate::billing::spending::within_overdraft(
                    old(self).account_spec().balance_spec(),
                    old(self).account_spec().task_cost() as int,
                    old(self).account_spec().overdraft() as int,
                ) && final(self).account_spec().balance_spec() == (if c.charged {
                    old(self).account_spec().balance_spec() - old(self).account_spec().task_cost()
                } else {
                    old(self).account_spec().balance_spec()
                }) && final(self).account_spec().today() == (if c.charged {
                    crate::billing::spending::daily_after_task(
                        old(self).account_spec().today(),
                        old(self).account_spec().task_cost(),
                    )
                } else {
                    old(self).account_spec().today()
                }) && final(self).display_spec() == (if c.charged {
                    after_record(old(self).display_spec(), old(self).account_spec().task_cost())
                } else {
                    old(self).display_spec()
                })),
            final(self).is_enabled() == old(self).is_enabled(),
            final(self).account_spec().task_cost() == old(self).account_spec().task_cost(),
    {
        if !self.enabled || !self.task_in_flight {
            return None;
        }
        self.task_in_flight = false;
        let charge = self.account.complete_task();
        if charge.charged {
            self.display.record(charge.amount_cents);
        }
        Some(charge)
    }
}

} // verus!
