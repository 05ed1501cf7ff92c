//! Task metering for flat-rate billing.
//!
//! Charges a flat rate per completed task against a prepaid balance, enforces the daily
//! limit as a soft cap, and reports low-balance warnings.
//!
//! # Soft Cap Behavior
//!
//! The daily limit is a soft cap. When a task is submitted:
//! 1. If the daily limit would be exceeded, the *new* task is rejected.
//! 2. A task already in flight when the limit is hit finishes and is charged normally
//!    (the overdraft on the prepaid balance absorbs it).
use vstd::prelude::*;
use crate::billing::spending::{
    format_cents, format_cents_unsigned, warning_for, within_overdraft, BreakerState,
    CircuitBreaker, PrepaymentBalance, SpendingLimit, UsageTracker, WarningLevel,
    MAX_OVERDRAFT_CENTS,
};
use crate::text::{cents_text, push_str, string_of};

verus! {

/// Result of attempting to charge for a task.
#[derive(Debug)]
pub struct ChargeResult {
    /// Whether the charge succeeded.
    pub charged: bool,
    /// Amount charged in cents (0 if not charged).
    pub amount_cents: u32,
    /// New balance after charge (or current balance if not charged).
    pub new_balance_cents: i64,
    /// Formatted balance string for display.
    pub balance_display: String,
    /// Warning level after the charge.
    pub warning: WarningLevel,
    /// If charge was rejected, the reason.
    pub rejection_reason: Option<String>,
}

/// Result of a pre-flight check before starting a task.
#[derive(Debug)]
pub struct PreflightResult {
    /// Whether the task is allowed to start.
    pub allowed: bool,
    /// If not allowed, the reason.
    pub reason: Option<String>,
    /// Current balance display.
    pub balance_display: String,
    /// Current warning level.
    pub warning: WarningLevel,
}

/// The reason given when the circuit breaker has halted payments.
pub open spec fn halted_text() -> Seq<char> {
    "Payment processing is temporarily halted due to repeated failures. Please try again later."@
}

/// The reason given when the daily limit would be exceeded.
pub open spec fn daily_limit_text(limit: int, spent: int) -> Seq<char> {
    "Daily spending limit of "@ + cents_text(limit) + " reached ("@ + cents_text(spent)
        + " spent today). Limit resets at midnight UTC."@
}

/// The reason given when the balance cannot absorb another task.
pub open spec fn insufficient_text(balance: int) -> Seq<char> {
    "Insufficient balance ("@ + cents_text(balance) + "). Please top up to continue."@
}

/// The reason given when a completed task cannot be charged.
pub open spec fn overdraft_text(balance: int) -> Seq<char> {
    "Overdraft limit reached ("@ + cents_text(balance) + "). Please top up to continue."@
}

/// Why a new task of `cost` cents may not start, or `None` when it may. The circuit
/// breaker is checked first, then the daily limit, then the balance (which may go down
/// to `-max_overdraft`).
pub open spec fn preflight_denial(
    cost: int,
    balance: int,
    spent_today: int,
    daily_limit: int,
    halted: bool,
    max_overdraft: int,
) -> Option<Seq<char>> {
    if halted {
        Some(halted_text())
    } else if spent_today + cost > daily_limit {
        Some(daily_limit_text(daily_limit, spent_today))
    } else if !within_overdraft(balance, cost, max_overdraft) {
        Some(insufficient_text(balance))
    } else {
        None
    }
}

/// Core task meter: the flat per-task price, the low-balance warning thresholds and the
/// overdraft allowance.
#[derive(Debug)]
pub struct TaskMeter {
    /// Cost per task in cents.
    task_cost_cents: u32,
    /// Warning thresholds in cents (e.g. [200, 100]).
    warning_thresholds: Vec<u32>,
    /// How far (in cents) the balance may go negative before tasks are refused.
    max_overdraft_cents: u32,
}

impl TaskMeter {
    /// The per-task price in cents.
    pub closed spec fn cost(&self) -> u32 {
        self.task_cost_cents
    }

    /// The warning thresholds in cents.
    pub closed spec fn thresholds(&self) -> Seq<u32> {
        self.warning_thresholds@
    }

    /// The overdraft allowance in cents.
    pub closed spec fn overdraft(&self) -> u32 {
        self.max_overdraft_cents
    }

    /// Create a new task meter with the given per-task cost and the default overdraft
    /// allowance.
    pub fn new(task_cost_cents: u32, warning_thresholds: Vec<u32>) -> (r: Self)
        ensures
            r.cost() == task_cost_cents,
            r.thresholds() == warning_thresholds@,
            r.overdraft() == MAX_OVERDRAFT_CENTS,
    {
        TaskMeter { task_cost_cents, warning_thresholds, max_overdraft_cents: MAX_OVERDRAFT_CENTS }
    }

    /// This meter with the given overdraft allowance in cents.
    pub fn with_max_overdraft(self, max_overdraft_cents: u32) -> (r: Self)
        ensures
            r.cost() == self.cost(),
            r.thresholds() == self.thresholds(),
            r.overdraft() == max_overdraft_cents,
    {
        TaskMeter { max_overdraft_cents, ..self }
    }

    /// Create with MVP defaults ($0.10/task, warnings at $2 and $1).
    pub fn default_mvp() -> (r: Self)
        ensures
            r.cost() == 10,
            r.thresholds() == seq![200u32, 100u32],
            r.overdraft() == MAX_OVERDRAFT_CENTS,
    {
        let mut thresholds: Vec<u32> = Vec::new();
        thresholds.push(200);
        thresholds.push(100);
        proof {
            assert(thresholds@ =~= seq![200u32, 100u32]);
        }
        TaskMeter {
            task_cost_cents: 10,
            warning_thresholds: thresholds,
            max_overdraft_cents: MAX_OVERDRAFT_CENTS,
        }
    }

    /// Cost per task in cents.
    pub fn task_cost_cents(&self) -> (r: u32)
        ensures
            r == self.cost(),
    {
        self.task_cost_cents
    }

    /// The overdraft allowance in cents.
    pub fn max_overdraft_cents(&self) -> (r: u32)
        ensures
            r == self.overdraft(),
    {
        self.max_overdraft_cents
    }

    /// Pre-flight check: can a new task be started?
    ///
    /// Checks the circuit breaker, the daily limit (soft cap) and the balance (with
    /// overdraft), in that order. Does not deduct anything.
    pub fn preflight_check(
        &self,
        balance: &PrepaymentBalance,
        tracker: &UsageTracker,
        limit: &SpendingLimit,
        breaker: &CircuitBreaker,
    ) -> (r: PreflightResult)
        ensures
            r.reason.deep_view() == preflight_denial(
                self.cost() as int,
                balance.balance_cents as int,
                tracker.daily_of(limit.scope_id@).spend_cents as int,
                limit.max_amount_minor as int,
                breaker@.open,
                self.overdraft() as int,
            ),
            r.allowed == r.reason.is_none(),
            r.balance_display@ == cents_text(balance.balance_cents as int),
            r.warning == warning_for(balance.balance_cents as int, self.thresholds()),
    {
        let warning = balance.warning_level(self.warning_thresholds.as_slice());
        let balance_display = balance.balance_display();
        if !breaker.is_allowed() {
            let reason = string_of(
                "Payment processing is temporarily halted due to repeated failures. Please try again later.",
            );
            return PreflightResult { allowed: false, reason: Some(reason), balance_display, warning };
        }
        if tracker.would_exceed_daily_limit(limit.scope_id.as_str(), self.task_cost_cents, limit) {
            let spent = tracker.daily_spend_cents(limit.scope_id.as_str());
            let mut reason = string_of("Daily spending limit of ");
            let limit_text = format_cents_unsigned(limit.max_amount_minor);
            push_str(&mut reason, limit_text.as_str());
            push_str(&mut reason, " reached (");
            let spent_text = format_cents(spent as i64);
            push_str(&mut reason, spent_text.as_str());
            push_str(&mut reason, " spent today). Limit resets at midnight UTC.");
            return PreflightResult { allowed: false, reason: Some(reason), balance_display, warning };
        }
        if !balance.can_start_task(self.task_cost_cents, self.max_overdraft_cents) {
            let mut reason = string_of("Insufficient balance (");
            push_str(&mut reason, balance_display.as_str());
            push_str(&mut reason, "). Please top up to continue.");
            return PreflightResult { allowed: false, reason: Some(reason), balance_display, warning };
        }
        PreflightResult { allowed: true, reason: None, balance_display, warning }
    }

    /// Charge for a completed task.
    ///
    /// Deducts the flat rate from the balance (within the overdraft allowance) and records
    /// the charge under the balance owner in the usage tracker. A refused charge changes
    /// nothing.
    pub fn charge_task(&self, balance: &mut PrepaymentBalance, tracker: &mut UsageTracker) -> (r:
        ChargeResult)
        ensures
            r.charged == within_overdraft(
                old(balance).balance_cents as int,
                self.cost() as int,
                self.overdraft() as int,
            ),
            final(balance).owner_id == old(balance).owner_id,
            final(balance).currency == old(balance).currency,
            final(balance).balance_cents == (if r.charged {
                old(balance).balance_cents - self.cost()
            } else {
                old(balance).balance_cents as int
            }),
            r.charged ==> UsageTracker::task_recorded(
                old(tracker),
                final(tracker),
                old(balance).owner_id@,
                self.cost(),
            ),
            !r.charged ==> final(tracker).daily() == old(tracker).daily() && final(tracker).totals()
                == old(tracker).totals(),
            r.amount_cents == (if r.charged {
                self.cost()
            } else {
                0
            }),
            r.new_balance_cents == final(balance).balance_cents,
            r.balance_display@ == cents_text(final(balance).balance_cents as int),
            r.warning == warning_for(final(balance).balance_cents as int, self.thresholds()),
            r.rejection_reason.deep_view() == (if r.charged {
                None
            } else {
                Some(overdraft_text(old(balance).balance_cents as int))
            }),
    {
        if balance.debit_task(self.task_cost_cents, self.max_overdraft_cents) {
            tracker.record_task(balance.owner_id.as_str(), self.task_cost_cents);
            let warning = balance.warning_level(self.warning_thresholds.as_slice());
            ChargeResult {
                charged: true,
                amount_cents: self.task_cost_cents,
                new_balance_cents: balance.balance(),
                balance_display: balance.balance_display(),
                warning,
                rejection_reason: None,
            }
        } else {
            let warning = balance.warning_level(self.warning_thresholds.as_slice());
            let balance_display = balance.balance_display();
            let mut reason = string_of("Overdraft limit reached (");
            push_str(&mut reason, balance_display.as_str());
            push_str(&mut reason, "). Please top up to continue.");
            ChargeResult {
                charged: false,
                amount_cents: 0,
                new_balance_cents: balance.balance(),
                balance_display,
                warning,
                rejection_reason: Some(reason),
            }
        }
    }
}

} // verus!
