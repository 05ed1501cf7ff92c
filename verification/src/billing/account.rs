//! User billing account.
//!
//! Ties together the user's tier, prepaid balance, daily usage tracking, spending limit
//! and circuit breaker into one account object. Call [`UserAccount::start_task`] before a
//! task and [`UserAccount::complete_task`] after it.
use vstd::prelude::*;
use crate::billing::config::{BalanceConfig, BillingConfig, UserTier, copy_thresholds};
use crate::billing::error::BillingError;
use crate::billing::metering::{preflight_denial, ChargeResult, PreflightResult, TaskMeter};
use crate::billing::spending::{
    after_failure, after_success, format_cents, fresh_breaker, BreakerState, CircuitBreaker,
    DailyUsage, PrepaymentBalance, SpendingLimit, UsageTracker, WarningLevel,
};
use crate::text::{cents_text, string_of};

verus! {

/// A user's billing account: all billing state for a single user or tenant.
pub struct UserAccount {
    /// User/tenant identifier; private, since the balance, the limit and today's usage
    /// are kept under it (read it with [`UserAccount::user_id_str`]).
    user_id: String,
    /// User's billing tier.
    pub tier: UserTier,
    /// Whether the user has provided their own API key (BYOK).
    pub has_own_api_key: bool,
    /// Prepaid balance.
    balance: PrepaymentBalance,
    /// Daily usage tracker.
    tracker: UsageTracker,
    /// Daily spending limit.
    limit: SpendingLimit,
    /// Circuit breaker for payment failures.
    breaker: CircuitBreaker,
    /// Task meter for charging.
    meter: TaskMeter,
    /// Balance config (for top-up minimum, etc.).
    balance_config: BalanceConfig,
}

/// Result of a successful top-up.
#[derive(Debug)]
pub struct TopUpResult {
    pub new_balance_cents: i64,
    pub balance_display: String,
}

/// Account summary for display.
#[derive(Debug, Clone)]
pub struct AccountSummary {
    pub user_id: String,
    pub tier: UserTier,
    pub balance_display: String,
    pub balance_cents: i64,
    pub tasks_today: u32,
    pub spent_today_cents: u32,
    pub spent_today_display: String,
    pub daily_limit_cents: u32,
    pub daily_limit_display: String,
    pub uses_platform_llm: bool,
}

impl UserAccount {
    /// The account's parts agree: the balance, the limit and today's usage all belong to
    /// this user, and the daily limit fits in 32 bits.
    pub closed spec fn wf(&self) -> bool {
        &&& self.balance.owner_id@ == self.user_id@
        &&& self.limit.scope_id@ == self.user_id@
        &&& self.limit.max_amount_minor <= u32::MAX
    }

    /// The prepaid balance in cents.
    pub closed spec fn balance_spec(&self) -> int {
        self.balance.balance_cents as int
    }

    /// Today's usage of this user.
    pub closed spec fn today(&self) -> DailyUsage {
        self.tracker.daily_of(self.user_id@)
    }

    /// The daily spending limit in cents.
    pub closed spec fn daily_limit_spec(&self) -> int {
        self.limit.max_amount_minor as int
    }

    /// The state of the payment circuit breaker.
    pub closed spec fn breaker_spec(&self) -> BreakerState {
        self.breaker@
    }

    /// The flat price of one task in cents.
    pub closed spec fn task_cost(&self) -> u32 {
        self.meter.cost()
    }

    /// The low-balance warning thresholds.
    pub closed spec fn thresholds(&self) -> Seq<u32> {
        self.meter.thresholds()
    }

    /// The minimum top-up in cents.
    pub closed spec fn min_topup(&self) -> u32 {
        self.balance_config.min_topup_cents
    }

    /// How far (in cents) the balance may go negative before tasks are refused.
    pub closed spec fn overdraft(&self) -> u32 {
        self.meter.overdraft()
    }

    /// The account's tier.
    pub closed spec fn tier_spec(&self) -> UserTier {
        self.tier
    }

    /// Whether the user brought their own API key.
    pub closed spec fn own_key_spec(&self) -> bool {
        self.has_own_api_key
    }

    /// The account's user ID.
    pub closed spec fn user_spec(&self) -> Seq<char> {
        self.user_id@
    }

    /// Whether the user runs on the platform-hosted LLM.
    pub open spec fn platform_llm(&self) -> bool {
        self.tier_spec() == UserTier::Default || !self.own_key_spec()
    }

    /// Why a new task may not start now, or `None` when it may.
    pub open spec fn denial(&self) -> Option<Seq<char>> {
        preflight_denial(
            self.task_cost() as int,
            self.balance_spec(),
            self.today().spend_cents as int,
            self.daily_limit_spec(),
            self.breaker_spec().open,
            self.overdraft() as int,
        )
    }

    /// Everything but the balance, today's usage and the breaker is as in `other`.
    pub open spec fn same_setup(&self, other: &Self) -> bool {
        &&& self.user_spec() == other.user_spec()
        &&& self.tier_spec() == other.tier_spec()
        &&& self.own_key_spec() == other.own_key_spec()
        &&& self.task_cost() == other.task_cost()
        &&& self.thresholds() == other.thresholds()
        &&& self.min_topup() == other.min_topup()
        &&& self.overdraft() == other.overdraft()
    }

    /// Create a new default-tier account from config defaults.
    pub fn new(user_id: &str, config: &BillingConfig) -> (r: Self)
        ensures
            r.wf(),
            r.user_spec() == user_id@,
            r.tier_spec() == UserTier::Default,
            !r.own_key_spec(),
            r.balance_spec() == 0,
            r.today() == (DailyUsage { tasks: 0, spend_cents: 0 }),
            r.daily_limit_spec() == config.spending.daily_limit_cents,
            r.breaker_spec() == fresh_breaker(config.spending.circuit_breaker_threshold),
            r.task_cost() == config.pricing.task_cost_cents,
            r.thresholds() == config.balance.warning_thresholds_cents@,
            r.min_topup() == config.balance.min_topup_cents,
            r.overdraft() == config.balance.max_overdraft_cents,
    {
        UserAccount {
            balance: PrepaymentBalance::with_balance(user_id, 0),
            tracker: UsageTracker::new(),
            limit: SpendingLimit::daily(user_id, config.spending.daily_limit_cents),
            breaker: CircuitBreaker::new(config.spending.circuit_breaker_threshold),
            meter: TaskMeter::new(
                config.pricing.task_cost_cents,
                copy_thresholds(&config.balance.warning_thresholds_cents),
            ).with_max_overdraft(config.balance.max_overdraft_cents),
            balance_config: config.balance.duplicate(),
            user_id: string_of(user_id),
            tier: UserTier::Default,
            has_own_api_key: false,
        }
    }

    /// Create a paid-tier account with BYOK.
    pub fn new_paid(user_id: &str, config: &BillingConfig) -> (r: Self)
        ensures
            r.wf(),
            r.user_spec() == user_id@,
            r.tier_spec() == UserTier::Paid,
            r.own_key_spec(),
            r.balance_spec() == 0,
            r.today() == (DailyUsage { tasks: 0, spend_cents: 0 }),
            r.daily_limit_spec() == config.spending.daily_limit_cents,
            r.breaker_spec() == fresh_breaker(config.spending.circuit_breaker_threshold),
            r.task_cost() == config.pricing.task_cost_cents,
            r.thresholds() == config.balance.warning_thresholds_cents@,
            r.min_topup() == config.balance.min_topup_cents,
            r.overdraft() == config.balance.max_overdraft_cents,
    {
        let mut account = Self::new(user_id, config);
        account.tier = UserTier::Paid;
        account.has_own_api_key = true;
        account
    }

    /// Top up the account balance. Top-ups below the configured minimum are refused and
    /// leave the balance unchanged.
    pub fn top_up(&mut self, amount_cents: u32) -> (r: Result<TopUpResult, BillingError>)
        requires
            old(self).wf(),
            amount_cents >= old(self).min_topup() ==> old(self).balance_spec() + amount_cents
                <= i64::MAX,
        ensures
            final(self).wf(),
            final(self).same_setup(old(self)),
            final(self).today() == old(self).today(),
            final(self).daily_limit_spec() == old(self).daily_limit_spec(),
            final(self).breaker_spec() == old(self).breaker_spec(),
            r is Ok <==> amount_cents >= old(self).min_topup(),
            final(self).balance_spec() == (if r is Ok {
                old(self).balance_spec() + amount_cents
            } else {
                old(self).balance_spec()
            }),
            r matches Ok(t) ==> t.new_balance_cents == final(self).balance_spec()
                && t.balance_display@ == cents_text(final(self).balance_spec()),
            r matches Err(e) ==> e == (BillingError::TopUpBelowMinimum {
                amount_cents,
                min_topup_cents: old(self).min_topup(),
            }),
    {
        match self.balance.top_up(amount_cents, self.balance_config.min_topup_cents) {
            Ok(()) => Ok(
                TopUpResult {
                    new_balance_cents: self.balance.balance(),
                    balance_display: self.balance.balance_display(),
                },
            ),
            Err(e) => Err(e),
        }
    }

    /// Pre-flight check before starting a task. Does not charge.
    pub fn start_task(&self) -> (r: PreflightResult)
        requires
            self.wf(),
        ensures
            r.reason.deep_view() == self.denial(),
            r.allowed == self.denial().is_none(),
            r.balance_display@ == cents_text(self.balance_spec()),
            r.warning == crate::billing::spending::warning_for(self.balance_spec(), self.thresholds()),
    {
        self.meter.preflight_check(&self.balance, &self.tracker, &self.limit, &self.breaker)
    }

    /// Charge for a completed task (soft cap: call it after the task finishes).
    pub fn complete_task(&mut self) -> (r: ChargeResult)
        requires
            old(self).wf(),
        ensures
            final(self).wf(),
            final(self).same_setup(old(self)),
            final(self).daily_limit_spec() == old(self).daily_limit_spec(),
            final(self).breaker_spec() == old(self).breaker_spec(),
            r.charged == crate::billing::spending::within_overdraft(
                old(self).balance_spec(),
                old(self).task_cost() as int,
                old(self).overdraft() as int,
            ),
            final(self).balance_spec() == (if r.charged {
                old(self).balance_spec() - old(self).task_cost()
            } else {
                old(self).balance_spec()
            }),
            final(self).today() == (if r.charged {
                crate::billing::spending::daily_after_task(old(self).today(), old(self).task_cost())
            } else {
                old(self).today()
            }),
            r.amount_cents == (if r.charged {
                old(self).task_cost()
            } else {
                0
            }),
            r.new_balance_cents == final(self).balance_spec(),
            r.balance_display@ == cents_text(final(self).balance_spec()),
            r.warning == crate::billing::spending::warning_for(
                final(self).balance_spec(),
                old(self).thresholds(),
            ),
            r.rejection_reason.deep_view() == (if r.charged {
                None
            } else {
                Some(crate::billing::metering::overdraft_text(old(self).balance_spec()))
            }),
    {
        self.meter.charge_task(&mut self.balance, &mut self.tracker)
    }

    /// Restore the balance from persisted state (e.g. on startup).
    pub fn restore_balance(&mut self, balance_cents: i64)
        requires
            old(self).wf(),
        ensures
            final(self).wf(),
            final(self).same_setup(old(self)),
            final(self).today() == old(self).today(),
            final(self).daily_limit_spec() == old(self).daily_limit_spec(),
            final(self).breaker_spec() == old(self).breaker_spec(),
            final(self).balance_spec() == balance_cents,
    {
        self.balance.balance_cents = balance_cents;
    }

    /// The account's user ID.
    pub fn user_id_str(&self) -> (r: &str)
        ensures
            r@ == self.user_spec(),
    {
        self.user_id.as_str()
    }

    /// The flat price of one task in cents.
    pub fn task_cost_cents(&self) -> (r: u32)
        ensures
            r == self.task_cost(),
    {
        self.meter.task_cost_cents()
    }

    /// The minimum top-up in cents.
    pub fn min_topup_cents(&self) -> (r: u32)
        ensures
            r == self.min_topup(),
    {
        self.balance_config.min_topup_cents
    }

    /// Whether a completed task would be charged now: its price keeps the balance within
    /// the overdraft allowance.
    pub fn can_charge_task(&self) -> (r: bool)
        ensures
            r == crate::billing::spending::within_overdraft(
                self.balance_spec(),
                self.task_cost() as int,
                self.overdraft() as int,
            ),
    {
        self.balance.can_start_task(self.meter.task_cost_cents(), self.meter.max_overdraft_cents())
    }

    /// Current balance in cents.
    pub fn balance_cents(&self) -> (r: i64)
        ensures
            r == self.balance_spec(),
    {
        self.balance.balance()
    }

    /// Formatted balance string.
    pub fn balance_display(&self) -> (r: String)
        ensures
            r@ == cents_text(self.balance_spec()),
    {
        self.balance.balance_display()
    }

    /// Number of tasks completed today.
    pub fn tasks_today(&self) -> (r: u32)
        ensures
            r == self.today().tasks,
    {
        self.tracker.daily_task_count(self.user_id.as_str())
    }

    /// Amount spent today in cents.
    pub fn spent_today_cents(&self) -> (r: u32)
        ensures
            r == self.today().spend_cents,
    {
        self.tracker.daily_spend_cents(self.user_id.as_str())
    }

    /// Daily spending limit in cents.
    pub fn daily_limit_cents(&self) -> (r: u32)
        requires
            self.wf(),
        ensures
            r == self.daily_limit_spec(),
    {
        self.limit.max_amount_minor as u32
    }

    /// Update the daily spending limit (the user can raise or lower it).
    pub fn set_daily_limit(&mut self, limit_cents: u32)
        requires
            old(self).wf(),
        ensures
            final(self).wf(),
            final(self).same_setup(old(self)),
            final(self).balance_spec() == old(self).balance_spec(),
            final(self).today() == old(self).today(),
            final(self).breaker_spec() == old(self).breaker_spec(),
            final(self).daily_limit_spec() == limit_cents,
    {
        self.limit = SpendingLimit::daily(self.user_id.as_str(), limit_cents);
    }

    /// Reset daily counters (call at the day boundary).
    pub fn reset_daily(&mut self)
        requires
            old(self).wf(),
        ensures
            final(self).wf(),
            final(self).same_setup(old(self)),
            final(self).balance_spec() == old(self).balance_spec(),
            final(self).today() == (DailyUsage { tasks: 0, spend_cents: 0 }),
            final(self).daily_limit_spec() == old(self).daily_limit_spec(),
            final(self).breaker_spec() == old(self).breaker_spec(),
    {
        self.tracker.reset_daily();
    }

    /// Record a payment processing failure (feeds the circuit breaker).
    pub fn record_payment_failure(&mut self)
        requires
            old(self).wf(),
        ensures
            final(self).wf(),
            final(self).same_setup(old(self)),
            final(self).balance_spec() == old(self).balance_spec(),
            final(self).today() == old(self).today(),
            final(self).daily_limit_spec() == old(self).daily_limit_spec(),
            final(self).breaker_spec() == after_failure(old(self).breaker_spec()),
    {
        self.breaker.record_failure();
    }

    /// Record a payment processing success (resets the circuit breaker).
    pub fn record_payment_success(&mut self)
        requires
            old(self).wf(),
        ensures
            final(self).wf(),
            final(self).same_setup(old(self)),
            final(self).balance_spec() == old(self).balance_spec(),
            final(self).today() == old(self).today(),
            final(self).daily_limit_spec() == old(self).daily_limit_spec(),
            final(self).breaker_spec() == after_success(old(self).breaker_spec()),
    {
        self.breaker.record_success();
    }

    /// Whether the user should use platform-hosted Gemma (default tier or no own key)
    /// rather than their own API key.
    pub fn uses_platform_llm(&self) -> (r: bool)
        ensures
            r == self.platform_llm(),
    {
        self.tier == UserTier::Default || !self.has_own_api_key
    }

    /// A summary of the account state for display.
    pub fn summary(&self) -> (r: AccountSummary)
        requires
            self.wf(),
        ensures
            r.user_id@ == self.user_spec(),
            r.tier == self.tier_spec(),
            r.balance_display@ == cents_text(self.balance_spec()),
            r.balance_cents == self.balance_spec(),
            r.tasks_today == self.today().tasks,
            r.spent_today_cents == self.today().spend_cents,
            r.spent_today_display@ == cents_text(self.today().spend_cents as int),
            r.daily_limit_cents == self.daily_limit_spec(),
            r.daily_limit_display@ == cents_text(self.daily_limit_spec()),
            r.uses_platform_llm == self.platform_llm(),
    {
        let spent = self.tracker.daily_spend_cents(self.user_id.as_str());
        let limit = self.limit.max_amount_minor as u32;
        AccountSummary {
            user_id: self.user_id.clone(),
            tier: self.tier,
            balance_display: self.balance.balance_display(),
            balance_cents: self.balance.balance(),
            tasks_today: self.tracker.daily_task_count(self.user_id.as_str()),
            spent_today_cents: spent,
            spent_today_display: format_cents(spent as i64),
            daily_limit_cents: limit,
            daily_limit_display: format_cents(limit as i64),
            uses_platform_llm: self.uses_platform_llm(),
        }
    }
}

} // verus!
