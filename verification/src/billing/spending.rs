//! Spending controls and budget enforcement.
//!
//! Spending limits, a usage tracker keyed by scope, a circuit breaker that halts payment
//! processing after repeated failures, and a prepaid balance with a small overdraft.
use vstd::prelude::*;
use vstd::hash_map::StringHashMap;
use crate::billing::error::BillingError;
use crate::billing::traits::{Currency, Money};
use crate::text::{cents_text, push_cents, string_of};

verus! {

/// How far (in cents) a prepaid balance may go negative before tasks are refused, unless
/// configured otherwise.
pub const MAX_OVERDRAFT_CENTS: u32 = 200;

/// Formats an amount in cents as dollars, such as `$9.80` or `-$0.05`.
pub fn format_cents(cents: i64) -> (r: String)
    ensures
        r@ == cents_text(cents as int),
{
    let mut s = String::new();
    let magnitude: u64 = if cents < 0 {
        (0i128 - cents as i128) as u64
    } else {
        cents as u64
    };
    push_cents(&mut s, cents < 0, magnitude);
    proof {
        assert(s@ =~= cents_text(cents as int));
    }
    s
}

/// Formats a non-negative amount in cents as dollars.
pub fn format_cents_unsigned(cents: u64) -> (r: String)
    ensures
        r@ == cents_text(cents as int),
{
    let mut s = String::new();
    push_cents(&mut s, false, cents);
    proof {
        assert(s@ =~= cents_text(cents as int));
    }
    s
}

// ── Warning levels ─────────────────────────────────────────────

/// Low-balance warning level.
#[derive(Debug, Clone, Copy, PartialEq, Eq, Structural)]
pub enum WarningLevel {
    /// Balance is above every warning threshold.
    Normal,
    /// Balance is at or below the first threshold.
    Low,
    /// Balance is at or below the second threshold.
    Critical,
}

/// The warning level of a balance against thresholds such as `[200, 100]`: the first
/// threshold marks the low level, the second the critical level.
pub open spec fn warning_for(balance: int, thresholds: Seq<u32>) -> WarningLevel {
    if thresholds.len() > 1 && balance <= thresholds[1] {
        WarningLevel::Critical
    } else if thresholds.len() > 0 && balance <= thresholds[0] {
        WarningLevel::Low
    } else {
        WarningLevel::Normal
    }
}

// ── Spending Limit ───────────────────────────────────────────────

/// Time period for a spending limit.
#[derive(Debug, Clone, Copy, PartialEq, Eq, Structural)]
pub enum LimitPeriod {
    /// Per-transaction limit.
    Transaction,
    /// Rolling 24-hour window.
    Daily,
    /// Calendar month.
    Monthly,
}

/// A spending cap applied to a user, tenant, or global scope.
#[derive(Debug, Clone)]
pub struct SpendingLimit {
    /// Opaque identifier for the limit scope (e.g. user ID, tenant ID, "global").
    pub scope_id: String,
    /// Maximum spend in minor currency units per period.
    pub max_amount_minor: u64,
    /// Currency for this limit.
    pub currency: Currency,
    /// Period over which the limit applies.
    pub period: LimitPeriod,
}

impl SpendingLimit {
    /// Create a new spending limit.
    pub fn new(scope_id: &str, max_amount_minor: u64, currency: Currency, period: LimitPeriod) -> (r:
        Self)
        ensures
            r.scope_id@ == scope_id@,
            r.max_amount_minor == max_amount_minor,
            r.currency == currency,
            r.period == period,
    {
        SpendingLimit { scope_id: string_of(scope_id), max_amount_minor, currency, period }
    }

    /// A daily limit in US cents.
    pub fn daily(scope_id: &str, max_amount_cents: u32) -> (r: Self)
        ensures
            r.scope_id@ == scope_id@,
            r.max_amount_minor == max_amount_cents,
            r.currency == Currency::Usd,
            r.period == LimitPeriod::Daily,
    {
        Self::new(scope_id, max_amount_cents as u64, Currency::Usd, LimitPeriod::Daily)
    }

    /// Check whether a proposed charge would exceed this limit.
    ///
    /// Spend-to-date is not consulted yet, so every proposed charge is allowed.
    pub fn check(&self, _proposed: &Money) -> (r: Result<bool, BillingError>)
        ensures
            r == Ok::<bool, BillingError>(true),
    {
        Ok(true)
    }
}

// ── Usage Tracker ────────────────────────────────────────────────

/// Today's usage of one scope.
#[derive(Debug, Clone, Copy, PartialEq, Eq, Structural)]
pub struct DailyUsage {
    /// Tasks charged today.
    pub tasks: u32,
    /// Cents charged today.
    pub spend_cents: u32,
}

/// Tracks accumulated spend and today's task usage, keyed by scope ID.
pub struct UsageTracker {
    /// Accumulated spend in minor units, keyed by scope ID.
    totals: StringHashMap<u64>,
    /// Today's usage, keyed by scope ID.
    daily: StringHashMap<DailyUsage>,
}

/// The usage of a scope after one more task that cost `cost` cents.
pub open spec fn daily_after_task(u: DailyUsage, cost: u32) -> DailyUsage {
    DailyUsage { tasks: u.tasks.saturating_add(1), spend_cents: u.spend_cents.saturating_add(cost) }
}

impl UsageTracker {
    /// Accumulated spend per scope.
    pub closed spec fn totals(&self) -> Map<Seq<char>, u64> {
        self.totals@
    }

    /// Today's usage per scope.
    pub closed spec fn daily(&self) -> Map<Seq<char>, DailyUsage> {
        self.daily@
    }

    /// Accumulated spend of a scope (zero for an unknown scope).
    pub open spec fn spend_of(&self, scope: Seq<char>) -> u64 {
        if self.totals().contains_key(scope) {
            self.totals()[scope]
        } else {
            0
        }
    }

    /// Today's usage of a scope (zero for an unknown scope).
    pub open spec fn daily_of(&self, scope: Seq<char>) -> DailyUsage {
        if self.daily().contains_key(scope) {
            self.daily()[scope]
        } else {
            DailyUsage { tasks: 0, spend_cents: 0 }
        }
    }

    /// Whether `new` is `old` after one task of `cost` cents was recorded for `scope`.
    pub open spec fn task_recorded(old: &Self, new: &Self, scope: Seq<char>, cost: u32) -> bool {
        &&& new.daily() == old.daily().insert(scope, daily_after_task(old.daily_of(scope), cost))
        &&& new.totals() == old.totals().insert(
            scope,
            old.spend_of(scope).saturating_add(cost as u64),
        )
    }

    /// Whether `new` is `old` after a charge of `amount` was recorded for `scope`.
    pub open spec fn charge_recorded(old: &Self, new: &Self, scope: Seq<char>, amount: u64) -> bool {
        &&& new.totals() == old.totals().insert(scope, (old.spend_of(scope) + amount) as u64)
        &&& new.daily() == old.daily()
    }

    /// Whether `new` is `old` after today's counters were reset.
    pub open spec fn daily_reset(old: &Self, new: &Self) -> bool {
        &&& new.daily() == Map::<Seq<char>, DailyUsage>::empty()
        &&& new.totals() == old.totals()
    }

    /// Create a new empty tracker.
    pub fn new() -> (r: Self)
        ensures
            r.totals() == Map::<Seq<char>, u64>::empty(),
            r.daily() == Map::<Seq<char>, DailyUsage>::empty(),
    {
        UsageTracker { totals: StringHashMap::new(), daily: StringHashMap::new() }
    }

    /// Record a charge against a scope.
    pub fn record(&mut self, scope_id: &str, amount_minor: u64)
        requires
            old(self).spend_of(scope_id@) + amount_minor <= u64::MAX,
        ensures
            Self::charge_recorded(old(self), final(self), scope_id@, amount_minor),
    {
        let current = self.current_spend(scope_id);
        self.totals.insert(string_of(scope_id), current + amount_minor);
    }

    /// Get current accumulated spend for a scope.
    pub fn current_spend(&self, scope_id: &str) -> (r: u64)
        ensures
            r == self.spend_of(scope_id@),
    {
        match self.totals.get(scope_id) {
            Some(v) => *v,
            None => 0,
        }
    }

    /// Check whether a proposed charge would exceed any of the given limits.
    ///
    /// Only the limits whose scope is `scope_id` apply. Returns `Ok(true)` if all of them
    /// pass, `Ok(false)` if any would be exceeded.
    pub fn check_limits(&self, scope_id: &str, proposed_minor: u64, limits: &[SpendingLimit]) -> (r:
        Result<bool, BillingError>)
        ensures
            r == Ok::<bool, BillingError>(
                forall|i: int|
                    0 <= i < limits@.len() && #[trigger] limits@[i].scope_id@ == scope_id@
                        ==> self.spend_of(scope_id@).saturating_add(proposed_minor)
                        <= limits@[i].max_amount_minor,
            ),
    {
        let current = self.current_spend(scope_id);
        let total = current.saturating_add(proposed_minor);
        let mut i: usize = 0;
        while i < limits.len()
            invariant
                0 <= i <= limits@.len(),
                current == self.spend_of(scope_id@),
                total == current.saturating_add(proposed_minor),
                forall|j: int|
                    0 <= j < i && #[trigger] limits@[j].scope_id@ == scope_id@ ==> total
                        <= limits@[j].max_amount_minor,
            decreases limits@.len() - i,
        {
            let limit = &limits[i];
            if crate::text::str_eq(limit.scope_id.as_str(), scope_id) {
                if total > limit.max_amount_minor {
                    return Ok(false);
                }
            }
            i = i + 1;
        }
        Ok(true)
    }

    /// Record one completed task of `cost_cents` for a scope: today's task count and
    /// spend grow (saturating), and so does the scope's accumulated spend.
    pub fn record_task(&mut self, scope_id: &str, cost_cents: u32)
        ensures
            Self::task_recorded(old(self), final(self), scope_id@, cost_cents),
    {
        let today = self.daily_usage(scope_id);
        let updated = DailyUsage {
            tasks: today.tasks.saturating_add(1),
            spend_cents: today.spend_cents.saturating_add(cost_cents),
        };
        self.daily.insert(string_of(scope_id), updated);
        let current = self.current_spend(scope_id);
        self.totals.insert(string_of(scope_id), current.saturating_add(cost_cents as u64));
    }

    /// Today's usage of a scope.
    pub fn daily_usage(&self, scope_id: &str) -> (r: DailyUsage)
        ensures
            r == self.daily_of(scope_id@),
    {
        match self.daily.get(scope_id) {
            Some(u) => *u,
            None => DailyUsage { tasks: 0, spend_cents: 0 },
        }
    }

    /// Number of tasks charged today for a scope.
    pub fn daily_task_count(&self, scope_id: &str) -> (r: u32)
        ensures
            r == self.daily_of(scope_id@).tasks,
    {
        self.daily_usage(scope_id).tasks
    }

    /// Cents charged today for a scope.
    pub fn daily_spend_cents(&self, scope_id: &str) -> (r: u32)
        ensures
            r == self.daily_of(scope_id@).spend_cents,
    {
        self.daily_usage(scope_id).spend_cents
    }

    /// Whether one more task of `cost_cents` would take today's spend of a scope above
    /// the limit.
    pub fn would_exceed_daily_limit(&self, scope_id: &str, cost_cents: u32, limit: &SpendingLimit) -> (r:
        bool)
        ensures
            r == (self.daily_of(scope_id@).spend_cents + cost_cents > limit.max_amount_minor),
    {
        let spent = self.daily_spend_cents(scope_id) as u64;
        spent + cost_cents as u64 > limit.max_amount_minor
    }

    /// Reset today's counters of every scope; accumulated spend is kept.
    pub fn reset_daily(&mut self)
        ensures
            Self::daily_reset(old(self), final(self)),
    {
        self.daily.clear();
    }
}

// ── Circuit Breaker ──────────────────────────────────────────────

/// Current state of the circuit breaker.
#[derive(Debug, Clone, Copy, PartialEq, Eq, Structural)]
pub enum CircuitState {
    /// Normal operation — payments can proceed.
    Closed,
    /// Breaker tripped — payments are halted.
    Open,
}

/// The observable state of a circuit breaker.
#[derive(Debug, Clone, Copy, PartialEq, Eq, Structural)]
pub struct BreakerState {
    /// Number of consecutive failures before the breaker trips.
    pub threshold: u32,
    /// Current consecutive failure count.
    pub failures: u32,
    /// Whether the breaker is open (tripped).
    pub open: bool,
}

/// A breaker with no failures recorded.
pub open spec fn fresh_breaker(threshold: u32) -> BreakerState {
    BreakerState { threshold, failures: 0, open: false }
}

/// The breaker state after one more failure.
pub open spec fn after_failure(s: BreakerState) -> BreakerState {
    let failures = s.failures.saturating_add(1);
    BreakerState { threshold: s.threshold, failures, open: s.open || failures >= s.threshold }
}

/// The breaker state after a success (or a manual reset).
pub open spec fn after_success(s: BreakerState) -> BreakerState {
    fresh_breaker(s.threshold)
}

/// The state reached from a fresh breaker after `n` consecutive failures.
pub open spec fn after_failures(threshold: u32, n: nat) -> BreakerState
    decreases n,
{
    if n == 0 {
        fresh_breaker(threshold)
    } else {
        after_failure(after_failures(threshold, (n - 1) as nat))
    }
}

/// Auto-halts payment processing when consecutive failures reach a threshold.
#[derive(Debug)]
pub struct CircuitBreaker {
    /// Number of consecutive failures before the breaker trips.
    threshold: u32,
    /// Current consecutive failure count.
    failure_count: u32,
    /// Whether the breaker is currently open (tripped).
    open: bool,
}

impl View for CircuitBreaker {
    type V = BreakerState;

    closed spec fn view(&self) -> BreakerState {
        BreakerState { threshold: self.threshold, failures: self.failure_count, open: self.open }
    }
}

impl CircuitBreaker {
    /// Create a new circuit breaker with the given failure threshold.
    pub fn new(threshold: u32) -> (r: Self)
        ensures
            r@ == fresh_breaker(threshold),
    {
        CircuitBreaker { threshold, failure_count: 0, open: false }
    }

    /// Current state of the breaker.
    pub fn state(&self) -> (r: CircuitState)
        ensures
            r == (if self@.open {
                CircuitState::Open
            } else {
                CircuitState::Closed
            }),
    {
        if self.open {
            CircuitState::Open
        } else {
            CircuitState::Closed
        }
    }

    /// Record a successful payment — resets the failure counter and closes the breaker.
    pub fn record_success(&mut self)
        ensures
            final(self)@ == after_success(old(self)@),
    {
        self.failure_count = 0;
        self.open = false;
    }

    /// Record a failed payment — increments the counter and trips at the threshold.
    pub fn record_failure(&mut self)
        ensures
            final(self)@ == after_failure(old(self)@),
    {
        self.failure_count = self.failure_count.saturating_add(1);
        if self.failure_count >= self.threshold {
            self.open = true;
        }
    }

    /// Whether a payment attempt is currently allowed.
    pub fn is_allowed(&self) -> (r: bool)
        ensures
            r == !self@.open,
    {
        !self.open
    }

    /// Manually reset the breaker (e.g. operator override).
    pub fn reset(&mut self)
        ensures
            final(self)@ == after_success(old(self)@),
    {
        self.failure_count = 0;
        self.open = false;
    }
}

// ── Prepayment Balance ───────────────────────────────────────────

/// Whether a task of `cost` cents may be charged against `balance` without the balance
/// going more than `max_overdraft` below zero.
pub open spec fn within_overdraft(balance: int, cost: int, max_overdraft: int) -> bool {
    balance - cost >= -max_overdraft
}

/// A balance after crediting `amount`, saturating at the largest representable balance.
pub open spec fn credited(balance: int, amount: int) -> int {
    if balance + amount > i64::MAX {
        i64::MAX as int
    } else {
        balance + amount
    }
}

/// Tracks the pre-paid balance of a user or tenant, in minor units (cents).
///
/// The balance is signed: task charges may take it negative, down to an overdraft
/// allowance (by default [`MAX_OVERDRAFT_CENTS`]).
#[derive(Debug, Clone)]
pub struct PrepaymentBalance {
    /// Opaque identifier for the balance owner (e.g. tenant ID).
    pub owner_id: String,
    /// Current balance in minor currency units.
    pub balance_cents: i64,
    /// Currency of the balance.
    pub currency: Currency,
}

impl PrepaymentBalance {
    /// Create a new prepayment balance.
    pub fn new(owner_id: &str, initial_balance_minor: u64, currency: Currency) -> (r: Self)
        requires
            initial_balance_minor <= i64::MAX,
        ensures
            r.owner_id@ == owner_id@,
            r.balance_cents == initial_balance_minor,
            r.currency == currency,
    {
        PrepaymentBalance {
            owner_id: string_of(owner_id),
            balance_cents: initial_balance_minor as i64,
            currency,
        }
    }

    /// A US-dollar balance holding `balance_cents`.
    pub fn with_balance(owner_id: &str, balance_cents: i64) -> (r: Self)
        ensures
            r.owner_id@ == owner_id@,
            r.balance_cents == balance_cents,
            r.currency == Currency::Usd,
    {
        PrepaymentBalance { owner_id: string_of(owner_id), balance_cents, currency: Currency::Usd }
    }

    /// Add funds to the balance (saturating at the largest representable balance).
    pub fn credit(&mut self, amount_minor: u64)
        ensures
            final(self).balance_cents == credited(old(self).balance_cents as int, amount_minor as int),
            final(self).owner_id == old(self).owner_id,
            final(self).currency == old(self).currency,
    {
        let room: u64 = (i64::MAX as i128 - self.balance_cents as i128) as u64;
        if amount_minor > room {
            self.balance_cents = i64::MAX;
        } else {
            self.balance_cents = (self.balance_cents as i128 + amount_minor as i128) as i64;
        }
    }

    /// Attempt to debit funds from the balance.
    ///
    /// Returns `true` if the debit succeeded (sufficient funds), `false` if the balance
    /// does not cover the amount; a refused debit leaves the balance unchanged.
    pub fn debit(&mut self, amount_minor: u64) -> (r: bool)
        ensures
            r == (old(self).balance_cents >= amount_minor),
            final(self).balance_cents == (if r {
                old(self).balance_cents - amount_minor
            } else {
                old(self).balance_cents as int
            }),
            final(self).owner_id == old(self).owner_id,
            final(self).currency == old(self).currency,
    {
        if self.balance_cents >= 0 && self.balance_cents as u64 >= amount_minor {
            self.balance_cents = (self.balance_cents as i128 - amount_minor as i128) as i64;
            true
        } else {
            false
        }
    }

    /// Current balance in minor units.
    pub fn balance(&self) -> (r: i64)
        ensures
            r == self.balance_cents,
    {
        self.balance_cents
    }

    /// Whether the balance can cover a proposed charge.
    pub fn can_cover(&self, amount_minor: u64) -> (r: bool)
        ensures
            r == (self.balance_cents >= amount_minor),
    {
        self.balance_cents >= 0 && self.balance_cents as u64 >= amount_minor
    }

    /// Add a top-up of `amount_cents`, refused when it is below `min_topup_cents`.
    pub fn top_up(&mut self, amount_cents: u32, min_topup_cents: u32) -> (r: Result<(), BillingError>)
        requires
            amount_cents >= min_topup_cents ==> old(self).balance_cents + amount_cents <= i64::MAX,
        ensures
            r is Ok <==> amount_cents >= min_topup_cents,
            r matches Err(e) ==> e == (BillingError::TopUpBelowMinimum {
                amount_cents,
                min_topup_cents,
            }),
            final(self).balance_cents == (if r is Ok {
                old(self).balance_cents + amount_cents
            } else {
                old(self).balance_cents as int
            }),
            final(self).owner_id == old(self).owner_id,
            final(self).currency == old(self).currency,
    {
        if amount_cents < min_topup_cents {
            return Err(BillingError::TopUpBelowMinimum { amount_cents, min_topup_cents });
        }
        self.balance_cents = self.balance_cents + amount_cents as i64;
        Ok(())
    }

    /// Whether a task of `cost_cents` may start: charging it would take the balance no
    /// more than `max_overdraft_cents` below zero.
    pub fn can_start_task(&self, cost_cents: u32, max_overdraft_cents: u32) -> (r: bool)
        ensures
            r == within_overdraft(self.balance_cents as int, cost_cents as int, max_overdraft_cents as int),
    {
        self.balance_cents as i128 - cost_cents as i128 >= -(max_overdraft_cents as i128)
    }

    /// Charge a task of `cost_cents`, allowing the balance to go negative down to
    /// `-max_overdraft_cents`. Returns whether the task was charged; a refused charge
    /// leaves the balance unchanged.
    pub fn debit_task(&mut self, cost_cents: u32, max_overdraft_cents: u32) -> (r: bool)
        ensures
            r == within_overdraft(old(self).balance_cents as int, cost_cents as int, max_overdraft_cents as int),
            final(self).balance_cents == (if r {
                old(self).balance_cents - cost_cents
            } else {
                old(self).balance_cents as int
            }),
            final(self).owner_id == old(self).owner_id,
            final(self).currency == old(self).currency,
    {
        if self.can_start_task(cost_cents, max_overdraft_cents) {
            self.balance_cents = (self.balance_cents as i128 - cost_cents as i128) as i64;
            true
        } else {
            false
        }
    }

    /// The balance as dollars, such as `$9.80`.
    pub fn balance_display(&self) -> (r: String)
        ensures
            r@ == cents_text(self.balance_cents as int),
    {
        format_cents(self.balance_cents)
    }

    /// The low-balance warning level of this balance against the given thresholds.
    pub fn warning_level(&self, thresholds: &[u32]) -> (r: WarningLevel)
        ensures
            r == warning_for(self.balance_cents as int, thresholds@),
    {
        if thresholds.len() > 1 && self.balance_cents <= thresholds[1] as i64 {
            WarningLevel::Critical
        } else if thresholds.len() > 0 && self.balance_cents <= thresholds[0] as i64 {
            WarningLevel::Low
        } else {
            WarningLevel::Normal
        }
    }
}

} // verus!
