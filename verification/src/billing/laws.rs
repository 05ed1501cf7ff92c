//! Properties of the billing rules that span several operations.
use vstd::prelude::*;
use crate::billing::display::{after_flush, after_record, can_record, empty_counters, DisplayCounters};
use crate::billing::metering::preflight_denial;
use crate::billing::registered_keys;
use crate::billing::traits::{Currency, PaymentProvider};
use crate::billing::{
    AmexProvider, AnyPaymentProvider, CashAppProvider, CryptoProvider, PaypalProvider,
    StripeProvider, VenmoProvider,
};
use crate::billing::spending::{
    after_failure, after_failures, after_success, credited, daily_after_task, fresh_breaker,
    warning_for, within_overdraft, BreakerState, DailyUsage, UsageTracker, WarningLevel,
};

verus! {

/// A task that passes the preflight check is charged when it completes: the balance
/// condition of the preflight check is the one the charge applies, so the charge takes
/// the balance at most `max_overdraft` below zero.
pub proof fn law_admitted_task_is_charged(
    cost: int,
    balance: int,
    spent_today: int,
    daily_limit: int,
    halted: bool,
    max_overdraft: int,
)
    requires
        preflight_denial(cost, balance, spent_today, daily_limit, halted, max_overdraft) is None,
    ensures
        within_overdraft(balance, cost, max_overdraft),
        balance - cost >= -max_overdraft,
{
}

/// Charging a task that passed the preflight check keeps today's spend within the daily
/// limit (the soft cap is never overrun by admitted tasks).
pub proof fn law_admitted_task_stays_within_daily_limit(
    cost: u32,
    balance: int,
    today: DailyUsage,
    daily_limit: u32,
    halted: bool,
    max_overdraft: int,
)
    requires
        preflight_denial(
            cost as int,
            balance,
            today.spend_cents as int,
            daily_limit as int,
            halted,
            max_overdraft,
        ) is None,
    ensures
        daily_after_task(today, cost).spend_cents == today.spend_cents + cost,
        daily_after_task(today, cost).spend_cents <= daily_limit,
{
}

/// After a daily reset, a new task is refused only by the circuit breaker, a task price
/// above the whole daily limit, or the balance.
pub proof fn law_reset_clears_daily_cap(
    cost: int,
    balance: int,
    daily_limit: int,
    halted: bool,
    max_overdraft: int,
)
    requires
        !halted,
        cost <= daily_limit,
        within_overdraft(balance, cost, max_overdraft),
    ensures
        preflight_denial(cost, balance, 0, daily_limit, halted, max_overdraft) is None,
{
}

/// A larger overdraft allowance refuses no task that a smaller one admits.
pub proof fn law_larger_overdraft_admits_more(
    cost: int,
    balance: int,
    spent_today: int,
    daily_limit: int,
    halted: bool,
    smaller: int,
    larger: int,
)
    requires
        smaller <= larger,
        preflight_denial(cost, balance, spent_today, daily_limit, halted, smaller) is None,
    ensures
        preflight_denial(cost, balance, spent_today, daily_limit, halted, larger) is None,
{
}

/// The circuit breaker trips exactly when the number of consecutive failures since it
/// was last closed reaches the threshold (and at least one failure happened).
pub proof fn law_breaker_trips_at_threshold(threshold: u32, n: nat)
    requires
        n <= u32::MAX,
    ensures
        after_failures(threshold, n).failures == n,
        after_failures(threshold, n).open == (n >= 1 && n >= threshold),
        after_failures(threshold, n).threshold == threshold,
    decreases n,
{
    if n > 0 {
        law_breaker_trips_at_threshold(threshold, (n - 1) as nat);
    }
}

/// A success (or a manual reset) always closes the breaker and clears its failures.
pub proof fn law_success_closes_breaker(s: BreakerState)
    ensures
        !after_success(s).open,
        after_success(s).failures == 0,
        after_success(s) == fresh_breaker(s.threshold),
{
}

/// Once open, the breaker stays open through further failures.
pub proof fn law_open_breaker_stays_open(s: BreakerState)
    requires
        s.open,
    ensures
        after_failure(s).open,
{
}

/// With thresholds in decreasing order, a lower balance never gets a milder warning.
pub proof fn law_warning_monotone(low: u32, critical: u32, b1: int, b2: int)
    requires
        critical <= low,
        b1 <= b2,
    ensures
        severity(warning_for(b1, seq![low, critical])) >= severity(warning_for(
            b2,
            seq![low, critical],
        )),
{
}

/// The rank of a warning level: none 0, low 1, critical 2.
pub open spec fn severity(w: WarningLevel) -> int {
    match w {
        WarningLevel::Normal => 0,
        WarningLevel::Low => 1,
        WarningLevel::Critical => 2,
    }
}

/// The cost display counters after recording each cost in turn.
pub open spec fn record_all(c: DisplayCounters, costs: Seq<u32>) -> DisplayCounters
    decreases costs.len(),
{
    if costs.len() == 0 {
        c
    } else {
        after_record(record_all(c, costs.drop_last()), costs.last())
    }
}

/// The sum of a list of costs.
pub open spec fn total_cost(costs: Seq<u32>) -> int
    decreases costs.len(),
{
    if costs.len() == 0 {
        0
    } else {
        total_cost(costs.drop_last()) + costs.last()
    }
}

/// Whether every prefix of `costs` can be recorded without overflow, starting at `c`.
pub open spec fn recordable(c: DisplayCounters, costs: Seq<u32>) -> bool
    decreases costs.len(),
{
    if costs.len() == 0 {
        true
    } else {
        recordable(c, costs.drop_last()) && can_record(
            record_all(c, costs.drop_last()),
            costs.last(),
        )
    }
}

/// The session totals of a fresh display count every recorded task and its cost, and the
/// pending counters hold the same until the first flush.
pub proof fn law_display_totals_are_sums(costs: Seq<u32>)
    requires
        recordable(empty_counters(), costs),
    ensures
        record_all(empty_counters(), costs).session_tasks == costs.len(),
        record_all(empty_counters(), costs).session_cost_cents == total_cost(costs),
        record_all(empty_counters(), costs).pending_tasks == costs.len(),
        record_all(empty_counters(), costs).pending_cost_cents == total_cost(costs),
    decreases costs.len(),
{
    if costs.len() > 0 {
        law_display_totals_are_sums(costs.drop_last());
    }
}

/// A flush clears pending activity and keeps the session totals.
pub proof fn law_flush_keeps_session(c: DisplayCounters)
    ensures
        after_flush(c).pending_tasks == 0,
        after_flush(c).pending_cost_cents == 0,
        after_flush(c).session_tasks == c.session_tasks,
        after_flush(c).session_cost_cents == c.session_cost_cents,
{
}

/// A recorded charge is read back: the scope's accumulated spend grows by the charge, and
/// every other scope's spend, and today's usage of every scope, stay as they were.
pub proof fn law_recorded_charge_is_read_back(
    before: UsageTracker,
    after: UsageTracker,
    scope: Seq<char>,
    amount: u64,
    other: Seq<char>,
)
    requires
        before.spend_of(scope) + amount <= u64::MAX,
        UsageTracker::charge_recorded(&before, &after, scope, amount),
    ensures
        after.spend_of(scope) == before.spend_of(scope) + amount,
        other != scope ==> after.spend_of(other) == before.spend_of(other),
        after.daily_of(other) == before.daily_of(other),
{
}

/// A recorded task is read back: the scope's usage today counts one more task and its
/// cost, its accumulated spend grows by the cost (both saturating), and other scopes stay
/// as they were.
pub proof fn law_recorded_task_is_read_back(
    before: UsageTracker,
    after: UsageTracker,
    scope: Seq<char>,
    cost: u32,
    other: Seq<char>,
)
    requires
        UsageTracker::task_recorded(&before, &after, scope, cost),
    ensures
        after.daily_of(scope) == daily_after_task(before.daily_of(scope), cost),
        after.spend_of(scope) == before.spend_of(scope).saturating_add(cost as u64),
        other != scope ==> after.daily_of(other) == before.daily_of(other),
        other != scope ==> after.spend_of(other) == before.spend_of(other),
{
}

/// A daily reset zeroes every scope's usage today and keeps every scope's accumulated
/// spend.
pub proof fn law_daily_reset_keeps_spend(before: UsageTracker, after: UsageTracker, scope: Seq<char>)
    requires
        UsageTracker::daily_reset(&before, &after),
    ensures
        after.daily_of(scope) == (DailyUsage { tasks: 0, spend_cents: 0 }),
        after.spend_of(scope) == before.spend_of(scope),
{
}

/// Debiting what was just credited to a non-negative balance succeeds and restores the
/// balance (when the credit did not saturate).
pub proof fn law_debit_undoes_credit(balance: i64, amount: u64)
    requires
        0 <= balance,
        balance + amount <= i64::MAX,
    ensures
        credited(balance as int, amount as int) >= amount,
        credited(balance as int, amount as int) - amount == balance,
{
}

/// Whether every character of a key is a lower-case ASCII letter.
pub open spec fn is_lowercase_key(k: Seq<char>) -> bool {
    forall|i: int| 0 <= i < k.len() ==> 'a' <= #[trigger] k[i] <= 'z'
}

/// The registered provider keys are non-empty, lower-case and pairwise distinct.
pub proof fn law_registered_keys_lowercase_and_distinct()
    ensures
        registered_keys().len() > 0,
        forall|i: int| 0 <= i < registered_keys().len() ==> is_lowercase_key(#[trigger] registered_keys()[i]),
        forall|i: int, j: int|
            0 <= i < j < registered_keys().len() ==> #[trigger] registered_keys()[i] != #[trigger] registered_keys()[j],
{
    reveal_strlit("stripe");
    reveal_strlit("crypto");
    reveal_strlit("amex");
    reveal_strlit("paypal");
    reveal_strlit("venmo");
    reveal_strlit("cashapp");
    let k = registered_keys();
    assert(k[0] =~= seq!['s', 't', 'r', 'i', 'p', 'e']);
    assert(k[1] =~= seq!['c', 'r', 'y', 'p', 't', 'o']);
    assert(k[2] =~= seq!['a', 'm', 'e', 'x']);
    assert(k[3] =~= seq!['p', 'a', 'y', 'p', 'a', 'l']);
    assert(k[4] =~= seq!['v', 'e', 'n', 'm', 'o']);
    assert(k[5] =~= seq!['c', 'a', 's', 'h', 'a', 'p', 'p']);
    assert forall|i: int, j: int| 0 <= i < j < k.len() implies #[trigger] k[i] != #[trigger] k[j] by {
        if k[i] == k[j] {
            assert(k[i][0] == k[j][0]);
            assert(k[i][1] == k[j][1]);
        }
    }
}

/// Which currencies each provider supports: Stripe, Amex and PayPal the four fiat
/// currencies (USD, EUR, GBP, JPY); the crypto provider BTC, ETH and USDC; Venmo USD only;
/// Cash App USD and GBP. A registered provider supports what its backend supports.
pub proof fn law_provider_currencies(
    stripe: StripeProvider,
    amex: AmexProvider,
    paypal: PaypalProvider,
    crypto: CryptoProvider,
    venmo: VenmoProvider,
    cashapp: CashAppProvider,
    any: AnyPaymentProvider,
    c: Currency,
)
    ensures
        stripe.accepts(c) <==> (c == Currency::Usd || c == Currency::Eur || c == Currency::Gbp
            || c == Currency::Jpy),
        amex.accepts(c) <==> (c == Currency::Usd || c == Currency::Eur || c == Currency::Gbp
            || c == Currency::Jpy),
        paypal.accepts(c) <==> (c == Currency::Usd || c == Currency::Eur || c == Currency::Gbp
            || c == Currency::Jpy),
        crypto.accepts(c) <==> (c == Currency::Btc || c == Currency::Eth || c == Currency::Usdc),
        venmo.accepts(c) <==> c == Currency::Usd,
        cashapp.accepts(c) <==> (c == Currency::Usd || c == Currency::Gbp),
        any matches AnyPaymentProvider::Stripe(p) ==> (any.accepts(c) <==> p.accepts(c)),
        any matches AnyPaymentProvider::Amex(p) ==> (any.accepts(c) <==> p.accepts(c)),
        any matches AnyPaymentProvider::Paypal(p) ==> (any.accepts(c) <==> p.accepts(c)),
        any matches AnyPaymentProvider::Crypto(p) ==> (any.accepts(c) <==> p.accepts(c)),
        any matches AnyPaymentProvider::Venmo(p) ==> (any.accepts(c) <==> p.accepts(c)),
        any matches AnyPaymentProvider::CashApp(p) ==> (any.accepts(c) <==> p.accepts(c)),
{
}

} // verus!
