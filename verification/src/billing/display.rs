//! Batched real-time cost display.
//!
//! Accumulates task costs and yields periodic display updates rather than one event per
//! charge. Callers flush on a timer (e.g. every 2-5 seconds) and at session end; a flush
//! yields an update only when there is new activity to report.
use vstd::prelude::*;
use crate::billing::spending::{format_cents, WarningLevel};
use crate::text::cents_text;

verus! {

/// A batched cost display update.
#[derive(Debug, Clone)]
pub struct DisplayUpdate {
    /// Formatted current balance (e.g. "$7.40").
    pub balance: String,
    /// Number of tasks completed since last update.
    pub tasks_since_last: u32,
    /// Cost accumulated since last update in cents.
    pub cost_since_last_cents: u32,
    /// Formatted cost since last update (e.g. "$0.30").
    pub cost_since_last: String,
    /// Session totals.
    pub session_tasks: u32,
    /// Session total cost in cents.
    pub session_cost_cents: u32,
    /// Formatted session total cost.
    pub session_cost: String,
    /// Current warning level.
    pub warning: WarningLevel,
}

/// The counters of a cost display.
#[derive(Debug, Clone, Copy, PartialEq, Eq, Structural)]
pub struct DisplayCounters {
    /// Tasks since last flush.
    pub pending_tasks: u32,
    /// Cost since last flush in cents.
    pub pending_cost_cents: u32,
    /// Total tasks this session.
    pub session_tasks: u32,
    /// Total cost this session in cents.
    pub session_cost_cents: u32,
}

/// Counters with nothing recorded.
pub open spec fn empty_counters() -> DisplayCounters {
    DisplayCounters { pending_tasks: 0, pending_cost_cents: 0, session_tasks: 0, session_cost_cents: 0 }
}

/// Whether one more task of `cost` can be recorded without a counter overflowing.
pub open spec fn can_record(c: DisplayCounters, cost: u32) -> bool {
    &&& c.pending_tasks + 1 <= u32::MAX
    &&& c.pending_cost_cents + cost <= u32::MAX
    &&& c.session_tasks + 1 <= u32::MAX
    &&& c.session_cost_cents + cost <= u32::MAX
}

/// The counters after one more task of `cost`.
pub open spec fn after_record(c: DisplayCounters, cost: u32) -> DisplayCounters {
    DisplayCounters {
        pending_tasks: (c.pending_tasks + 1) as u32,
        pending_cost_cents: (c.pending_cost_cents + cost) as u32,
        session_tasks: (c.session_tasks + 1) as u32,
        session_cost_cents: (c.session_cost_cents + cost) as u32,
    }
}

/// The counters after a flush: pending activity cleared, session totals kept.
pub open spec fn after_flush(c: DisplayCounters) -> DisplayCounters {
    DisplayCounters { pending_tasks: 0, pending_cost_cents: 0, ..c }
}

/// Batched cost display accumulator.
///
/// Call [`CostDisplay::record`] after each task charge and [`CostDisplay::flush`]
/// periodically to get display updates.
#[derive(Debug)]
pub struct CostDisplay {
    /// Tasks since last flush.
    pending_tasks: u32,
    /// Cost since last flush in cents.
    pending_cost_cents: u32,
    /// Total tasks this session.
    session_tasks: u32,
    /// Total cost this session in cents.
    session_cost_cents: u32,
}

impl View for CostDisplay {
    type V = DisplayCounters;

    closed spec fn view(&self) -> DisplayCounters {
        DisplayCounters {
            pending_tasks: self.pending_tasks,
            pending_cost_cents: self.pending_cost_cents,
            session_tasks: self.session_tasks,
            session_cost_cents: self.session_cost_cents,
        }
    }
}

impl CostDisplay {
    /// An empty display.
    pub fn new() -> (r: Self)
        ensures
            r@ == empty_counters(),
    {
        CostDisplay { pending_tasks: 0, pending_cost_cents: 0, session_tasks: 0, session_cost_cents: 0 }
    }

    /// Record a completed task charge.
    pub fn record(&mut self, cost_cents: u32)
        requires
            can_record(old(self)@, cost_cents),
        ensures
            final(self)@ == after_record(old(self)@, cost_cents),
    {
        self.pending_tasks = self.pending_tasks + 1;
        self.pending_cost_cents = self.pending_cost_cents + cost_cents;
        self.session_tasks = self.session_tasks + 1;
        self.session_cost_cents = self.session_cost_cents + cost_cents;
    }

    /// Flush pending activity into a display update.
    ///
    /// Returns `None` if there is no new activity since the last flush. The caller
    /// provides the current balance and warning level.
    pub fn flush(&mut self, current_balance_cents: i64, warning: WarningLevel) -> (r: Option<
        DisplayUpdate,
    >)
        ensures
            r is None <==> old(self)@.pending_tasks == 0,
            r is None ==> final(self)@ == old(self)@,
            r matches Some(u) ==> {
                &&& final(self)@ == after_flush(old(self)@)
                &&& u.balance@ == cents_text(current_balance_cents as int)
                &&& u.tasks_since_last == old(self)@.pending_tasks
                &&& u.cost_since_last_cents == old(self)@.pending_cost_cents
                &&& u.cost_since_last@ == cents_text(old(self)@.pending_cost_cents as int)
                &&& u.session_tasks == old(self)@.session_tasks
                &&& u.session_cost_cents == old(self)@.session_cost_cents
                &&& u.session_cost@ == cents_text(old(self)@.session_cost_cents as int)
                &&& u.warning == warning
            },
    {
        if self.pending_tasks == 0 {
            return None;
        }
        let update = DisplayUpdate {
            balance: format_cents(current_balance_cents),
            tasks_since_last: self.pending_tasks,
            cost_since_last_cents: self.pending_cost_cents,
            cost_since_last: format_cents(self.pending_cost_cents as i64),
            session_tasks: self.session_tasks,
            session_cost_cents: self.session_cost_cents,
            session_cost: format_cents(self.session_cost_cents as i64),
            warning,
        };
        self.pending_tasks = 0;
        self.pending_cost_cents = 0;
        Some(update)
    }

    /// Whether one more task of `cost_cents` can be recorded without a counter
    /// overflowing.
    pub fn can_record_cost(&self, cost_cents: u32) -> (r: bool)
        ensures
            r == can_record(self@, cost_cents),
    {
        self.pending_tasks < u32::MAX && self.session_tasks < u32::MAX && self.pending_cost_cents
            <= u32::MAX - cost_cents && self.session_cost_cents <= u32::MAX - cost_cents
    }

    /// Whether there is pending activity to flush.
    pub fn has_pending(&self) -> (r: bool)
        ensures
            r == (self@.pending_tasks > 0),
    {
        self.pending_tasks > 0
    }

    /// Total tasks this session.
    pub fn session_tasks(&self) -> (r: u32)
        ensures
            r == self@.session_tasks,
    {
        self.session_tasks
    }

    /// Total cost this session in cents.
    pub fn session_cost_cents(&self) -> (r: u32)
        ensures
            r == self@.session_cost_cents,
    {
        self.session_cost_cents
    }

    /// Reset session totals (e.g. on new session).
    pub fn reset_session(&mut self)
        ensures
            final(self)@ == empty_counters(),
    {
        self.pending_tasks = 0;
        self.pending_cost_cents = 0;
        self.session_tasks = 0;
        self.session_cost_cents = 0;
    }
}

} // verus!
