use vstd::prelude::*;

verus! {

/// Credits are counted in units of a six-hundredth of a credit, so that a
/// tenth of a credit per minute of uptime is one unit per second.
pub const CREDIT_UNITS_PER_CREDIT: u128 = 600;

/// Units earned per second of uptime.
pub const UNITS_PER_UPTIME_SECOND: u128 = 1;

/// Units earned per task processed (five credits).
pub const UNITS_PER_TASK_PROCESSED: u128 = 3000;

/// Units earned per message relayed (one credit).
pub const UNITS_PER_TASK_RELAYED: u128 = 600;

/// How often the credits are recomputed, in milliseconds.
pub const METRICS_INTERVAL_MILLIS: u64 = 5000;

/// The credit balance, in units, of a node with these counters.
pub open spec fn credit_units_for(uptime_seconds: u64, tasks_processed: u64, tasks_relayed: u64) -> int {
    uptime_seconds * UNITS_PER_UPTIME_SECOND + tasks_processed * UNITS_PER_TASK_PROCESSED
        + tasks_relayed * UNITS_PER_TASK_RELAYED
}

/// A counter one up, held at its ceiling.
pub open spec fn bumped(n: u64) -> u64 {
    if n < u64::MAX {
        (n + 1) as u64
    } else {
        n
    }
}

/// A node's local contribution ledger.
#[derive(Debug, Clone, Copy, PartialEq, Eq, Structural)]
pub struct NodeMetrics {
    pub uptime_seconds: u64,
    pub tasks_processed: u64,
    pub tasks_relayed: u64,
    pub credit_units: u128,
}

/// The ledger after one inbound message; `decoded_task` tells whether it was a
/// task that decoded.
pub open spec fn after_message(m: NodeMetrics, decoded_task: bool) -> NodeMetrics {
    NodeMetrics {
        tasks_relayed: bumped(m.tasks_relayed),
        tasks_processed: if decoded_task {
            bumped(m.tasks_processed)
        } else {
            m.tasks_processed
        },
        ..m
    }
}

/// The ledger after a recomputation at `uptime_seconds`.
pub open spec fn after_refresh(m: NodeMetrics, uptime_seconds: u64) -> NodeMetrics {
    NodeMetrics {
        uptime_seconds,
        credit_units: credit_units_for(uptime_seconds, m.tasks_processed, m.tasks_relayed) as u128,
        ..m
    }
}

fn bump(n: u64) -> (r: u64)
    ensures
        r == bumped(n),
{
    if n < u64::MAX {
        n + 1
    } else {
        n
    }
}

/// The credit balance, in units, of a node with these counters.
pub fn credit_units(uptime_seconds: u64, tasks_processed: u64, tasks_relayed: u64) -> (r: u128)
    ensures
        r == credit_units_for(uptime_seconds, tasks_processed, tasks_relayed),
{
    assert(tasks_processed * UNITS_PER_TASK_PROCESSED <= u64::MAX * 3000) by (nonlinear_arith);
    assert(tasks_relayed * UNITS_PER_TASK_RELAYED <= u64::MAX * 600) by (nonlinear_arith);
    uptime_seconds as u128 * UNITS_PER_UPTIME_SECOND + tasks_processed as u128
        * UNITS_PER_TASK_PROCESSED + tasks_relayed as u128 * UNITS_PER_TASK_RELAYED
}

/// Whether the credits are due for recomputation, `elapsed_millis` after the
/// last one.
pub fn metrics_due(elapsed_millis: u64) -> (r: bool)
    ensures
        r == (elapsed_millis > METRICS_INTERVAL_MILLIS),
{
    elapsed_millis > METRICS_INTERVAL_MILLIS
}

impl NodeMetrics {
    /// An empty ledger.
    pub fn new() -> (r: NodeMetrics)
        ensures
            r == (NodeMetrics {
                uptime_seconds: 0,
                tasks_processed: 0,
                tasks_relayed: 0,
                credit_units: 0,
            }),
    {
        NodeMetrics { uptime_seconds: 0, tasks_processed: 0, tasks_relayed: 0, credit_units: 0 }
    }

    /// An empty ledger that opens with a carried-over balance.
    pub fn with_credits(credit_units: u128) -> (r: NodeMetrics)
        ensures
            r == (NodeMetrics {
                uptime_seconds: 0,
                tasks_processed: 0,
                tasks_relayed: 0,
                credit_units,
            }),
    {
        NodeMetrics { uptime_seconds: 0, tasks_processed: 0, tasks_relayed: 0, credit_units }
    }

    /// Counts one inbound message on any topic, and one processed task where
    /// it was a task that decoded.
    pub fn record_message(&mut self, decoded_task: bool)
        ensures
            *final(self) == after_message(*old(self), decoded_task),
    {
        self.tasks_relayed = bump(self.tasks_relayed);
        if decoded_task {
            self.tasks_processed = bump(self.tasks_processed);
        }
    }

    /// Sets the uptime and recomputes the credits from the counters.
    pub fn refresh(&mut self, uptime_seconds: u64)
        ensures
            *final(self) == after_refresh(*old(self), uptime_seconds),
    {
        self.uptime_seconds = uptime_seconds;
        self.credit_units = credit_units(uptime_seconds, self.tasks_processed, self.tasks_relayed);
    }
}

/// The counters never go down, and the credits set by a recomputation depend
/// on the uptime and the two counters alone.
pub proof fn lemma_metrics_monotone(m: NodeMetrics, n: NodeMetrics, decoded_task: bool, t: u64)
    ensures
        after_message(m, decoded_task).tasks_relayed >= m.tasks_relayed,
        after_message(m, decoded_task).tasks_processed >= m.tasks_processed,
        after_refresh(m, t).tasks_relayed == m.tasks_relayed,
        after_refresh(m, t).tasks_processed == m.tasks_processed,
        after_refresh(m, t).credit_units == credit_units_for(t, m.tasks_processed, m.tasks_relayed),
        (m.tasks_processed == n.tasks_processed && m.tasks_relayed == n.tasks_relayed)
            ==> after_refresh(m, t).credit_units == after_refresh(n, t).credit_units,
{
}

} // verus!
