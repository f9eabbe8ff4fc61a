//! The interval scheduler: epoch-aligned boundary arithmetic and the state
//! machine that serializes refresh cycles.

use vstd::arithmetic::div_mod::{lemma_fundamental_div_mod, lemma_mod_multiples_basic};
use vstd::arithmetic::mul::{lemma_mul_is_commutative, lemma_mul_is_distributive_add};
use vstd::prelude::*;

verus! {

/// Seconds between epoch-aligned firings of the current-weather refresher.
pub const WEATHER_INTERVAL_SECS: u64 = 3600;

/// Seconds between epoch-aligned firings of the forecast refresher.
pub const FORECAST_INTERVAL_SECS: u64 = 21600;

/// The delay from `now_secs` until the next interval boundary aligned to the
/// Unix epoch. When `now_secs` sits exactly on a boundary the delay is a full
/// interval: the scheduler always waits for the next firing.
pub open spec fn boundary_delay(interval_secs: int, now_secs: int) -> int {
    interval_secs - now_secs % interval_secs
}

/// Delay until the next epoch-aligned interval boundary. The first firing of
/// the scheduler lands on an absolute boundary (a multiple of the interval
/// since the epoch), not on an offset of process start.
pub fn next_interval(interval_secs: u64, now_secs: u64) -> (delay: u64)
    requires
        1 <= interval_secs,
    ensures
        delay == boundary_delay(interval_secs as int, now_secs as int),
        1 <= delay <= interval_secs,
        (now_secs + delay) % (interval_secs as int) == 0,
{
    let delay = interval_secs - now_secs % interval_secs;
    proof {
        let i = interval_secs as int;
        let n = now_secs as int;
        let q = n / i;
        lemma_fundamental_div_mod(n, i);
        lemma_mul_is_distributive_add(i, q, 1);
        assert(n + delay == i * (q + 1));
        lemma_mul_is_commutative(i, q + 1);
        lemma_mod_multiples_basic(q + 1, i);
    }
    delay
}

/// Relies on chrono's `Utc::now`: the wall clock as non-leap seconds since
/// the Unix epoch. Nothing is assumed of the reading; callers hold for every
/// value.
#[verifier::external_body]
fn now_unix_secs() -> i64 {
    chrono::Utc::now().timestamp()
}

/// Delay from the wall clock's current reading until the next epoch-aligned
/// boundary. A reading before the epoch is treated as the epoch itself.
pub fn delay_until_boundary(interval_secs: u64) -> (delay: u64)
    requires
        1 <= interval_secs,
    ensures
        1 <= delay <= interval_secs,
{
    let now = now_unix_secs();
    let now_secs: u64 = if now >= 0 {
        now as u64
    } else {
        0
    };
    next_interval(interval_secs, now_secs)
}

/// Where the scheduler stands between events. It never terminates: after a
/// cycle it goes back to waiting for the next boundary.
#[derive(Debug, Clone, Copy, PartialEq, Eq, Structural)]
pub enum SchedulerPhase {
    /// Not yet armed.
    Idle,
    /// Armed and sleeping until the next epoch-aligned boundary.
    Waiting,
    /// A refresh cycle is in flight; `queued` records that a boundary fired
    /// while it ran, so one firing is owed as soon as the cycle ends.
    Running { queued: bool },
}

/// What can happen to the scheduler.
#[derive(Debug, Clone, Copy, PartialEq, Eq, Structural)]
pub enum SchedulerEvent {
    /// The scheduler is started.
    Arm,
    /// An epoch-aligned interval boundary fired.
    Boundary,
    /// The refresh cycle in flight finished, well or badly.
    CycleDone,
}

/// What the scheduler asks its driver to do after an event.
#[derive(Debug, Clone, Copy, PartialEq, Eq, Structural)]
pub enum SchedulerAction {
    /// Nothing to do.
    DoNothing,
    /// Start one refresh cycle now.
    BeginCycle,
}

/// The scheduler's transition relation. Cycles are serialized: a boundary
/// that fires during a running cycle is queued, never acted on at once and
/// never dropped; a failed cycle still returns the scheduler to `Waiting`,
/// so the next boundary fires regardless.
pub open spec fn scheduler_step_spec(
    phase: SchedulerPhase,
    event: SchedulerEvent,
) -> (SchedulerPhase, SchedulerAction) {
    match (phase, event) {
        (SchedulerPhase::Idle, SchedulerEvent::Arm) => (
            SchedulerPhase::Waiting,
            SchedulerAction::DoNothing,
        ),
        (SchedulerPhase::Waiting, SchedulerEvent::Boundary) => (
            SchedulerPhase::Running { queued: false },
            SchedulerAction::BeginCycle,
        ),
        (SchedulerPhase::Running { queued: _ }, SchedulerEvent::Boundary) => (
            SchedulerPhase::Running { queued: true },
            SchedulerAction::DoNothing,
        ),
        (SchedulerPhase::Running { queued: true }, SchedulerEvent::CycleDone) => (
            SchedulerPhase::Running { queued: false },
            SchedulerAction::BeginCycle,
        ),
        (SchedulerPhase::Running { queued: false }, SchedulerEvent::CycleDone) => (
            SchedulerPhase::Waiting,
            SchedulerAction::DoNothing,
        ),
        _ => (phase, SchedulerAction::DoNothing),
    }
}

/// Advance the scheduler by one event.
pub fn scheduler_step(
    phase: SchedulerPhase,
    event: SchedulerEvent,
) -> (r: (SchedulerPhase, SchedulerAction))
    ensures
        r == scheduler_step_spec(phase, event),
{
    match (phase, event) {
        (SchedulerPhase::Idle, SchedulerEvent::Arm) => (
            SchedulerPhase::Waiting,
            SchedulerAction::DoNothing,
        ),
        (SchedulerPhase::Waiting, SchedulerEvent::Boundary) => (
            SchedulerPhase::Running { queued: false },
            SchedulerAction::BeginCycle,
        ),
        (SchedulerPhase::Running { queued: _ }, SchedulerEvent::Boundary) => (
            SchedulerPhase::Running { queued: true },
            SchedulerAction::DoNothing,
        ),
        (SchedulerPhase::Running { queued: true }, SchedulerEvent::CycleDone) => (
            SchedulerPhase::Running { queued: false },
            SchedulerAction::BeginCycle,
        ),
        (SchedulerPhase::Running { queued: false }, SchedulerEvent::CycleDone) => (
            SchedulerPhase::Waiting,
            SchedulerAction::DoNothing,
        ),
        (p, _) => (p, SchedulerAction::DoNothing),
    }
}

/// Cycles never overlap and queued firings are never dropped: a boundary
/// during a running cycle starts nothing and marks the firing as owed, and
/// the owed firing begins exactly when the running cycle ends.
pub proof fn lemma_cycles_serialized(queued: bool)
    ensures
        scheduler_step_spec(SchedulerPhase::Running { queued }, SchedulerEvent::Boundary) == (
            SchedulerPhase::Running { queued: true },
            SchedulerAction::DoNothing,
        ),
        scheduler_step_spec(
            SchedulerPhase::Running { queued: true },
            SchedulerEvent::CycleDone,
        ) == (SchedulerPhase::Running { queued: false }, SchedulerAction::BeginCycle),
        forall|p: SchedulerPhase, e: SchedulerEvent|
            #[trigger] scheduler_step_spec(p, e).1 == SchedulerAction::BeginCycle ==> !(p
                is Running) || e is CycleDone,
{
}

} // verus!
