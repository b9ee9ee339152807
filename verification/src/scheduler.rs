//! The scheduler: a loop that never dies.
//!
//! A long-lived task wakes once per fixed period, runs a report cycle for
//! the day before the wake date, publishes a successful report, and logs a
//! failed one. The waiting, the cycle's outside calls and the publish call
//! belong to the driver; every decision between them stands here as a total
//! step function, so no outcome of any call can stop the loop.

use vstd::prelude::*;
use crate::date::ReportDate;
use crate::report::ReportError;

verus! {

/// Where the loop stands. `completed` counts finished wait/run cycles and
/// saturates instead of overflowing.
pub enum SchedulerState {
    /// Suspended until the next periodic tick.
    Waiting { completed: u64 },
    /// A report cycle for `date` is under way.
    Running { completed: u64, date: ReportDate },
    /// A finished report is on its way to the destination channel.
    Publishing { completed: u64, text: String },
}

/// What woke the loop or what its last outside call came back with.
pub enum SchedulerEvent {
    /// The periodic tick fired; `today` is the wake date in UTC.
    Woke { today: ReportDate },
    /// The report cycle finished with this outcome.
    ReportFinished { outcome: Result<String, ReportError> },
    /// The publish call finished; a failure is logged and swallowed.
    PublishFinished { delivered: bool },
}

/// A cycle count, one higher, capped at the counter's range.
pub open spec fn inc(c: u64) -> u64 {
    if c == u64::MAX {
        c
    } else {
        (c + 1) as u64
    }
}

/// The count of finished cycles in a state.
pub open spec fn completed_of(s: SchedulerState) -> u64 {
    match s {
        SchedulerState::Waiting { completed } => completed,
        SchedulerState::Running { completed, .. } => completed,
        SchedulerState::Publishing { completed, .. } => completed,
    }
}

/// The loop's decision on one event, total over every state and event:
/// - a tick starts a cycle for the day before the wake date; a wake date
///   with no usable predecessor counts as a failed, logged cycle;
/// - a successful report moves on to publishing, a failed one is logged and
///   the loop waits for the next tick;
/// - a publish outcome, delivered or not, ends the cycle;
/// - an event that does not answer the pending phase changes nothing.
pub open spec fn spec_scheduler_step(s: SchedulerState, e: SchedulerEvent) -> SchedulerState {
    match (s, e) {
        (SchedulerState::Waiting { completed }, SchedulerEvent::Woke { today }) => {
            if today.valid() {
                match today.spec_prev() {
                    Option::Some(d) => SchedulerState::Running { completed, date: d },
                    Option::None => SchedulerState::Waiting { completed: inc(completed) },
                }
            } else {
                SchedulerState::Waiting { completed: inc(completed) }
            }
        },
        (
            SchedulerState::Running { completed, date: _ },
            SchedulerEvent::ReportFinished { outcome },
        ) => match outcome {
            Result::Ok(text) => SchedulerState::Publishing { completed, text },
            Result::Err(_) => SchedulerState::Waiting { completed: inc(completed) },
        },
        (
            SchedulerState::Publishing { completed, text: _ },
            SchedulerEvent::PublishFinished { delivered: _ },
        ) => SchedulerState::Waiting { completed: inc(completed) },
        (other, _) => other,
    }
}

/// Executable scheduler step; returns exactly the decision of
/// [`spec_scheduler_step`], and never a state with fewer finished cycles.
pub fn scheduler_step(s: SchedulerState, e: SchedulerEvent) -> (r: SchedulerState)
    ensures
        r == spec_scheduler_step(s, e),
        completed_of(r) >= completed_of(s),
{
    match (s, e) {
        (SchedulerState::Waiting { completed }, SchedulerEvent::Woke { today }) => {
            if today.check_valid() {
                match today.prev() {
                    Option::Some(d) => SchedulerState::Running { completed, date: d },
                    Option::None => SchedulerState::Waiting { completed: inc_exec(completed) },
                }
            } else {
                SchedulerState::Waiting { completed: inc_exec(completed) }
            }
        },
        (
            SchedulerState::Running { completed, date: _ },
            SchedulerEvent::ReportFinished { outcome },
        ) => match outcome {
            Result::Ok(text) => SchedulerState::Publishing { completed, text },
            Result::Err(_) => SchedulerState::Waiting { completed: inc_exec(completed) },
        },
        (
            SchedulerState::Publishing { completed, text: _ },
            SchedulerEvent::PublishFinished { delivered: _ },
        ) => SchedulerState::Waiting { completed: inc_exec(completed) },
        (other, _) => other,
    }
}

/// Executable counterpart of [`inc`].
fn inc_exec(c: u64) -> (r: u64)
    ensures
        r == inc(c),
{
    if c == u64::MAX {
        c
    } else {
        c + 1
    }
}

/// The state after `n` whole cycles in which the report generator failed:
/// each cycle is one tick followed by one failed report outcome.
pub open spec fn after_failed_cycles(
    s: SchedulerState,
    today: ReportDate,
    err: ReportError,
    n: nat,
) -> SchedulerState
    decreases n,
{
    if n == 0 {
        s
    } else {
        spec_scheduler_step(
            spec_scheduler_step(
                after_failed_cycles(s, today, err, (n - 1) as nat),
                SchedulerEvent::Woke { today },
            ),
            SchedulerEvent::ReportFinished { outcome: Err(err) },
        )
    }
}

/// A cycle reports on the day before its wake date: a tick on any valid
/// date but the earliest starts a run, for the date whose calendar
/// successor is the wake date, without counting a cycle yet.
pub proof fn lemma_cycle_reports_on_yesterday(completed: u64, today: ReportDate)
    requires
        today.valid(),
        !today.is_min(),
    ensures
        spec_scheduler_step(
            SchedulerState::Waiting { completed },
            SchedulerEvent::Woke { today },
        ) matches SchedulerState::Running { completed: c, date } && c == completed && date.valid()
            && date.succ() == today,
{
    crate::date::lemma_prev_undoes_succ(today);
}

/// Liveness under persistent failure: however many consecutive cycles the
/// report generator fails, and whatever the wake date and the error are,
/// the loop is back waiting afterwards with every one of those cycles
/// counted — it never terminates on a cycle failure.
pub proof fn lemma_loop_survives_failures(
    completed: u64,
    today: ReportDate,
    err: ReportError,
    n: nat,
)
    requires
        completed + n <= u64::MAX,
    ensures
        after_failed_cycles(SchedulerState::Waiting { completed }, today, err, n)
            == (SchedulerState::Waiting { completed: (completed + n) as u64 }),
    decreases n,
{
    if n > 0 {
        lemma_loop_survives_failures(completed, today, err, (n - 1) as nat);
    }
}

} // verus!
