//! Ending the work that a leader runs.

use vstd::prelude::*;

use crate::duration::{Duration, NANOS_PER_MILLI, NANOS_PER_SEC};

verus! {

/// How the task that does the work came to its end.
#[derive(Clone, Copy, Debug, PartialEq, Eq, Structural)]
pub enum WorkOutcome {
    /// The work returned.
    Completed,
    /// The work returned an error.
    Failed,
    /// The work panicked.
    Panicked,
    /// The task was aborted before the work returned.
    Aborted,
}

/// What is worth a warning about work that has ended.
#[derive(Clone, Copy, Debug, PartialEq, Eq, Structural)]
pub enum Complaint {
    /// It returned an error.
    Failed,
    /// It panicked.
    Panicked,
}

/// How stopping the work went.
#[derive(Clone, Copy, Debug, PartialEq, Eq, Structural)]
pub struct StopReport {
    /// The work did not stop in time, and its task was aborted.
    pub timed_out: bool,
    /// What is worth a warning.
    pub complaint: Option<Complaint>,
}

/// What is to be done to stop the work.
#[derive(Clone, Copy, Debug, PartialEq, Eq, Structural)]
pub enum StopStage {
    /// Tell the work to stop, and wait for its task for no longer than `timeout`.
    Draining { timeout: Duration },
    /// Abort the task, and wait for it.
    Aborting,
    /// Nothing: the task has ended.
    Ended(StopReport),
}

/// What became of the wait for the task.
#[derive(Clone, Copy, Debug, PartialEq, Eq, Structural)]
pub enum StopEvent {
    /// The task has ended.
    Joined(WorkOutcome),
    /// The time was up first.
    TimedOut,
}

/// How work ended that nobody had told to stop.
#[derive(Clone, Copy, Debug, PartialEq, Eq, Structural)]
pub enum UnexpectedExit {
    /// It returned.
    Returned,
    /// It returned an error.
    Failed,
    /// Its task was lost.
    Panicked,
}

/// How long a leader waits for its work to stop: 5 seconds.
pub fn work_stop_timeout() -> (res: Duration)
    ensures
        res@ == 5 * NANOS_PER_SEC,
{
    Duration::from_secs(5)
}

/// A wait for the work in whole milliseconds, as it is reported: at most
/// `u64::MAX`.
pub fn timeout_millis(stop_timeout: Duration) -> (res: u64)
    ensures
        stop_timeout@ / NANOS_PER_MILLI as nat <= u64::MAX ==> res == stop_timeout@
            / NANOS_PER_MILLI as nat,
        stop_timeout@ / NANOS_PER_MILLI as nat > u64::MAX ==> res == u64::MAX,
{
    let millis: u128 = stop_timeout.as_millis();
    if millis <= u64::MAX as u128 {
        millis as u64
    } else {
        u64::MAX
    }
}

/// The complaint about work that ended while it was asked to stop. Work whose
/// task was aborted by somebody else counts as panicked.
pub open spec fn drained_complaint(outcome: WorkOutcome) -> Option<Complaint> {
    match outcome {
        WorkOutcome::Completed => None,
        WorkOutcome::Failed => Some(Complaint::Failed),
        WorkOutcome::Panicked | WorkOutcome::Aborted => Some(Complaint::Panicked),
    }
}

/// The complaint about work whose task was aborted. That the abort took effect
/// is no complaint.
pub open spec fn aborted_complaint(outcome: WorkOutcome) -> Option<Complaint> {
    match outcome {
        WorkOutcome::Completed | WorkOutcome::Aborted => None,
        WorkOutcome::Failed => Some(Complaint::Failed),
        WorkOutcome::Panicked => Some(Complaint::Panicked),
    }
}

/// What is to be done after `event`. Work that does not stop in time is
/// aborted; an event that nobody waits for changes nothing.
pub open spec fn stop_next(stage: StopStage, event: StopEvent) -> StopStage {
    match (stage, event) {
        (StopStage::Draining { .. }, StopEvent::Joined(outcome)) => StopStage::Ended(
            StopReport { timed_out: false, complaint: drained_complaint(outcome) },
        ),
        (StopStage::Draining { .. }, StopEvent::TimedOut) => StopStage::Aborting,
        (StopStage::Aborting, StopEvent::Joined(outcome)) => StopStage::Ended(
            StopReport { timed_out: true, complaint: aborted_complaint(outcome) },
        ),
        _ => stage,
    }
}

impl StopStage {
    /// Starts to stop the work, with `stop_timeout` to spare.
    pub fn start(stop_timeout: Duration) -> (res: StopStage)
        ensures
            res == (StopStage::Draining { timeout: stop_timeout }),
    {
        StopStage::Draining { timeout: stop_timeout }
    }
}

/// Goes on stopping the work after `event`.
pub fn stop_with_timeout(stage: StopStage, event: StopEvent) -> (res: StopStage)
    ensures
        res == stop_next(stage, event),
{
    match stage {
        StopStage::Draining { .. } => match event {
            StopEvent::Joined(outcome) => {
                let complaint = match outcome {
                    WorkOutcome::Completed => None,
                    WorkOutcome::Failed => Some(Complaint::Failed),
                    WorkOutcome::Panicked => Some(Complaint::Panicked),
                    WorkOutcome::Aborted => Some(Complaint::Panicked),
                };
                StopStage::Ended(StopReport { timed_out: false, complaint })
            },
            StopEvent::TimedOut => StopStage::Aborting,
        },
        StopStage::Aborting => match event {
            StopEvent::Joined(outcome) => {
                let complaint = match outcome {
                    WorkOutcome::Completed => None,
                    WorkOutcome::Failed => Some(Complaint::Failed),
                    WorkOutcome::Panicked => Some(Complaint::Panicked),
                    WorkOutcome::Aborted => None,
                };
                StopStage::Ended(StopReport { timed_out: true, complaint })
            },
            StopEvent::TimedOut => stage,
        },
        StopStage::Ended(_) => stage,
    }
}

/// How work ended that nobody had told to stop. A task that was aborted counts
/// as panicked.
pub fn unexpected_exit(outcome: WorkOutcome) -> (res: UnexpectedExit)
    ensures
        res == UnexpectedExit::Returned <==> outcome == WorkOutcome::Completed,
        res == UnexpectedExit::Failed <==> outcome == WorkOutcome::Failed,
        res == UnexpectedExit::Panicked <==> outcome == WorkOutcome::Panicked || outcome
            == WorkOutcome::Aborted,
{
    match outcome {
        WorkOutcome::Completed => UnexpectedExit::Returned,
        WorkOutcome::Failed => UnexpectedExit::Failed,
        WorkOutcome::Panicked => UnexpectedExit::Panicked,
        WorkOutcome::Aborted => UnexpectedExit::Panicked,
    }
}

/// Where stopping the work stands after `events`, if it started with
/// `stop_timeout` to spare.
pub open spec fn stop_run(stop_timeout: Duration, events: Seq<StopEvent>) -> StopStage
    decreases events.len(),
{
    if events.len() == 0 {
        StopStage::Draining { timeout: stop_timeout }
    } else {
        stop_next(stop_run(stop_timeout, events.drop_last()), events.last())
    }
}

/// The task is aborted only after the time was up, and the report says so.
pub proof fn law_abort_follows_timeout(stop_timeout: Duration, events: Seq<StopEvent>)
    ensures
        match stop_run(stop_timeout, events) {
            StopStage::Draining { timeout } => timeout == stop_timeout && events.len() == 0,
            StopStage::Aborting => events.len() > 0 && events.first() == StopEvent::TimedOut,
            StopStage::Ended(report) => events.len() > 0 && report.timed_out == (events.first()
                == StopEvent::TimedOut),
        },
    decreases events.len(),
{
    if events.len() > 0 {
        law_abort_follows_timeout(stop_timeout, events.drop_last());
    }
}

/// Stopping is over as soon as the task has ended, whether it was aborted or
/// not, and the first outcome is the one that is reported.
pub proof fn law_stop_ends_with_task(
    stop_timeout: Duration,
    before: Seq<StopEvent>,
    outcome: WorkOutcome,
    after: Seq<StopEvent>,
)
    requires
        forall|i: int| 0 <= i < before.len() ==> #[trigger] before[i] == StopEvent::TimedOut,
    ensures
        stop_run(stop_timeout, before.push(StopEvent::Joined(outcome)) + after)
            == StopStage::Ended(
            StopReport {
                timed_out: before.len() > 0,
                complaint: if before.len() > 0 {
                    aborted_complaint(outcome)
                } else {
                    drained_complaint(outcome)
                },
            },
        ),
    decreases before.len() + after.len(),
{
    let joined = StopEvent::Joined(outcome);
    let events = before.push(joined) + after;
    if after.len() > 0 {
        law_stop_ends_with_task(stop_timeout, before, outcome, after.drop_last());
        assert(events.drop_last() =~= before.push(joined) + after.drop_last());
    } else {
        assert(events =~= before.push(joined));
        assert(events.drop_last() =~= before);
        lemma_timeouts_abort(stop_timeout, before);
    }
}

/// While only the time runs out, the task is not known to have ended.
proof fn lemma_timeouts_abort(stop_timeout: Duration, events: Seq<StopEvent>)
    requires
        forall|i: int| 0 <= i < events.len() ==> #[trigger] events[i] == StopEvent::TimedOut,
    ensures
        stop_run(stop_timeout, events) == if events.len() == 0 {
            StopStage::Draining { timeout: stop_timeout }
        } else {
            StopStage::Aborting
        },
    decreases events.len(),
{
    if events.len() > 0 {
        lemma_timeouts_abort(stop_timeout, events.drop_last());
    }
}

/// Work that ends while it is drained is reported as not timed out: without a
/// complaint if it completed, as failed if it failed, and as panicked otherwise.
pub proof fn law_drained_work_is_reported(timeout: Duration)
    ensures
        forall|outcome: WorkOutcome|
            #[trigger] stop_next(StopStage::Draining { timeout }, StopEvent::Joined(outcome))
                matches StopStage::Ended(report) && !report.timed_out && {
                &&& report.complaint is None <==> outcome == WorkOutcome::Completed
                &&& report.complaint == Some(Complaint::Failed) <==> outcome == WorkOutcome::Failed
                &&& report.complaint == Some(Complaint::Panicked) <==> outcome
                    == WorkOutcome::Panicked || outcome == WorkOutcome::Aborted
            },
{
}

/// Work that does not stop in time is aborted, and reported as timed out: as failed
/// if it failed, as panicked if it panicked, and without a complaint otherwise,
/// above all where the abort took effect.
pub proof fn law_late_work_is_aborted(timeout: Duration)
    ensures
        stop_next(StopStage::Draining { timeout }, StopEvent::TimedOut) == StopStage::Aborting,
        stop_next(StopStage::Aborting, StopEvent::TimedOut) == StopStage::Aborting,
        forall|outcome: WorkOutcome|
            #[trigger] stop_next(StopStage::Aborting, StopEvent::Joined(outcome))
                matches StopStage::Ended(report) && report.timed_out && {
                &&& report.complaint is None <==> outcome == WorkOutcome::Completed || outcome
                    == WorkOutcome::Aborted
                &&& report.complaint == Some(Complaint::Failed) <==> outcome == WorkOutcome::Failed
                &&& report.complaint == Some(Complaint::Panicked) <==> outcome
                    == WorkOutcome::Panicked
            },
{
}

/// A report is final.
pub proof fn law_report_is_final(report: StopReport, event: StopEvent)
    ensures
        stop_next(StopStage::Ended(report), event) == StopStage::Ended(report),
{
}

} // verus!
