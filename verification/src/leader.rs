//! What an elector does while it holds the Lease.

use vstd::prelude::*;

use crate::api::{outcome_view, LeaseFailure};
use crate::duration::Duration;

verus! {

/// What a leader is to do next, with the text type `S` in its errors.
///
/// Each start of the work has a number. The work that is started under a number
/// gets a new token, which is the token of that number and is cancelled only to
/// stop that work.
#[derive(Debug)]
pub enum LeaderStage<S> {
    /// Start the work, with a new token of this number.
    Starting { token: u64 },
    /// Sleep for `period`, unless the elector is cancelled first.
    Waiting { period: Duration, token: u64 },
    /// Renew the Lease.
    Renewing { token: u64 },
    /// See whether the work with this token is still running.
    Checking { token: u64 },
    /// Wait for the work with this token, which has ended, and report it.
    Reaping { token: u64 },
    /// Cancel this token and stop the work, because the elector was cancelled.
    StoppingToRelease { token: u64 },
    /// Release the Lease.
    Releasing,
    /// Cancel this token and stop the work, because the Lease could not be renewed.
    Stopping { token: u64, error: LeaseFailure<S> },
    /// Nothing: leadership has ended.
    Ended(Result<(), LeaseFailure<S>>),
}

/// What became of what a leader did, with the text type `S` in its errors.
#[derive(Debug)]
pub enum LeaderEvent<S> {
    /// The work was started.
    WorkStarted,
    /// The elector was cancelled.
    Cancelled,
    /// The sleep is over.
    Elapsed,
    /// The Lease was renewed, or not.
    Renewed(Result<(), LeaseFailure<S>>),
    /// The work is still running.
    WorkRunning,
    /// The work has ended by itself.
    WorkFinished,
    /// The work that had ended was reported.
    WorkReaped,
    /// The work was stopped.
    WorkStopped,
    /// The Lease was released, or not.
    Released(Result<(), LeaseFailure<S>>),
}

impl View for LeaderStage<String> {
    type V = LeaderStage<Seq<char>>;

    open spec fn view(&self) -> LeaderStage<Seq<char>> {
        match *self {
            LeaderStage::Starting { token } => LeaderStage::Starting { token },
            LeaderStage::Waiting { period, token } => LeaderStage::Waiting { period, token },
            LeaderStage::Renewing { token } => LeaderStage::Renewing { token },
            LeaderStage::Checking { token } => LeaderStage::Checking { token },
            LeaderStage::Reaping { token } => LeaderStage::Reaping { token },
            LeaderStage::StoppingToRelease { token } => LeaderStage::StoppingToRelease { token },
            LeaderStage::Releasing => LeaderStage::Releasing,
            LeaderStage::Stopping { token, error } => {
                LeaderStage::Stopping { token, error: error@ }
            },
            LeaderStage::Ended(outcome) => LeaderStage::Ended(outcome_view(outcome)),
        }
    }
}

impl View for LeaderEvent<String> {
    type V = LeaderEvent<Seq<char>>;

    open spec fn view(&self) -> LeaderEvent<Seq<char>> {
        match *self {
            LeaderEvent::WorkStarted => LeaderEvent::WorkStarted,
            LeaderEvent::Cancelled => LeaderEvent::Cancelled,
            LeaderEvent::Elapsed => LeaderEvent::Elapsed,
            LeaderEvent::Renewed(outcome) => LeaderEvent::Renewed(outcome_view(outcome)),
            LeaderEvent::WorkRunning => LeaderEvent::WorkRunning,
            LeaderEvent::WorkFinished => LeaderEvent::WorkFinished,
            LeaderEvent::WorkReaped => LeaderEvent::WorkReaped,
            LeaderEvent::WorkStopped => LeaderEvent::WorkStopped,
            LeaderEvent::Released(outcome) => LeaderEvent::Released(outcome_view(outcome)),
        }
    }
}

/// The number after `token`; after the last one numbers begin anew.
pub open spec fn following_token(token: u64) -> u64 {
    if token == u64::MAX {
        0
    } else {
        (token + 1) as u64
    }
}

/// The number after `token`; after the last one numbers begin anew.
fn next_token(token: u64) -> (res: u64)
    ensures
        res == following_token(token),
{
    if token == u64::MAX {
        0
    } else {
        token + 1
    }
}

/// What a leader that renews every `renew_period` is to do after `event`. An
/// event that nobody waits for changes nothing.
pub open spec fn leader_next(
    stage: LeaderStage<Seq<char>>,
    event: LeaderEvent<Seq<char>>,
    renew_period: Duration,
) -> LeaderStage<Seq<char>> {
    match (stage, event) {
        (LeaderStage::Starting { token }, LeaderEvent::WorkStarted) => {
            LeaderStage::Waiting { period: renew_period, token }
        },
        (LeaderStage::Waiting { token, .. }, LeaderEvent::Cancelled) => {
            LeaderStage::StoppingToRelease { token }
        },
        (LeaderStage::Waiting { token, .. }, LeaderEvent::Elapsed) => {
            LeaderStage::Renewing { token }
        },
        (LeaderStage::Renewing { token }, LeaderEvent::Renewed(Ok(_))) => {
            LeaderStage::Checking { token }
        },
        (LeaderStage::Renewing { token }, LeaderEvent::Renewed(Err(error))) => {
            LeaderStage::Stopping { token, error }
        },
        (LeaderStage::Checking { token }, LeaderEvent::WorkRunning) => {
            LeaderStage::Waiting { period: renew_period, token }
        },
        (LeaderStage::Checking { token }, LeaderEvent::WorkFinished) => {
            LeaderStage::Reaping { token }
        },
        (LeaderStage::Reaping { token }, LeaderEvent::WorkReaped) => {
            LeaderStage::Starting { token: following_token(token) }
        },
        (LeaderStage::StoppingToRelease { .. }, LeaderEvent::WorkStopped) => {
            LeaderStage::Releasing
        },
        (LeaderStage::Releasing, LeaderEvent::Released(_)) => LeaderStage::Ended(Ok(())),
        (LeaderStage::Stopping { error, .. }, LeaderEvent::WorkStopped) => {
            LeaderStage::Ended(Err(error))
        },
        _ => stage,
    }
}

impl LeaderStage<String> {
    /// Starts to lead.
    pub fn start() -> (res: Self)
        ensures
            res@ == (LeaderStage::<Seq<char>>::Starting { token: 0 }),
    {
        LeaderStage::Starting { token: 0 }
    }
}

/// Goes on leading after `event`.
///
/// Work that ends by itself is started again, with another token. When the
/// elector is cancelled, the work is stopped and the Lease released, and it does
/// not matter whether that works. When the Lease cannot be renewed, the work is
/// stopped and the error returned.
pub fn run_while_leader(
    stage: LeaderStage<String>,
    event: LeaderEvent<String>,
    renew_period: Duration,
) -> (res: LeaderStage<String>)
    ensures
        res@ == leader_next(stage@, event@, renew_period),
{
    match (stage, event) {
        (LeaderStage::Starting { token }, LeaderEvent::WorkStarted) => {
            LeaderStage::Waiting { period: renew_period, token }
        },
        (LeaderStage::Waiting { token, .. }, LeaderEvent::Cancelled) => {
            LeaderStage::StoppingToRelease { token }
        },
        (LeaderStage::Waiting { token, .. }, LeaderEvent::Elapsed) => {
            LeaderStage::Renewing { token }
        },
        (LeaderStage::Renewing { token }, LeaderEvent::Renewed(Ok(_))) => {
            LeaderStage::Checking { token }
        },
        (LeaderStage::Renewing { token }, LeaderEvent::Renewed(Err(error))) => {
            LeaderStage::Stopping { token, error }
        },
        (LeaderStage::Checking { token }, LeaderEvent::WorkRunning) => {
            LeaderStage::Waiting { period: renew_period, token }
        },
        (LeaderStage::Checking { token }, LeaderEvent::WorkFinished) => {
            LeaderStage::Reaping { token }
        },
        (LeaderStage::Reaping { token }, LeaderEvent::WorkReaped) => {
            LeaderStage::Starting { token: next_token(token) }
        },
        (LeaderStage::StoppingToRelease { .. }, LeaderEvent::WorkStopped) => {
            LeaderStage::Releasing
        },
        (LeaderStage::Releasing, LeaderEvent::Released(_)) => LeaderStage::Ended(Ok(())),
        (LeaderStage::Stopping { error, .. }, LeaderEvent::WorkStopped) => {
            LeaderStage::Ended(Err(error))
        },
        (stage, _) => stage,
    }
}

/// Where a leader that renews every `renew_period` stands after `events`.
pub open spec fn leader_run(
    renew_period: Duration,
    events: Seq<LeaderEvent<Seq<char>>>,
) -> LeaderStage<Seq<char>>
    decreases events.len(),
{
    if events.len() == 0 {
        LeaderStage::Starting { token: 0 }
    } else {
        leader_next(leader_run(renew_period, events.drop_last()), events.last(), renew_period)
    }
}

/// By how much `event` changes the number of tasks that were started and not yet
/// reaped or stopped, in `stage`.
pub open spec fn work_change(
    stage: LeaderStage<Seq<char>>,
    event: LeaderEvent<Seq<char>>,
) -> int {
    match (stage, event) {
        (LeaderStage::Starting { .. }, LeaderEvent::WorkStarted) => 1,
        (LeaderStage::Reaping { .. }, LeaderEvent::WorkReaped) => -1,
        (LeaderStage::StoppingToRelease { .. }, LeaderEvent::WorkStopped) => -1,
        (LeaderStage::Stopping { .. }, LeaderEvent::WorkStopped) => -1,
        _ => 0,
    }
}

/// How many tasks were started and not yet reaped or stopped after `events`. Such
/// a task may have ended by itself.
pub open spec fn live_work(renew_period: Duration, events: Seq<LeaderEvent<Seq<char>>>) -> int
    decreases events.len(),
{
    if events.len() == 0 {
        0
    } else {
        live_work(renew_period, events.drop_last()) + work_change(
            leader_run(renew_period, events.drop_last()),
            events.last(),
        )
    }
}

/// At most one task was started and not yet reaped or stopped. There is one from
/// each start until it is reaped or stopped, and none when the Lease is released
/// or leadership has ended.
pub proof fn law_work_ends_with_leadership(
    renew_period: Duration,
    events: Seq<LeaderEvent<Seq<char>>>,
)
    ensures
        live_work(renew_period, events) == match leader_run(renew_period, events) {
            LeaderStage::Starting { .. } | LeaderStage::Releasing | LeaderStage::Ended(_) => 0int,
            _ => 1int,
        },
    decreases events.len(),
{
    if events.len() > 0 {
        law_work_ends_with_leadership(renew_period, events.drop_last());
    }
}

/// Work is started only where every task that was started before was reaped or
/// stopped.
pub proof fn law_work_starts_alone(
    renew_period: Duration,
    events: Seq<LeaderEvent<Seq<char>>>,
    event: LeaderEvent<Seq<char>>,
)
    requires
        work_change(leader_run(renew_period, events), event) == 1,
    ensures
        live_work(renew_period, events) == 0,
{
    law_work_ends_with_leadership(renew_period, events);
}

/// The tokens with which the work was started during `events`, in order.
pub open spec fn started_tokens(
    renew_period: Duration,
    events: Seq<LeaderEvent<Seq<char>>>,
) -> Seq<u64>
    decreases events.len(),
{
    if events.len() == 0 {
        seq![]
    } else {
        let before = started_tokens(renew_period, events.drop_last());
        match (leader_run(renew_period, events.drop_last()), events.last()) {
            (LeaderStage::Starting { token }, LeaderEvent::WorkStarted) => before.push(token),
            _ => before,
        }
    }
}

/// The token that a leader is to cancel, if any.
pub open spec fn cancelled_token(stage: LeaderStage<Seq<char>>) -> Option<u64> {
    match stage {
        LeaderStage::StoppingToRelease { token } | LeaderStage::Stopping { token, .. } => {
            Some(token)
        },
        _ => None,
    }
}

/// The `n`-th start, counted from zero, has the number `n`, as far as numbers go;
/// the stage names the token of the next start, or of the last one.
proof fn lemma_tokens_count(renew_period: Duration, events: Seq<LeaderEvent<Seq<char>>>)
    ensures
        ({
            let tokens = started_tokens(renew_period, events);
            &&& forall|n: int|
                0 <= n < tokens.len() ==> #[trigger] tokens[n] == n % (u64::MAX + 1)
            &&& match leader_run(renew_period, events) {
                LeaderStage::Starting { token } => token == (tokens.len() as int) % (u64::MAX + 1),
                LeaderStage::Waiting { token, .. }
                | LeaderStage::Renewing { token }
                | LeaderStage::Checking { token }
                | LeaderStage::Reaping { token }
                | LeaderStage::StoppingToRelease { token }
                | LeaderStage::Stopping { token, .. } => tokens.len() > 0 && token
                    == tokens.last(),
                LeaderStage::Releasing | LeaderStage::Ended(_) => true,
            }
        }),
    decreases events.len(),
{
    if events.len() > 0 {
        let before = events.drop_last();
        lemma_tokens_count(renew_period, before);
        if started_tokens(renew_period, before).len() > 0 {
            lemma_number_after(started_tokens(renew_period, before).len() - 1);
        }
    }
}

/// The number after that of the start `n` is that of the start `n + 1`.
proof fn lemma_number_after(n: int)
    requires
        n >= 0,
    ensures
        following_token((n % (u64::MAX + 1)) as u64) == (n + 1) % (u64::MAX + 1),
{
}

/// Each start of the work has a token of its own: as long as numbers last, no two
/// starts have the same one.
pub proof fn law_every_start_has_its_own_token(
    renew_period: Duration,
    events: Seq<LeaderEvent<Seq<char>>>,
    first: int,
    second: int,
)
    requires
        0 <= first < second < started_tokens(renew_period, events).len(),
        second - first <= u64::MAX,
    ensures
        started_tokens(renew_period, events)[first] != started_tokens(
            renew_period,
            events,
        )[second],
{
    lemma_tokens_count(renew_period, events);
}

/// The work is never started with a cancelled token: a leader that is to start the
/// work has cancelled no token before, at any moment.
pub proof fn law_started_token_is_not_cancelled(
    renew_period: Duration,
    events: Seq<LeaderEvent<Seq<char>>>,
    moment: int,
)
    requires
        leader_run(renew_period, events) is Starting,
        0 <= moment <= events.len(),
    ensures
        cancelled_token(leader_run(renew_period, events.take(moment))) is None,
{
    if cancelled_token(leader_run(renew_period, events.take(moment))) is Some {
        lemma_stopping_is_final(renew_period, events, moment);
    }
}

/// Once a leader has set out to stop its work, it starts none again.
proof fn lemma_stopping_is_final(
    renew_period: Duration,
    events: Seq<LeaderEvent<Seq<char>>>,
    moment: int,
)
    requires
        0 <= moment <= events.len(),
        cancelled_token(leader_run(renew_period, events.take(moment))) is Some,
    ensures
        match leader_run(renew_period, events) {
            LeaderStage::StoppingToRelease { .. }
            | LeaderStage::Stopping { .. }
            | LeaderStage::Releasing
            | LeaderStage::Ended(_) => true,
            _ => false,
        },
    decreases events.len() - moment,
{
    if moment == events.len() {
        assert(events.take(moment) =~= events);
    } else {
        let before = events.drop_last();
        assert(before.take(moment) =~= events.take(moment));
        lemma_stopping_is_final(renew_period, before, moment);
    }
}

/// The token that a leader cancels is the one with which it started its last work.
pub proof fn law_leader_cancels_its_own_token(
    renew_period: Duration,
    events: Seq<LeaderEvent<Seq<char>>>,
)
    ensures
        cancelled_token(leader_run(renew_period, events)) matches Some(token) ==> {
            &&& started_tokens(renew_period, events).len() > 0
            &&& token == started_tokens(renew_period, events).last()
        },
{
    lemma_tokens_count(renew_period, events);
}

/// The token of the work is not tied to the elector's: that the elector is
/// cancelled changes nothing unless the leader waits, and then it is the leader
/// that cancels the token, to stop the work.
pub proof fn law_elector_does_not_cancel_the_work(
    renew_period: Duration,
    before: Seq<LeaderEvent<Seq<char>>>,
)
    ensures
        ({
            let stage = leader_run(renew_period, before);
            let cancelled = leader_run(renew_period, before.push(LeaderEvent::Cancelled));
            match stage {
                LeaderStage::Waiting { token, .. } => cancelled
                    == LeaderStage::<Seq<char>>::StoppingToRelease { token },
                _ => cancelled == stage,
            }
        }),
{
    assert(before.push(LeaderEvent::Cancelled).drop_last() =~= before);
}

/// A leader does nothing before it has started the work: whatever it does later,
/// the work was started at least once.
pub proof fn law_leader_starts_its_work(
    renew_period: Duration,
    events: Seq<LeaderEvent<Seq<char>>>,
)
    ensures
        !(leader_run(renew_period, events) is Starting) ==> events.contains(
            LeaderEvent::WorkStarted,
        ),
    decreases events.len(),
{
    if events.len() > 0 {
        let before = events.drop_last();
        law_leader_starts_its_work(renew_period, before);
        if before.contains(LeaderEvent::WorkStarted) {
            let i = choose|i: int|
                0 <= i < before.len() && before[i] == LeaderEvent::<Seq<char>>::WorkStarted;
            assert(events[i] == before[i]);
        } else {
            assert(events[events.len() - 1] == events.last());
        }
    }
}

/// Leadership ends well only after the elector was cancelled, and with an error
/// only after a renewal failed with that error. The Lease is released only
/// after the elector was cancelled.
pub proof fn law_leadership_ends_for_a_reason(
    renew_period: Duration,
    events: Seq<LeaderEvent<Seq<char>>>,
)
    ensures
        match leader_run(renew_period, events) {
            LeaderStage::StoppingToRelease { .. } | LeaderStage::Releasing | LeaderStage::Ended(
                Ok(_),
            ) => events.contains(LeaderEvent::Cancelled),
            LeaderStage::Stopping { error, .. } | LeaderStage::Ended(Err(error)) => {
                events.contains(LeaderEvent::Renewed(Err(error)))
            },
            _ => true,
        },
    decreases events.len(),
{
    if events.len() > 0 {
        let before = events.drop_last();
        law_leadership_ends_for_a_reason(renew_period, before);
        assert(events.contains(events.last())) by {
            assert(events[events.len() - 1] == events.last());
        }
        assert forall|e: LeaderEvent<Seq<char>>| before.contains(e) implies events.contains(
            e,
        ) by {
            let i = choose|i: int| 0 <= i < before.len() && before[i] == e;
            assert(events[i] == e);
        }
    }
}

/// A cancelled leader stops its work and releases the Lease, and returns without
/// an error, whether the release worked or not.
pub proof fn law_cancelled_leader_releases(
    renew_period: Duration,
    before: Seq<LeaderEvent<Seq<char>>>,
    released: Result<(), LeaseFailure<Seq<char>>>,
)
    requires
        leader_run(renew_period, before) is Waiting,
    ensures
        ({
            let cancelled = before.push(LeaderEvent::Cancelled);
            let stopped = cancelled.push(LeaderEvent::WorkStopped);
            let ended = stopped.push(LeaderEvent::Released(released));
            &&& leader_run(renew_period, cancelled) is StoppingToRelease
            &&& leader_run(renew_period, stopped) is Releasing
            &&& leader_run(renew_period, ended) == LeaderStage::<Seq<char>>::Ended(Ok(()))
        }),
{
    let cancelled = before.push(LeaderEvent::Cancelled);
    let stopped = cancelled.push(LeaderEvent::WorkStopped);
    let ended = stopped.push(LeaderEvent::Released(released));
    assert(cancelled.drop_last() =~= before);
    assert(stopped.drop_last() =~= cancelled);
    assert(ended.drop_last() =~= stopped);
}

/// Every sleep between two renewals lasts the renew period.
pub proof fn law_leader_waits_renew_period(
    renew_period: Duration,
    events: Seq<LeaderEvent<Seq<char>>>,
)
    ensures
        leader_run(renew_period, events) matches LeaderStage::Waiting { period, .. }
            ==> period == renew_period,
    decreases events.len(),
{
    if events.len() > 0 {
        law_leader_waits_renew_period(renew_period, events.drop_last());
    }
}

/// What a leader does after each event that it waits for: it sleeps for the renew
/// period once the work is started; it renews when the sleep is over; if that went
/// well it sees to the work, and sleeps again or starts the work anew, under the next
/// number; if not, it stops the work and ends with the error, whichever it is. When
/// it is cancelled it stops the work, releases the Lease, and ends without an error.
pub proof fn law_leader_moves_on(
    token: u64,
    period: Duration,
    renew_period: Duration,
    error: LeaseFailure<Seq<char>>,
    released: Result<(), LeaseFailure<Seq<char>>>,
)
    ensures
        leader_next(LeaderStage::Starting { token }, LeaderEvent::WorkStarted, renew_period) == (
        LeaderStage::<Seq<char>>::Waiting { period: renew_period, token }),
        leader_next(LeaderStage::Waiting { period, token }, LeaderEvent::Elapsed, renew_period) == (
        LeaderStage::<Seq<char>>::Renewing { token }),
        leader_next(LeaderStage::Waiting { period, token }, LeaderEvent::Cancelled, renew_period)
            == (LeaderStage::<Seq<char>>::StoppingToRelease { token }),
        leader_next(LeaderStage::Renewing { token }, LeaderEvent::Renewed(Ok(())), renew_period)
            == (LeaderStage::<Seq<char>>::Checking { token }),
        leader_next(LeaderStage::Renewing { token }, LeaderEvent::Renewed(Err(error)), renew_period)
            == (LeaderStage::<Seq<char>>::Stopping { token, error }),
        leader_next(LeaderStage::Checking { token }, LeaderEvent::WorkRunning, renew_period) == (
        LeaderStage::<Seq<char>>::Waiting { period: renew_period, token }),
        leader_next(LeaderStage::Checking { token }, LeaderEvent::WorkFinished, renew_period) == (
        LeaderStage::<Seq<char>>::Reaping { token }),
        leader_next(LeaderStage::Reaping { token }, LeaderEvent::WorkReaped, renew_period) matches
            LeaderStage::Starting { token: next } && (next == token + 1 || (token == u64::MAX
            && next == 0)),
        leader_next(
            LeaderStage::StoppingToRelease { token },
            LeaderEvent::WorkStopped,
            renew_period,
        ) == LeaderStage::<Seq<char>>::Releasing,
        leader_next(
            LeaderStage::Releasing,
            LeaderEvent::Released(released),
            renew_period,
        ) == LeaderStage::<Seq<char>>::Ended(Ok(())),
        leader_next(
            LeaderStage::Stopping { token, error },
            LeaderEvent::WorkStopped,
            renew_period,
        ) == LeaderStage::<Seq<char>>::Ended(Err(error)),
{
}

/// Whatever else happens leaves a leader where it stands; above all, leadership that
/// has ended stays so.
pub proof fn law_leader_ignores_the_rest(
    stage: LeaderStage<Seq<char>>,
    event: LeaderEvent<Seq<char>>,
    renew_period: Duration,
)
    requires
        stage is Starting ==> !(event is WorkStarted),
        stage is Waiting ==> !(event is Cancelled) && !(event is Elapsed),
        stage is Renewing ==> !(event is Renewed),
        stage is Checking ==> !(event is WorkRunning) && !(event is WorkFinished),
        stage is Reaping ==> !(event is WorkReaped),
        stage is StoppingToRelease || stage is Stopping ==> !(event is WorkStopped),
        stage is Releasing ==> !(event is Released),
    ensures
        leader_next(stage, event, renew_period) == stage,
{
}

/// Every failed renewal ends leadership: the leader stops the work that it runs and
/// then ends with the error of the renewal, whichever it is.
pub proof fn law_failed_renewal_ends_leadership(
    renew_period: Duration,
    before: Seq<LeaderEvent<Seq<char>>>,
    token: u64,
    error: LeaseFailure<Seq<char>>,
)
    requires
        leader_run(renew_period, before) == (LeaderStage::<Seq<char>>::Renewing { token }),
    ensures
        ({
            let failed = before.push(LeaderEvent::Renewed(Err(error)));
            let stopped = failed.push(LeaderEvent::WorkStopped);
            &&& leader_run(renew_period, failed) == (LeaderStage::Stopping { token, error })
            &&& leader_run(renew_period, stopped) == LeaderStage::Ended(Err(error))
        }),
{
    let failed = before.push(LeaderEvent::Renewed(Err(error)));
    let stopped = failed.push(LeaderEvent::WorkStopped);
    assert(failed.drop_last() =~= before);
    assert(stopped.drop_last() =~= failed);
}

/// A leader that renews in time stays one: if its work still runs it sleeps for the
/// renew period again, with the same work, and if the work has ended it starts it
/// again, with another token.
pub proof fn law_renewed_leader_goes_on(
    renew_period: Duration,
    before: Seq<LeaderEvent<Seq<char>>>,
    token: u64,
)
    requires
        leader_run(renew_period, before) == (LeaderStage::<Seq<char>>::Renewing { token }),
    ensures
        ({
            let renewed = before.push(LeaderEvent::Renewed(Ok(())));
            let running = renewed.push(LeaderEvent::WorkRunning);
            let finished = renewed.push(LeaderEvent::WorkFinished);
            let reaped = finished.push(LeaderEvent::WorkReaped);
            let started = reaped.push(LeaderEvent::WorkStarted);
            &&& leader_run(renew_period, renewed) == (LeaderStage::<Seq<char>>::Checking { token })
            &&& leader_run(renew_period, running) == (LeaderStage::<Seq<char>>::Waiting {
                period: renew_period,
                token,
            })
            &&& leader_run(renew_period, finished) == (LeaderStage::<Seq<char>>::Reaping { token })
            &&& leader_run(renew_period, reaped) matches LeaderStage::Starting { token: next }
                && next != token && leader_run(renew_period, started) == (LeaderStage::<
                Seq<char>,
            >::Waiting { period: renew_period, token: next })
        }),
{
    let renewed = before.push(LeaderEvent::Renewed(Ok(())));
    let running = renewed.push(LeaderEvent::WorkRunning);
    let finished = renewed.push(LeaderEvent::WorkFinished);
    let reaped = finished.push(LeaderEvent::WorkReaped);
    let started = reaped.push(LeaderEvent::WorkStarted);
    assert(renewed.drop_last() =~= before);
    assert(running.drop_last() =~= renewed);
    assert(finished.drop_last() =~= renewed);
    assert(reaped.drop_last() =~= finished);
    assert(started.drop_last() =~= reaped);
}

/// A leader starts by starting its work, then sleeps for the renew period, and renews
/// the Lease after every sleep in which it is not cancelled.
pub proof fn law_leader_renews_after_every_sleep(
    renew_period: Duration,
    before: Seq<LeaderEvent<Seq<char>>>,
)
    ensures
        leader_run(renew_period, seq![]) is Starting,
        leader_run(renew_period, seq![LeaderEvent::WorkStarted]) matches LeaderStage::Waiting {
            period,
            ..
        } && period == renew_period,
        leader_run(renew_period, before) matches LeaderStage::Waiting { token, .. } ==> leader_run(
            renew_period,
            before.push(LeaderEvent::Elapsed),
        ) == (LeaderStage::<Seq<char>>::Renewing { token }),
{
    let first: Seq<LeaderEvent<Seq<char>>> = seq![LeaderEvent::WorkStarted];
    assert(first.drop_last() =~= seq![]);
    assert(before.push(LeaderEvent::Elapsed).drop_last() =~= before);
}

/// The view of a stage keeps the stage and what it holds.
pub proof fn law_stage_view_is_faithful(stage: LeaderStage<String>)
    ensures
        match stage {
            LeaderStage::Starting { token } => stage@ == (LeaderStage::<Seq<char>>::Starting {
                token,
            }),
            LeaderStage::Waiting { period, token } => stage@ == (LeaderStage::<
                Seq<char>,
            >::Waiting { period, token }),
            LeaderStage::Renewing { token } => stage@ == (LeaderStage::<Seq<char>>::Renewing {
                token,
            }),
            LeaderStage::Checking { token } => stage@ == (LeaderStage::<Seq<char>>::Checking {
                token,
            }),
            LeaderStage::Reaping { token } => stage@ == (LeaderStage::<Seq<char>>::Reaping {
                token,
            }),
            LeaderStage::StoppingToRelease { token } => stage@ == (LeaderStage::<
                Seq<char>,
            >::StoppingToRelease { token }),
            LeaderStage::Releasing => stage@ == LeaderStage::<Seq<char>>::Releasing,
            LeaderStage::Stopping { token, error } => stage@ == (LeaderStage::Stopping {
                token,
                error: error@,
            }),
            LeaderStage::Ended(Ok(_)) => stage@ == LeaderStage::<Seq<char>>::Ended(Ok(())),
            LeaderStage::Ended(Err(error)) => stage@ == LeaderStage::Ended(Err(error@)),
        },
{
}

/// The view of an event keeps the event and what it holds.
pub proof fn law_event_view_is_faithful(event: LeaderEvent<String>)
    ensures
        match event {
            LeaderEvent::WorkStarted => event@ == LeaderEvent::<Seq<char>>::WorkStarted,
            LeaderEvent::Cancelled => event@ == LeaderEvent::<Seq<char>>::Cancelled,
            LeaderEvent::Elapsed => event@ == LeaderEvent::<Seq<char>>::Elapsed,
            LeaderEvent::Renewed(Ok(_)) => event@ == LeaderEvent::<Seq<char>>::Renewed(Ok(())),
            LeaderEvent::Renewed(Err(error)) => event@ == LeaderEvent::Renewed(Err(error@)),
            LeaderEvent::WorkRunning => event@ == LeaderEvent::<Seq<char>>::WorkRunning,
            LeaderEvent::WorkFinished => event@ == LeaderEvent::<Seq<char>>::WorkFinished,
            LeaderEvent::WorkReaped => event@ == LeaderEvent::<Seq<char>>::WorkReaped,
            LeaderEvent::WorkStopped => event@ == LeaderEvent::<Seq<char>>::WorkStopped,
            LeaderEvent::Released(Ok(_)) => event@ == LeaderEvent::<Seq<char>>::Released(Ok(())),
            LeaderEvent::Released(Err(error)) => event@ == LeaderEvent::Released(Err(error@)),
        },
{
}

} // verus!
