//! Running for leadership of a role, again and again.

use vstd::arithmetic::power2::pow2;
use vstd::prelude::*;

use crate::api::LeaseError;
use crate::backoff::{
    delay_after, first_delay, following_delay, law_delays_double, law_delays_in_nanoseconds,
    Backoff,
};
use crate::config::{
    lease_name_text, lease_target_of, refusal_of, ConfigError, K8sLeaseConfig, LeaseTarget,
    LeaseTargetView, Refusal, RefusalView,
};
use crate::duration::Duration;

verus! {

/// What an elector is to do next, with pauses of type `D`.
#[derive(Clone, Copy, Debug)]
pub enum RoleStage<D> {
    /// Try to take the Lease, unless the elector is cancelled first.
    Acquiring,
    /// Lead.
    Leading,
    /// Sleep for the pause, unless the elector is cancelled first.
    Pausing(D),
    /// Return: the elector was cancelled.
    Stopped,
    /// Return the refusal: the configuration has this fault.
    Refused(ConfigError),
}

/// What became of what an elector did.
#[derive(Debug)]
pub enum RoleEvent {
    /// The Lease was taken, is held by another elector, or could not be reached.
    Tried(Result<bool, LeaseError>),
    /// Leadership has ended.
    Led(Result<(), LeaseError>),
    /// The pause is over.
    Elapsed,
    /// The elector was cancelled.
    Cancelled,
}

/// An elector that runs for a role.
#[derive(Debug)]
pub struct RoleLoop {
    target: LeaseTarget,
    stage: RoleStage<Duration>,
    backoff: Backoff,
}

/// Where an elector that runs for a role stands: the Lease that it runs for, what
/// it is to do next, and the pause after the next failure in nanoseconds.
pub struct RoleView {
    pub target: LeaseTargetView,
    pub stage: RoleStage<nat>,
    pub backoff: nat,
}

/// A stage, its pause in nanoseconds.
pub open spec fn stage_view(stage: RoleStage<Duration>) -> RoleStage<nat> {
    match stage {
        RoleStage::Acquiring => RoleStage::Acquiring,
        RoleStage::Leading => RoleStage::Leading,
        RoleStage::Pausing(pause) => RoleStage::Pausing(pause@),
        RoleStage::Stopped => RoleStage::Stopped,
        RoleStage::Refused(error) => RoleStage::Refused(error),
    }
}

impl View for RoleLoop {
    type V = RoleView;

    closed spec fn view(&self) -> RoleView {
        RoleView {
            target: self.target@,
            stage: stage_view(self.stage),
            backoff: self.backoff@,
        }
    }
}

/// Where an elector for the Lease `target` with the configuration fault `fault`
/// starts.
pub open spec fn role_start(target: LeaseTargetView, fault: Option<ConfigError>) -> RoleView {
    RoleView {
        target,
        stage: match fault {
            Some(error) => RoleStage::Refused(error),
            None => RoleStage::Acquiring,
        },
        backoff: first_delay(),
    }
}

/// Where an elector that renews every `renew_period` nanoseconds stands after
/// `event`. An event that nobody waits for changes nothing.
pub open spec fn role_next(role: RoleView, event: RoleEvent, renew_period: nat) -> RoleView {
    match (role.stage, event) {
        (RoleStage::Acquiring, RoleEvent::Tried(Ok(true))) => {
            RoleView { stage: RoleStage::Leading, backoff: first_delay(), ..role }
        },
        (RoleStage::Acquiring, RoleEvent::Tried(Ok(false))) => {
            RoleView { stage: RoleStage::Pausing(renew_period), ..role }
        },
        (RoleStage::Acquiring, RoleEvent::Tried(Err(_))) => {
            RoleView {
                stage: RoleStage::Pausing(role.backoff),
                backoff: following_delay(role.backoff),
                ..role
            }
        },
        (RoleStage::Leading, RoleEvent::Led(_)) => {
            RoleView { stage: RoleStage::Acquiring, ..role }
        },
        (RoleStage::Pausing(_), RoleEvent::Elapsed) => {
            RoleView { stage: RoleStage::Acquiring, ..role }
        },
        (RoleStage::Acquiring, RoleEvent::Cancelled)
        | (RoleStage::Pausing(_), RoleEvent::Cancelled) => {
            RoleView { stage: RoleStage::Stopped, ..role }
        },
        _ => role,
    }
}

/// What an elector returns: nothing while it runs, no error once it was cancelled,
/// and the refusal of a faulty configuration.
pub open spec fn role_outcome(role: RoleView) -> Option<Result<(), RefusalView>> {
    match role.stage {
        RoleStage::Stopped => Some(Ok(())),
        RoleStage::Refused(error) => Some(Err(refusal_of(error))),
        _ => None,
    }
}

/// What [`RoleLoop::outcome`] says.
pub open spec fn returned_view(
    returned: Option<Result<(), Refusal>>,
) -> Option<Result<(), RefusalView>> {
    match returned {
        Some(Ok(_)) => Some(Ok(())),
        Some(Err(refusal)) => Some(Err(refusal@)),
        None => None,
    }
}

impl RoleLoop {
    /// Starts to run for `role`; ends at once where `config` is refused.
    pub fn start(config: &K8sLeaseConfig, role: &str) -> (res: Self)
        ensures
            res@ == role_start(
                lease_target_of(config.namespace@, config.lease_prefix@, role@),
                config.fault(),
            ),
    {
        let stage = match config.validate() {
            Ok(_) => RoleStage::Acquiring,
            Err(error) => RoleStage::Refused(error),
        };
        RoleLoop { target: config.lease_target(role), stage, backoff: Backoff::new() }
    }

    /// The Lease that the elector runs for, which every request is about.
    pub fn target(&self) -> (res: &LeaseTarget)
        ensures
            res@ == self@.target,
    {
        &self.target
    }

    /// What the elector is to do next.
    pub fn stage(&self) -> (res: RoleStage<Duration>)
        ensures
            stage_view(res) == self@.stage,
    {
        self.stage
    }

    /// What the elector returns, once there is nothing left for it to do.
    pub fn outcome(&self) -> (res: Option<Result<(), Refusal>>)
        ensures
            returned_view(res) == role_outcome(self@),
    {
        match self.stage {
            RoleStage::Stopped => Some(Ok(())),
            RoleStage::Refused(error) => Some(Err(error.refusal())),
            _ => None,
        }
    }

    /// Goes on running for the role after `event`.
    ///
    /// A Lease that another elector holds is tried again after the renew period,
    /// one that could not be reached after a pause that grows from failure to
    /// failure. The elector runs until it is cancelled; a leader that is
    /// cancelled gives up leadership first.
    pub fn run_role(&mut self, event: RoleEvent, renew_period: Duration)
        ensures
            final(self)@ == role_next(old(self)@, event, renew_period@),
    {
        match (self.stage, event) {
            (RoleStage::Acquiring, RoleEvent::Tried(Ok(true))) => {
                self.backoff.reset();
                self.stage = RoleStage::Leading;
            },
            (RoleStage::Acquiring, RoleEvent::Tried(Ok(false))) => {
                self.stage = RoleStage::Pausing(renew_period);
            },
            (RoleStage::Acquiring, RoleEvent::Tried(Err(_))) => {
                self.stage = RoleStage::Pausing(self.backoff.next_delay());
            },
            (RoleStage::Leading, RoleEvent::Led(_)) => {
                self.stage = RoleStage::Acquiring;
            },
            (RoleStage::Pausing(_), RoleEvent::Elapsed) => {
                self.stage = RoleStage::Acquiring;
            },
            (RoleStage::Acquiring, RoleEvent::Cancelled)
            | (RoleStage::Pausing(_), RoleEvent::Cancelled) => {
                self.stage = RoleStage::Stopped;
            },
            _ => {},
        }
    }
}

/// Where an elector for the Lease `target` with the configuration fault `fault`
/// that renews every `renew_period` nanoseconds stands after `events`.
pub open spec fn role_run(
    target: LeaseTargetView,
    fault: Option<ConfigError>,
    renew_period: nat,
    events: Seq<RoleEvent>,
) -> RoleView
    decreases events.len(),
{
    if events.len() == 0 {
        role_start(target, fault)
    } else {
        role_next(
            role_run(target, fault, renew_period, events.drop_last()),
            events.last(),
            renew_period,
        )
    }
}

/// How often in a row, since it last took the Lease, an elector could not reach
/// it. That another elector held it does not count, and does not end the row.
pub open spec fn failures_in_a_row(
    target: LeaseTargetView,
    fault: Option<ConfigError>,
    renew_period: nat,
    events: Seq<RoleEvent>,
) -> nat
    decreases events.len(),
{
    if events.len() == 0 {
        0
    } else {
        let before = events.drop_last();
        match (role_run(target, fault, renew_period, before).stage, events.last()) {
            (RoleStage::Acquiring, RoleEvent::Tried(Ok(true))) => 0,
            (RoleStage::Acquiring, RoleEvent::Tried(Err(_))) => {
                failures_in_a_row(target, fault, renew_period, before) + 1
            },
            _ => failures_in_a_row(target, fault, renew_period, before),
        }
    }
}

/// The elector is refused if and only if its configuration is, whatever happens
/// afterwards, and it stops only after it was cancelled.
pub proof fn law_elector_runs_until_cancelled(
    target: LeaseTargetView,
    fault: Option<ConfigError>,
    renew_period: nat,
    events: Seq<RoleEvent>,
)
    ensures
        match role_run(target, fault, renew_period, events).stage {
            RoleStage::Refused(error) => fault == Some(error),
            RoleStage::Stopped => fault is None && events.contains(RoleEvent::Cancelled),
            _ => fault is None,
        },
    decreases events.len(),
{
    if events.len() > 0 {
        let before = events.drop_last();
        law_elector_runs_until_cancelled(target, fault, renew_period, before);
        assert(events.contains(events.last())) by {
            assert(events[events.len() - 1] == events.last());
        }
        if before.contains(RoleEvent::Cancelled) {
            let i = choose|i: int| 0 <= i < before.len() && before[i] == RoleEvent::Cancelled;
            assert(events[i] == RoleEvent::Cancelled);
        }
    }
}

/// An elector with a faulty configuration neither tries to take the Lease nor
/// leads: it returns the refusal, whether or not it is cancelled and whatever else
/// happens.
pub proof fn law_faulty_config_is_refused(
    target: LeaseTargetView,
    error: ConfigError,
    renew_period: nat,
    events: Seq<RoleEvent>,
)
    ensures
        ({
            let elector = role_run(target, Some(error), renew_period, events);
            &&& elector.stage == RoleStage::<nat>::Refused(error)
            &&& role_outcome(elector) == Some(Err::<(), RefusalView>(refusal_of(error)))
        }),
{
    law_elector_runs_until_cancelled(target, Some(error), renew_period, events);
}

/// From start to end an elector runs for the one Lease in the configured namespace
/// whose name is made of the configured prefix and the role.
pub proof fn law_elector_keeps_its_lease(
    config: K8sLeaseConfig,
    role: Seq<char>,
    renew_period: nat,
    events: Seq<RoleEvent>,
)
    ensures
        ({
            let target = lease_target_of(config.namespace@, config.lease_prefix@, role);
            let elector = role_run(target, config.fault(), renew_period, events);
            &&& elector.target.namespace == config.namespace@
            &&& elector.target.name == lease_name_text(config.lease_prefix@, role)
        }),
    decreases events.len(),
{
    if events.len() > 0 {
        law_elector_keeps_its_lease(config, role, renew_period, events.drop_last());
    }
}

/// An elector leads only after an attempt to take the Lease has succeeded, and
/// leadership that has ended needs another one.
pub proof fn law_leadership_is_taken(
    target: LeaseTargetView,
    fault: Option<ConfigError>,
    renew_period: nat,
    events: Seq<RoleEvent>,
)
    requires
        role_run(target, fault, renew_period, events).stage is Leading,
    ensures
        exists|i: int|
            {
                &&& 0 <= i < events.len()
                &&& #[trigger] events[i] == RoleEvent::Tried(Ok(true))
                &&& role_run(target, fault, renew_period, events.take(i)).stage is Acquiring
                &&& forall|j: int| i < j < events.len() ==> !(#[trigger] events[j] is Led)
            },
    decreases events.len(),
{
    let before = events.drop_last();
    let last = events.len() - 1;
    assert(events[last] == events.last());
    if role_run(target, fault, renew_period, before).stage is Leading {
        law_leadership_is_taken(target, fault, renew_period, before);
        let i = choose|i: int|
            {
                &&& 0 <= i < before.len()
                &&& #[trigger] before[i] == RoleEvent::Tried(Ok(true))
                &&& role_run(target, fault, renew_period, before.take(i)).stage is Acquiring
                &&& forall|j: int| i < j < before.len() ==> !(#[trigger] before[j] is Led)
            };
        assert(events[i] == before[i]);
        assert(events.take(i) =~= before.take(i));
        assert forall|j: int| i < j < events.len() implies !(#[trigger] events[j] is Led) by {
            if j < last {
                assert(before[j] == events[j]);
            }
        }
    } else {
        assert(events.take(last) =~= before);
    }
}

/// An elector comes to lead only by taking the Lease.
pub proof fn law_leading_follows_taking(role: RoleView, event: RoleEvent, renew_period: nat)
    requires
        !(role.stage is Leading),
        role_next(role, event, renew_period).stage is Leading,
    ensures
        role.stage is Acquiring,
        event == RoleEvent::Tried(Ok(true)),
        role_next(role, event, renew_period).backoff == first_delay(),
{
}

/// An elector that has stopped or was refused stays so.
pub proof fn law_elector_stays_stopped(role: RoleView, event: RoleEvent, renew_period: nat)
    requires
        role.stage is Stopped || role.stage is Refused,
    ensures
        role_next(role, event, renew_period) == role,
{
}

/// An elector that does not lead stops as soon as it is cancelled.
pub proof fn law_cancelled_elector_stops(role: RoleView, renew_period: nat)
    requires
        role.stage is Acquiring || role.stage is Pausing,
    ensures
        role_next(role, RoleEvent::Cancelled, renew_period).stage is Stopped,
{
}

/// The pause after a failure depends on nothing but the number of failures in a
/// row, and taking the Lease starts the count anew.
pub proof fn law_pauses_follow_failures(
    target: LeaseTargetView,
    fault: Option<ConfigError>,
    renew_period: nat,
    events: Seq<RoleEvent>,
)
    ensures
        role_run(target, fault, renew_period, events).backoff == delay_after(
            failures_in_a_row(target, fault, renew_period, events),
        ),
    decreases events.len(),
{
    law_delays_double(0);
    if events.len() > 0 {
        let before = events.drop_last();
        law_pauses_follow_failures(target, fault, renew_period, before);
        law_delays_double(failures_in_a_row(target, fault, renew_period, before));
    }
}

/// A failed attempt is followed by the pause for the failures before it, one
/// that another elector won by the renew period, and after the pause the elector
/// tries again.
pub proof fn law_elector_tries_again(
    target: LeaseTargetView,
    fault: Option<ConfigError>,
    renew_period: nat,
    before: Seq<RoleEvent>,
    error: LeaseError,
)
    requires
        role_run(target, fault, renew_period, before).stage is Acquiring,
    ensures
        ({
            let failed = before.push(RoleEvent::Tried(Err(error)));
            let lost = before.push(RoleEvent::Tried(Ok(false)));
            let after_failed = failed.push(RoleEvent::Elapsed);
            let after_lost = lost.push(RoleEvent::Elapsed);
            &&& role_run(target, fault, renew_period, failed).stage == RoleStage::Pausing(
                delay_after(failures_in_a_row(target, fault, renew_period, before)),
            )
            &&& role_run(target, fault, renew_period, lost).stage == RoleStage::Pausing(
                renew_period,
            )
            &&& role_run(target, fault, renew_period, after_failed).stage is Acquiring
            &&& role_run(target, fault, renew_period, after_lost).stage is Acquiring
        }),
{
    let failed = before.push(RoleEvent::Tried(Err(error)));
    let lost = before.push(RoleEvent::Tried(Ok(false)));
    law_pauses_follow_failures(target, fault, renew_period, before);
    assert(failed.drop_last() =~= before);
    assert(lost.drop_last() =~= before);
    assert(failed.push(RoleEvent::Elapsed).drop_last() =~= failed);
    assert(lost.push(RoleEvent::Elapsed).drop_last() =~= lost);
}

/// Whoever takes the Lease leads, whatever the renew period, and the pauses after
/// failures begin anew at 200 milliseconds.
pub proof fn law_whoever_takes_the_lease_leads(
    target: LeaseTargetView,
    fault: Option<ConfigError>,
    renew_period: nat,
    before: Seq<RoleEvent>,
)
    requires
        role_run(target, fault, renew_period, before).stage is Acquiring,
    ensures
        ({
            let elector = role_run(
                target,
                fault,
                renew_period,
                before.push(RoleEvent::Tried(Ok(true))),
            );
            &&& elector.stage is Leading
            &&& elector.backoff == 200_000_000
            &&& elector.target == role_run(target, fault, renew_period, before).target
        }),
{
    assert(before.push(RoleEvent::Tried(Ok(true))).drop_last() =~= before);
}

/// An elector that comes to the end of its leadership, in whatever way, tries to take
/// the Lease again at once.
pub proof fn law_former_leader_tries_again(
    target: LeaseTargetView,
    fault: Option<ConfigError>,
    renew_period: nat,
    before: Seq<RoleEvent>,
    outcome: Result<(), LeaseError>,
)
    requires
        role_run(target, fault, renew_period, before).stage is Leading,
    ensures
        role_run(target, fault, renew_period, before.push(RoleEvent::Led(outcome))).stage
            is Acquiring,
{
    assert(before.push(RoleEvent::Led(outcome)).drop_last() =~= before);
}

/// An elector that cannot reach the Lease pauses for 200 milliseconds times two to the
/// number of failures in a row before, but for no longer than 5 seconds; one that
/// finds it held by another elector pauses for the renew period. After the pause it
/// tries again.
pub proof fn law_pauses_in_nanoseconds(
    target: LeaseTargetView,
    fault: Option<ConfigError>,
    renew_period: nat,
    before: Seq<RoleEvent>,
    error: LeaseError,
)
    requires
        role_run(target, fault, renew_period, before).stage is Acquiring,
    ensures
        ({
            let failures = failures_in_a_row(target, fault, renew_period, before);
            let grown = 200_000_000 * pow2(failures);
            let failed = before.push(RoleEvent::Tried(Err(error)));
            let lost = before.push(RoleEvent::Tried(Ok(false)));
            &&& role_run(target, fault, renew_period, failed).stage == RoleStage::Pausing(
                if grown <= 5_000_000_000 {
                    grown
                } else {
                    5_000_000_000
                },
            )
            &&& role_run(target, fault, renew_period, lost).stage == RoleStage::Pausing(
                renew_period,
            )
            &&& failures_in_a_row(target, fault, renew_period, failed) == failures + 1
            &&& failures_in_a_row(target, fault, renew_period, lost) == failures
        }),
{
    let failed = before.push(RoleEvent::Tried(Err(error)));
    let lost = before.push(RoleEvent::Tried(Ok(false)));
    assert(failed.drop_last() =~= before);
    assert(lost.drop_last() =~= before);
    law_elector_tries_again(target, fault, renew_period, before, error);
    law_delays_in_nanoseconds(0, failures_in_a_row(target, fault, renew_period, before));
}

/// An elector without a fault starts by trying to take its Lease, one with a fault is
/// refused; either way its pauses start at 200 milliseconds.
pub proof fn law_elector_starts(target: LeaseTargetView, error: ConfigError)
    ensures
        role_start(target, None).stage is Acquiring,
        role_start(target, None).target == target,
        role_start(target, None).backoff == 200_000_000,
        role_start(target, Some(error)).stage == RoleStage::<nat>::Refused(error),
        role_start(target, Some(error)).target == target,
        role_start(target, Some(error)).backoff == 200_000_000,
{
}

/// What an elector does after each event that it waits for, wherever it stands: the
/// Lease that it runs for stays the same, a failure makes the next pause twice as
/// long, up to 5 seconds, and nothing but a failure and a success changes that pause.
pub proof fn law_elector_moves_on(
    role: RoleView,
    renew_period: nat,
    error: LeaseError,
    led: Result<(), LeaseError>,
)
    ensures
        role.stage is Acquiring ==> {
            let taken = role_next(role, RoleEvent::Tried(Ok(true)), renew_period);
            let held = role_next(role, RoleEvent::Tried(Ok(false)), renew_period);
            let failed = role_next(role, RoleEvent::Tried(Err(error)), renew_period);
            let cancelled = role_next(role, RoleEvent::Cancelled, renew_period);
            &&& taken.stage is Leading && taken.backoff == 200_000_000 && taken.target
                == role.target
            &&& held.stage == RoleStage::Pausing(renew_period) && held.backoff == role.backoff
                && held.target == role.target
            &&& failed.stage == RoleStage::Pausing(role.backoff) && failed.target == role.target
            &&& 2 * role.backoff <= 5_000_000_000 ==> failed.backoff == 2 * role.backoff
            &&& 2 * role.backoff > 5_000_000_000 ==> failed.backoff == 5_000_000_000
            &&& cancelled.stage is Stopped && cancelled.backoff == role.backoff && cancelled.target
                == role.target
        },
        role.stage is Leading ==> {
            let ended = role_next(role, RoleEvent::Led(led), renew_period);
            &&& ended.stage is Acquiring
            &&& ended.backoff == role.backoff
            &&& ended.target == role.target
        },
        role.stage is Pausing ==> {
            let elapsed = role_next(role, RoleEvent::Elapsed, renew_period);
            let cancelled = role_next(role, RoleEvent::Cancelled, renew_period);
            &&& elapsed.stage is Acquiring && elapsed.backoff == role.backoff && elapsed.target
                == role.target
            &&& cancelled.stage is Stopped && cancelled.backoff == role.backoff && cancelled.target
                == role.target
        },
{
}

/// Whatever else happens leaves an elector where it stands; above all, a leader that
/// is cancelled leads until its leadership has ended.
pub proof fn law_elector_ignores_the_rest(role: RoleView, event: RoleEvent, renew_period: nat)
    requires
        role.stage is Acquiring ==> !(event is Tried) && !(event is Cancelled),
        role.stage is Leading ==> !(event is Led),
        role.stage is Pausing ==> !(event is Elapsed) && !(event is Cancelled),
    ensures
        role_next(role, event, renew_period) == role,
{
}

/// An elector returns only once it has stopped, without an error, or was refused, with
/// the fault behind the refusal.
pub proof fn law_what_an_elector_returns(role: RoleView)
    ensures
        match role.stage {
            RoleStage::Stopped => role_outcome(role) == Some(Ok::<(), RefusalView>(())),
            RoleStage::Refused(error) => role_outcome(role) matches Some(Err(refusal))
                && refusal.context == "invalid k8s lease config"@ && refusal.cause == error,
            _ => role_outcome(role) is None,
        },
{
}

/// The views of a stage and of what an elector returns keep what they show.
pub proof fn law_role_views_are_faithful(pause: Duration, error: ConfigError, refusal: Refusal)
    ensures
        stage_view(RoleStage::Acquiring) == RoleStage::<nat>::Acquiring,
        stage_view(RoleStage::Leading) == RoleStage::<nat>::Leading,
        stage_view(RoleStage::Pausing(pause)) == RoleStage::Pausing(pause@),
        stage_view(RoleStage::Stopped) == RoleStage::<nat>::Stopped,
        stage_view(RoleStage::Refused(error)) == RoleStage::<nat>::Refused(error),
        returned_view(None) is None,
        returned_view(Some(Ok(()))) == Some(Ok::<(), RefusalView>(())),
        returned_view(Some(Err(refusal))) == Some(Err::<(), RefusalView>(refusal@)),
        refusal@.context == refusal.context@,
        refusal@.cause == refusal.cause,
{
}

} // verus!
