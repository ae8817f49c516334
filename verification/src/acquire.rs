//! Taking the Lease of a role.

use vstd::prelude::*;

use crate::api::{
    reply_view, request, ApiFailure, Call, LeaseError, LeaseFailure, LeaseRequest,
    LeaseRequestView, Reply, Request, Step, CONFLICT, NOT_FOUND,
};
use crate::config::{
    default_seconds, ConfigError, K8sLeaseConfig, LeaseTarget, LeaseTargetView,
};
use crate::lease::{can_acquire_leadership, read_lease_state, Lease, LeaseView};
use crate::timestamp::Timestamp;

verus! {

/// Which reply [`ensure_lease_exists`] waits for.
#[derive(Clone, Copy, Debug, PartialEq, Eq, Structural)]
pub enum EnsureStage {
    /// The Lease was asked for.
    Probing,
    /// The Lease was created.
    Creating,
}

/// Which reply [`try_acquire`] waits for.
#[derive(Clone, Copy, Debug, PartialEq, Eq, Structural)]
pub enum AcquireStage {
    /// The Lease is made sure to exist.
    Ensuring(EnsureStage),
    /// The Lease was asked for.
    Reading,
    /// The Lease was replaced by one that the elector holds.
    Replacing,
}

/// A step of [`ensure_lease_exists`].
pub type EnsureStep = Step<EnsureStage, LeaseRequest, Result<(), LeaseError>>;

/// A step of [`try_acquire`].
pub type AcquireStep = Step<AcquireStage, LeaseRequest, Result<bool, LeaseError>>;

/// What follows a reply while the Lease is made sure to exist: one that is there
/// is left alone, one that is missing is created with nothing but its name, and
/// it does not matter who creates it.
pub open spec fn ensure_step(
    stage: EnsureStage,
    target: LeaseTargetView,
    reply: Result<LeaseView, ApiFailure>,
) -> Step<EnsureStage, LeaseRequestView, Result<(), LeaseFailure<Seq<char>>>> {
    match (stage, reply) {
        (_, Ok(_)) => Step::Done(Ok(())),
        (EnsureStage::Probing, Err(failure)) => {
            if failure == (ApiFailure::Status { code: NOT_FOUND }) {
                Step::Call(
                    EnsureStage::Creating,
                    Request { target, call: Call::Create(LeaseView::named(target.name)) },
                )
            } else {
                Step::Done(Err(LeaseFailure::GetBeforeCreate(failure)))
            }
        },
        (EnsureStage::Creating, Err(failure)) => {
            if failure == (ApiFailure::Status { code: CONFLICT }) {
                Step::Done(Ok(()))
            } else {
                Step::Done(Err(LeaseFailure::Create(failure)))
            }
        },
    }
}

/// What an elector does with a Lease that it read at `now`: it replaces the
/// Lease if it may take it, and gives up for now if it may not.
pub open spec fn acquire_decision(
    identity: Seq<char>,
    default: Result<i32, ConfigError>,
    target: LeaseTargetView,
    lease: LeaseView,
    now: int,
) -> Step<AcquireStage, LeaseRequestView, Result<bool, LeaseFailure<Seq<char>>>> {
    match default {
        Err(error) => Step::Done(Err(LeaseFailure::Config(error))),
        Ok(seconds) => if lease.acquirable(seconds, identity, now) {
            Step::Call(
                AcquireStage::Replacing,
                Request {
                    target,
                    call: Call::Replace(
                        lease.acquired(identity, lease.duration_or(seconds), now),
                    ),
                },
            )
        } else {
            Step::Done(Ok(false))
        },
    }
}

/// How an elector starts to take the Lease.
pub open spec fn acquire_start(target: LeaseTargetView) -> Step<
    AcquireStage,
    LeaseRequestView,
    Result<bool, LeaseFailure<Seq<char>>>,
> {
    Step::Call(
        AcquireStage::Ensuring(EnsureStage::Probing),
        Request { target, call: Call::Get },
    )
}

/// What follows a reply while an elector tries to take the Lease.
pub open spec fn acquire_step(
    stage: AcquireStage,
    identity: Seq<char>,
    default: Result<i32, ConfigError>,
    target: LeaseTargetView,
    reply: Result<LeaseView, ApiFailure>,
    now: int,
) -> Step<AcquireStage, LeaseRequestView, Result<bool, LeaseFailure<Seq<char>>>> {
    match stage {
        AcquireStage::Ensuring(ensuring) => match ensure_step(ensuring, target, reply) {
            Step::Call(next, request) => Step::Call(AcquireStage::Ensuring(next), request),
            Step::Done(Ok(_)) => {
                Step::Call(AcquireStage::Reading, Request { target, call: Call::Get })
            },
            Step::Done(Err(error)) => Step::Done(Err(error)),
        },
        AcquireStage::Reading => match reply {
            Ok(lease) => acquire_decision(identity, default, target, lease, now),
            Err(failure) => Step::Done(Err(LeaseFailure::GetForAcquire(failure))),
        },
        AcquireStage::Replacing => match reply {
            Ok(_) => Step::Done(Ok(true)),
            Err(failure) => if failure == (ApiFailure::Status { code: CONFLICT }) {
                Step::Done(Ok(false))
            } else {
                Step::Done(Err(LeaseFailure::ReplaceToAcquire(failure)))
            },
        },
    }
}

impl AcquireStage {
    /// Starts to take the Lease: makes sure that it exists.
    pub fn start(target: &LeaseTarget) -> (res: AcquireStep)
        ensures
            res@ == acquire_start(target@),
    {
        Step::Call(AcquireStage::Ensuring(EnsureStage::Probing), request(target, Call::Get))
    }
}

/// Goes on making sure that the Lease `target` exists, with the reply to the
/// call of `stage`. The first call is a [`Call::Get`], in [`EnsureStage::Probing`].
pub fn ensure_lease_exists(
    stage: EnsureStage,
    target: &LeaseTarget,
    reply: Reply,
) -> (res: EnsureStep)
    ensures
        res@ == ensure_step(stage, target@, reply_view(reply)),
{
    match reply {
        Ok(_) => Step::Done(Ok(())),
        Err(failure) => match stage {
            EnsureStage::Probing => {
                if failure == (ApiFailure::Status { code: NOT_FOUND }) {
                    let lease = Lease::named(target.name.as_str());
                    Step::Call(EnsureStage::Creating, request(target, Call::Create(lease)))
                } else {
                    Step::Done(Err(LeaseFailure::GetBeforeCreate(failure)))
                }
            },
            EnsureStage::Creating => {
                if failure == (ApiFailure::Status { code: CONFLICT }) {
                    Step::Done(Ok(()))
                } else {
                    Step::Done(Err(LeaseFailure::Create(failure)))
                }
            },
        },
    }
}

/// Decides on the Lease that was read at `now`.
///
/// The replacement keeps the resource version of the Lease that was read, so
/// that the API server refuses it if anybody else was faster.
fn decide_acquire(
    config: &K8sLeaseConfig,
    target: &LeaseTarget,
    lease: Lease,
    now: Timestamp,
) -> (res: AcquireStep)
    ensures
        res@ == acquire_decision(
            config.identity@,
            default_seconds(config.lease_duration),
            target@,
            lease@,
            now@,
        ),
{
    let (holder, renew_time, duration_s) = read_lease_state(&lease);
    let default: i32 = match config.default_lease_duration_seconds() {
        Ok(seconds) => seconds,
        Err(error) => {
            return Step::Done(Err(LeaseFailure::Config(error)));
        },
    };
    let lease_duration_s: i32 = match duration_s {
        Some(seconds) => seconds,
        None => default,
    };
    let holder_text = match &holder {
        Some(h) => Some(h.as_str()),
        None => None,
    };
    if !can_acquire_leadership(
        holder_text,
        renew_time,
        lease_duration_s,
        config.identity.as_str(),
        now,
    ) {
        return Step::Done(Ok(false));
    }
    let new = lease.acquired(config.identity.as_str(), lease_duration_s, now);
    Step::Call(AcquireStage::Replacing, request(target, Call::Replace(new)))
}

/// Goes on trying to take the Lease `target`, with the reply to the call of
/// `stage` and the time at which it came. It ends with whether the elector now
/// holds the Lease.
pub fn try_acquire(
    stage: AcquireStage,
    config: &K8sLeaseConfig,
    target: &LeaseTarget,
    reply: Reply,
    now: Timestamp,
) -> (res: AcquireStep)
    ensures
        res@ == acquire_step(
            stage,
            config.identity@,
            default_seconds(config.lease_duration),
            target@,
            reply_view(reply),
            now@,
        ),
{
    match stage {
        AcquireStage::Ensuring(ensuring) => match ensure_lease_exists(ensuring, target, reply) {
            Step::Call(next, asked) => Step::Call(AcquireStage::Ensuring(next), asked),
            Step::Done(Ok(_)) => Step::Call(AcquireStage::Reading, request(target, Call::Get)),
            Step::Done(Err(error)) => Step::Done(Err(error)),
        },
        AcquireStage::Reading => match reply {
            Ok(lease) => decide_acquire(config, target, lease, now),
            Err(failure) => Step::Done(Err(LeaseFailure::GetForAcquire(failure))),
        },
        AcquireStage::Replacing => match reply {
            Ok(_) => Step::Done(Ok(true)),
            Err(failure) => {
                if failure == (ApiFailure::Status { code: CONFLICT }) {
                    Step::Done(Ok(false))
                } else {
                    Step::Done(Err(LeaseFailure::ReplaceToAcquire(failure)))
                }
            },
        },
    }
}

} // verus!
