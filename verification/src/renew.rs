//! Renewing the Lease of a role.

use vstd::prelude::*;

use crate::api::{
    reply_view, request, ApiFailure, Call, LeaseError, LeaseFailure, LeaseRequest,
    LeaseRequestView, Reply, Request, Step, CONFLICT,
};
use crate::config::{
    default_seconds, ConfigError, K8sLeaseConfig, LeaseTarget, LeaseTargetView,
};
use crate::lease::{lease_expired, read_lease_state, Lease, LeaseView};
use crate::text::same_text;
use crate::timestamp::Timestamp;

verus! {

/// Which reply [`renew_once`] waits for.
#[derive(Clone, Copy, Debug, PartialEq, Eq, Structural)]
pub enum RenewStage {
    /// The Lease was asked for.
    Reading,
    /// The Lease was replaced by one with a new renew time.
    Replacing,
}

/// A step of [`renew_once`].
pub type RenewStep = Step<RenewStage, LeaseRequest, Result<(), LeaseError>>;

/// How a holder starts to renew the Lease.
pub open spec fn renew_start(target: LeaseTargetView) -> Step<
    RenewStage,
    LeaseRequestView,
    Result<(), LeaseFailure<Seq<char>>>,
> {
    Step::Call(RenewStage::Reading, Request { target, call: Call::Get })
}

/// What a holder does with a Lease that it read at `now`: it renews the Lease
/// that it still holds, and leadership is lost where somebody else holds it or
/// where it has expired.
pub open spec fn renew_decision(
    identity: Seq<char>,
    default: Result<i32, ConfigError>,
    target: LeaseTargetView,
    lease: LeaseView,
    now: int,
) -> Step<RenewStage, LeaseRequestView, Result<(), LeaseFailure<Seq<char>>>> {
    if lease.holder() != Some(identity) {
        Step::Done(Err(LeaseFailure::HolderChanged(lease.holder())))
    } else {
        match default {
            Err(error) => Step::Done(Err(LeaseFailure::Config(error))),
            Ok(seconds) => if lease.expired(seconds, now) {
                Step::Done(Err(LeaseFailure::ExpiredBeforeRenew))
            } else {
                Step::Call(
                    RenewStage::Replacing,
                    Request { target, call: Call::Replace(lease.renewed(now)) },
                )
            },
        }
    }
}

/// What follows a reply while a holder renews the Lease.
pub open spec fn renew_step(
    stage: RenewStage,
    identity: Seq<char>,
    default: Result<i32, ConfigError>,
    target: LeaseTargetView,
    reply: Result<LeaseView, ApiFailure>,
    now: int,
) -> Step<RenewStage, LeaseRequestView, Result<(), LeaseFailure<Seq<char>>>> {
    match (stage, reply) {
        (RenewStage::Reading, Ok(lease)) => {
            renew_decision(identity, default, target, lease, now)
        },
        (RenewStage::Reading, Err(failure)) => {
            Step::Done(Err(LeaseFailure::GetForRenew(failure)))
        },
        (RenewStage::Replacing, Ok(_)) => Step::Done(Ok(())),
        (RenewStage::Replacing, Err(failure)) => {
            if failure == (ApiFailure::Status { code: CONFLICT }) {
                Step::Done(Err(LeaseFailure::RenewConflict))
            } else {
                Step::Done(Err(LeaseFailure::ReplaceToRenew(failure)))
            }
        },
    }
}

impl RenewStage {
    /// Starts to renew the Lease: asks for it.
    pub fn start(target: &LeaseTarget) -> (res: RenewStep)
        ensures
            res@ == renew_start(target@),
    {
        Step::Call(RenewStage::Reading, request(target, Call::Get))
    }
}

/// Decides on the Lease that was read at `now`.
fn decide_renew(
    config: &K8sLeaseConfig,
    target: &LeaseTarget,
    lease: Lease,
    now: Timestamp,
) -> (res: RenewStep)
    ensures
        res@ == renew_decision(
            config.identity@,
            default_seconds(config.lease_duration),
            target@,
            lease@,
            now@,
        ),
{
    let (holder, renew_time, duration_s) = read_lease_state(&lease);
    let mine = match &holder {
        Some(h) => same_text(h.as_str(), config.identity.as_str()),
        None => false,
    };
    if !mine {
        return Step::Done(Err(LeaseFailure::HolderChanged(holder)));
    }
    let default: i32 = match config.default_lease_duration_seconds() {
        Ok(seconds) => seconds,
        Err(error) => {
            return Step::Done(Err(LeaseFailure::Config(error)));
        },
    };
    let lease_duration_s: i32 = match duration_s {
        Some(seconds) => seconds,
        None => default,
    };
    if lease_expired(renew_time, lease_duration_s, now) {
        return Step::Done(Err(LeaseFailure::ExpiredBeforeRenew));
    }
    Step::Call(RenewStage::Replacing, request(target, Call::Replace(lease.renewed(now))))
}

/// Goes on renewing the Lease `target`, with the reply to the call of `stage` and the
/// time at which it came.
pub fn renew_once(
    stage: RenewStage,
    config: &K8sLeaseConfig,
    target: &LeaseTarget,
    reply: Reply,
    now: Timestamp,
) -> (res: RenewStep)
    ensures
        res@ == renew_step(
            stage,
            config.identity@,
            default_seconds(config.lease_duration),
            target@,
            reply_view(reply),
            now@,
        ),
{
    match stage {
        RenewStage::Reading => match reply {
            Ok(lease) => decide_renew(config, target, lease, now),
            Err(failure) => Step::Done(Err(LeaseFailure::GetForRenew(failure))),
        },
        RenewStage::Replacing => match reply {
            Ok(_) => Step::Done(Ok(())),
            Err(failure) => {
                if failure == (ApiFailure::Status { code: CONFLICT }) {
                    Step::Done(Err(LeaseFailure::RenewConflict))
                } else {
                    Step::Done(Err(LeaseFailure::ReplaceToRenew(failure)))
                }
            },
        },
    }
}

} // verus!
