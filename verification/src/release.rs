//! Giving up the Lease of a role.

use vstd::prelude::*;

use crate::api::{
    reply_view, request, ApiFailure, Call, LeaseError, LeaseFailure, LeaseRequest,
    LeaseRequestView, Reply, Request, Step, CONFLICT,
};
use crate::config::{LeaseTarget, LeaseTargetView};
use crate::lease::{read_lease_state, Lease, LeaseView};
use crate::text::same_text;

verus! {

/// Which reply [`release_lease`] waits for.
#[derive(Clone, Copy, Debug, PartialEq, Eq, Structural)]
pub enum ReleaseStage {
    /// The Lease was asked for.
    Reading,
    /// The Lease was replaced by one that nobody holds.
    Replacing,
}

/// A step of [`release_lease`].
pub type ReleaseStep = Step<ReleaseStage, LeaseRequest, Result<(), LeaseError>>;

/// How a holder starts to release the Lease.
pub open spec fn release_start(target: LeaseTargetView) -> Step<
    ReleaseStage,
    LeaseRequestView,
    Result<(), LeaseFailure<Seq<char>>>,
> {
    Step::Call(ReleaseStage::Reading, Request { target, call: Call::Get })
}

/// What follows a reply while `identity` releases the Lease: a Lease that it
/// does not hold, or that changed meanwhile, is left alone.
pub open spec fn release_step(
    stage: ReleaseStage,
    identity: Seq<char>,
    target: LeaseTargetView,
    reply: Result<LeaseView, ApiFailure>,
) -> Step<ReleaseStage, LeaseRequestView, Result<(), LeaseFailure<Seq<char>>>> {
    match (stage, reply) {
        (ReleaseStage::Reading, Ok(lease)) => if lease.holder() == Some(identity) {
            Step::Call(
                ReleaseStage::Replacing,
                Request { target, call: Call::Replace(lease.released()) },
            )
        } else {
            Step::Done(Ok(()))
        },
        (ReleaseStage::Reading, Err(failure)) => {
            Step::Done(Err(LeaseFailure::GetForRelease(failure)))
        },
        (ReleaseStage::Replacing, Ok(_)) => Step::Done(Ok(())),
        (ReleaseStage::Replacing, Err(failure)) => {
            if failure == (ApiFailure::Status { code: CONFLICT }) {
                Step::Done(Ok(()))
            } else {
                Step::Done(Err(LeaseFailure::ReplaceToRelease(failure)))
            }
        },
    }
}

impl ReleaseStage {
    /// Starts to release the Lease: asks for it.
    pub fn start(target: &LeaseTarget) -> (res: ReleaseStep)
        ensures
            res@ == release_start(target@),
    {
        Step::Call(ReleaseStage::Reading, request(target, Call::Get))
    }
}

/// Goes on with the best-effort release of the Lease `target`, which clears the
/// holder to speed up re-election, with the reply to the call of `stage`.
pub fn release_lease(
    stage: ReleaseStage,
    identity: &str,
    target: &LeaseTarget,
    reply: Reply,
) -> (res: ReleaseStep)
    ensures
        res@ == release_step(stage, identity@, target@, reply_view(reply)),
{
    match stage {
        ReleaseStage::Reading => match reply {
            Ok(lease) => {
                let (holder, _, _) = read_lease_state(&lease);
                let mine = match &holder {
                    Some(h) => same_text(h.as_str(), identity),
                    None => false,
                };
                if !mine {
                    return Step::Done(Ok(()));
                }
                Step::Call(
                    ReleaseStage::Replacing,
                    request(target, Call::Replace(lease.released())),
                )
            },
            Err(failure) => Step::Done(Err(LeaseFailure::GetForRelease(failure))),
        },
        ReleaseStage::Replacing => match reply {
            Ok(_) => Step::Done(Ok(())),
            Err(failure) => {
                if failure == (ApiFailure::Status { code: CONFLICT }) {
                    Step::Done(Ok(()))
                } else {
                    Step::Done(Err(LeaseFailure::ReplaceToRelease(failure)))
                }
            },
        },
    }
}

} // verus!
