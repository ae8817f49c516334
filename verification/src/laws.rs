//! What holds of Leases and of the electors that contend for them.

use vstd::prelude::*;

use crate::acquire::{
    acquire_decision, acquire_start, acquire_step, ensure_step, AcquireStage, EnsureStage,
};
use crate::api::{
    ApiFailure, Call, LeaseFailure, LeaseRequestView, Request, Step, CONFLICT, NOT_FOUND,
};
use crate::config::{
    default_seconds, lease_name_text, whole_seconds, ConfigError, K8sLeaseConfig, LeaseTargetView,
};
use crate::duration::NANOS_PER_SEC;
use crate::lease::{expiry, is_expired, may_acquire, LeaseSpecView, LeaseView};
use crate::release::{release_start, release_step, ReleaseStage};
use crate::renew::{renew_decision, renew_start, renew_step, RenewStage};
use crate::timestamp::in_range;

verus! {

/// While a holder may renew the Lease, nobody else may take it.
pub proof fn law_renewable_lease_is_exclusive(
    lease: LeaseView,
    default: i32,
    holder: Seq<char>,
    other: Seq<char>,
    now: int,
)
    requires
        other != holder,
        lease.renewable(default, holder, now),
    ensures
        !lease.acquirable(default, other, now),
        !lease.renewable(default, other, now),
{
}

/// Whoever acquired the Lease may renew it until it expires, and from then on,
/// not before, others may take it.
pub proof fn law_acquired_lease_excludes_others(
    lease: LeaseView,
    identity: Seq<char>,
    other: Seq<char>,
    seconds: i32,
    default: i32,
    now: int,
    later: int,
)
    requires
        other != identity,
        in_range(expiry(now, seconds)),
    ensures
        lease.acquired(identity, seconds, now).renewable(default, identity, later) <==> later
            <= expiry(now, seconds),
        lease.acquired(identity, seconds, now).acquirable(default, other, later) <==> expiry(
            now,
            seconds,
        ) < later,
        lease.acquired(identity, seconds, now).acquirable(default, identity, later),
{
}

/// What an acquired Lease says is what its holder wrote.
pub proof fn law_acquired_lease_reads_back(
    lease: LeaseView,
    identity: Seq<char>,
    seconds: i32,
    now: int,
)
    ensures
        lease.acquired(identity, seconds, now).holder() == Some(identity),
        lease.acquired(identity, seconds, now).renew_time() == Some(now),
        lease.acquired(identity, seconds, now).duration() == Some(seconds),
{
}

/// A renewal keeps the holder and the duration, and the renewed Lease may be
/// renewed again until it has lasted its duration once more.
pub proof fn law_renewal_extends_lease(
    lease: LeaseView,
    identity: Seq<char>,
    default: i32,
    now: int,
    later: int,
)
    requires
        lease.holder() == Some(identity),
        in_range(expiry(now, lease.duration_or(default))),
    ensures
        lease.renewed(now).holder() == lease.holder(),
        lease.renewed(now).duration() == lease.duration(),
        lease.renewed(now).renewable(default, identity, later) <==> later <= expiry(
            now,
            lease.duration_or(default),
        ),
{
}

/// A released Lease may be taken by anybody, at once, and renewed by nobody.
pub proof fn law_released_lease_is_free(
    lease: LeaseView,
    default: i32,
    anybody: Seq<char>,
    now: int,
)
    ensures
        lease.released().acquirable(default, anybody, now),
        !lease.released().renewable(default, anybody, now),
{
}

/// A Lease that was just created may be taken by anybody.
pub proof fn law_new_lease_is_free(name: Seq<char>, default: i32, anybody: Seq<char>, now: int)
    ensures
        LeaseView::named(name).acquirable(default, anybody, now),
{
}

/// What of a Lease leader election never writes: all of its metadata, and its
/// specification without holder, duration and renew time.
pub open spec fn untouched(lease: LeaseView) -> LeaseView {
    LeaseView {
        spec: Some(
            LeaseSpecView {
                holder_identity: None,
                lease_duration_seconds: None,
                renew_time: None,
                ..lease.spec_or_empty()
            },
        ),
        ..lease
    }
}

/// Every replacement that an elector sends to acquire the Lease is made from a
/// Lease that it read and may take at that moment: it keeps the metadata, with the
/// resource version, puts the elector's identity and the time in, and keeps the
/// duration where the Lease named one.
pub proof fn law_acquire_is_guarded(
    stage: AcquireStage,
    identity: Seq<char>,
    default: Result<i32, ConfigError>,
    target: LeaseTargetView,
    reply: Result<LeaseView, ApiFailure>,
    now: int,
)
    ensures
        acquire_step(stage, identity, default, target, reply, now) matches Step::Call(
            _,
            Request { call: Call::Replace(new), .. },
        ) ==> {
            &&& stage == AcquireStage::Reading
            &&& default is Ok
            &&& reply is Ok
            &&& reply->Ok_0.acquirable(default->Ok_0, identity, now)
            &&& untouched(new) == untouched(reply->Ok_0)
            &&& new.holder() == Some(identity)
            &&& new.renew_time() == Some(now)
            &&& new.duration() == Some(reply->Ok_0.duration_or(default->Ok_0))
        },
{
}

/// A Lease that another elector holds and that has not expired is left alone.
pub proof fn law_held_lease_is_left_alone(
    identity: Seq<char>,
    seconds: i32,
    target: LeaseTargetView,
    lease: LeaseView,
    now: int,
)
    requires
        lease.holder() is Some,
        lease.holder() != Some(identity),
        !lease.expired(seconds, now),
    ensures
        acquire_step(AcquireStage::Reading, identity, Ok(seconds), target, Ok(lease), now)
            == Step::<AcquireStage, LeaseRequestView, _>::Done(
            Ok::<bool, LeaseFailure<Seq<char>>>(false),
        ),
{
}

/// Every replacement that a holder sends to renew the Lease is made from a Lease
/// that it read, holds and may renew at that moment; nothing but the renew time
/// changes.
pub proof fn law_renew_is_guarded(
    stage: RenewStage,
    identity: Seq<char>,
    default: Result<i32, ConfigError>,
    target: LeaseTargetView,
    reply: Result<LeaseView, ApiFailure>,
    now: int,
)
    ensures
        renew_step(stage, identity, default, target, reply, now) matches Step::Call(
            _,
            Request { call: Call::Replace(new), .. },
        ) ==> {
            &&& stage == RenewStage::Reading
            &&& default is Ok
            &&& reply is Ok
            &&& reply->Ok_0.renewable(default->Ok_0, identity, now)
            &&& untouched(new) == untouched(reply->Ok_0)
            &&& new.holder() == reply->Ok_0.holder()
            &&& new.duration() == reply->Ok_0.duration()
            &&& new.renew_time() == Some(now)
        },
{
}

/// Every replacement sent to release the Lease is made from a Lease that the
/// elector read and holds; nothing but the holder changes.
pub proof fn law_release_is_guarded(
    stage: ReleaseStage,
    identity: Seq<char>,
    target: LeaseTargetView,
    reply: Result<LeaseView, ApiFailure>,
)
    ensures
        release_step(stage, identity, target, reply) matches Step::Call(
            _,
            Request { call: Call::Replace(new), .. },
        ) ==> {
            &&& stage == ReleaseStage::Reading
            &&& reply is Ok
            &&& reply->Ok_0.holder() == Some(identity)
            &&& untouched(new) == untouched(reply->Ok_0)
            &&& new.holder() is None
            &&& new.duration() == reply->Ok_0.duration()
            &&& new.renew_time() == reply->Ok_0.renew_time()
        },
{
}

/// What a store that guards replacements by the resource version makes of one:
/// it takes a replacement of the stored version and gives it the version `next`,
/// and it refuses any other.
pub open spec fn guarded_replace(
    stored: LeaseView,
    new: LeaseView,
    next: Seq<char>,
) -> Option<LeaseView> {
    if new.resource_version == stored.resource_version {
        Some(LeaseView { resource_version: Some(next), ..new })
    } else {
        None
    }
}

/// An elector for the Lease `target` that reads `stored` may set out to replace it
/// by `new`: to acquire it, to renew it, or to release it.
pub open spec fn may_send(target: LeaseTargetView, stored: LeaseView, new: LeaseView) -> bool {
    let sent = Request { target, call: Call::Replace(new) };
    ||| exists|identity: Seq<char>, default: Result<i32, ConfigError>, now: int|
        #[trigger] acquire_decision(identity, default, target, stored, now) == Step::<
            _,
            _,
            Result<bool, LeaseFailure<Seq<char>>>,
        >::Call(AcquireStage::Replacing, sent)
    ||| exists|identity: Seq<char>, default: Result<i32, ConfigError>, now: int|
        #[trigger] renew_decision(identity, default, target, stored, now) == Step::<
            _,
            _,
            Result<(), LeaseFailure<Seq<char>>>,
        >::Call(RenewStage::Replacing, sent)
    ||| exists|identity: Seq<char>|
        #[trigger] release_step(ReleaseStage::Reading, identity, target, Ok(stored)) == Step::<
            _,
            _,
            Result<(), LeaseFailure<Seq<char>>>,
        >::Call(ReleaseStage::Replacing, sent)
}

/// Of two electors that read the same stored Lease and both set out to replace
/// it, a store that guards replacements lets the first one in and refuses the
/// second.
pub proof fn law_guarded_replace_admits_one(
    target: LeaseTargetView,
    stored: LeaseView,
    first: LeaseView,
    second: LeaseView,
    next: Seq<char>,
    after: Seq<char>,
)
    requires
        may_send(target, stored, first),
        may_send(target, stored, second),
        stored.resource_version != Some(next),
    ensures
        guarded_replace(stored, first, next) == Some(
            LeaseView { resource_version: Some(next), ..first },
        ),
        guarded_replace(guarded_replace(stored, first, next)->0, second, after) is None,
{
    assert(untouched(first) == untouched(stored));
    assert(untouched(second) == untouched(stored));
}

/// Whoever got a Lease into the store keeps it until it expires: until then the
/// winner renews it, and every other elector leaves it alone.
pub proof fn law_winner_keeps_lease(
    target: LeaseTargetView,
    stored: LeaseView,
    winner: Seq<char>,
    other: Seq<char>,
    seconds: i32,
    default_other: i32,
    now: int,
    later: int,
    next: Seq<char>,
)
    requires
        other != winner,
        stored.acquirable(seconds, winner, now),
        in_range(expiry(now, stored.duration_or(seconds))),
        later <= expiry(now, stored.duration_or(seconds)),
    ensures
        acquire_decision(winner, Ok(seconds), target, stored, now) matches Step::Call(
            AcquireStage::Replacing,
            Request { call: Call::Replace(new), .. },
        ) && guarded_replace(stored, new, next) matches Some(taken) && {
            &&& renew_decision(winner, Ok(seconds), target, taken, later) == Step::<
                _,
                _,
                Result<(), LeaseFailure<Seq<char>>>,
            >::Call(
                RenewStage::Replacing,
                Request { target, call: Call::Replace(taken.renewed(later)) },
            )
            &&& acquire_decision(other, Ok(default_other), target, taken, later) == Step::<
                AcquireStage,
                LeaseRequestView,
                _,
            >::Done(Ok::<bool, LeaseFailure<Seq<char>>>(false))
        },
{
}

/// Whoever loses the race for a replacement does not lead: an elector that
/// tried to take the Lease comes away without it, a leader that renewed it
/// steps down, and one that released it has nothing left to do.
pub proof fn law_losing_the_race(
    identity: Seq<char>,
    default: Result<i32, ConfigError>,
    target: LeaseTargetView,
    now: int,
)
    ensures
        ({
            let lost: Result<LeaseView, ApiFailure> = Err(ApiFailure::Status { code: CONFLICT });
            &&& acquire_step(
                AcquireStage::Replacing,
                identity,
                default,
                target,
                lost,
                now,
            ) == Step::<AcquireStage, LeaseRequestView, _>::Done(
                Ok::<bool, LeaseFailure<Seq<char>>>(false),
            )
            &&& renew_step(RenewStage::Replacing, identity, default, target, lost, now) == Step::<
                RenewStage,
                LeaseRequestView,
                _,
            >::Done(Err::<(), LeaseFailure<Seq<char>>>(LeaseFailure::RenewConflict))
            &&& release_step(ReleaseStage::Replacing, identity, target, lost) == Step::<
                ReleaseStage,
                LeaseRequestView,
                _,
            >::Done(Ok::<(), LeaseFailure<Seq<char>>>(()))
        }),
{
}

/// Where an elector stands that starts to take the Lease and gets `replies`,
/// each with the time at which it came.
pub open spec fn acquire_run(
    identity: Seq<char>,
    default: Result<i32, ConfigError>,
    target: LeaseTargetView,
    replies: Seq<(Result<LeaseView, ApiFailure>, int)>,
) -> Step<AcquireStage, LeaseRequestView, Result<bool, LeaseFailure<Seq<char>>>>
    decreases replies.len(),
{
    if replies.len() == 0 {
        acquire_start(target)
    } else {
        match acquire_run(identity, default, target, replies.drop_last()) {
            Step::Call(stage, _) => acquire_step(
                stage,
                identity,
                default,
                target,
                replies.last().0,
                replies.last().1,
            ),
            Step::Done(outcome) => Step::Done(outcome),
        }
    }
}

/// A Lease that does not exist is created, by whoever is first, and then taken
/// like any other that nobody holds.
pub proof fn law_missing_lease_is_created_and_taken(
    identity: Seq<char>,
    seconds: i32,
    target: LeaseTargetView,
    created: Result<LeaseView, ApiFailure>,
    read: LeaseView,
    stored: LeaseView,
    times: (int, int, int, int),
)
    requires
        created is Ok || created == Err::<LeaseView, ApiFailure>(
            ApiFailure::Status { code: CONFLICT },
        ),
        read.holder() is None,
    ensures
        ({
            let missing: Result<LeaseView, ApiFailure> = Err(
                ApiFailure::Status { code: NOT_FOUND },
            );
            let probed = seq![(missing, times.0)];
            let made = probed.push((created, times.1));
            let seen = made.push((Ok(read), times.2));
            let replaced = seen.push((Ok(stored), times.3));
            &&& acquire_run(identity, Ok(seconds), target, probed) == Step::<
                _,
                _,
                Result<bool, LeaseFailure<Seq<char>>>,
            >::Call(
                AcquireStage::Ensuring(EnsureStage::Creating),
                Request { target, call: Call::Create(LeaseView::named(target.name)) },
            )
            &&& acquire_run(identity, Ok(seconds), target, made) == Step::<
                _,
                LeaseRequestView,
                Result<bool, LeaseFailure<Seq<char>>>,
            >::Call(AcquireStage::Reading, Request { target, call: Call::Get })
            &&& acquire_run(identity, Ok(seconds), target, seen) == Step::<
                _,
                _,
                Result<bool, LeaseFailure<Seq<char>>>,
            >::Call(
                AcquireStage::Replacing,
                Request {
                    target,
                    call: Call::Replace(
                        read.acquired(identity, read.duration_or(seconds), times.2),
                    ),
                },
            )
            &&& acquire_run(identity, Ok(seconds), target, replaced) == Step::<
                AcquireStage,
                LeaseRequestView,
                _,
            >::Done(Ok::<bool, LeaseFailure<Seq<char>>>(true))
        }),
{
    let missing: Result<LeaseView, ApiFailure> = Err(ApiFailure::Status { code: NOT_FOUND });
    let probed = seq![(missing, times.0)];
    let made = probed.push((created, times.1));
    let seen = made.push((Ok(read), times.2));
    let replaced = seen.push((Ok(stored), times.3));
    assert(acquire_run(identity, Ok(seconds), target, probed.drop_last()) == acquire_start(target));
    assert(made.drop_last() =~= probed);
    assert(seen.drop_last() =~= made);
    assert(replaced.drop_last() =~= seen);
}

/// The reply with which an elector learns that it leads answers a replacement
/// that it made from the Lease of the reply before, which it could take then.
pub proof fn law_leadership_needs_accepted_replacement(
    identity: Seq<char>,
    seconds: i32,
    target: LeaseTargetView,
    replies: Seq<(Result<LeaseView, ApiFailure>, int)>,
)
    requires
        replies.len() > 0,
        acquire_run(identity, Ok(seconds), target, replies.drop_last()) is Call,
        acquire_run(identity, Ok(seconds), target, replies) == Step::<
            AcquireStage,
            LeaseRequestView,
            _,
        >::Done(Ok::<bool, LeaseFailure<Seq<char>>>(true)),
    ensures
        replies.len() >= 2,
        replies.last().0 is Ok,
        replies[replies.len() - 2].0 matches Ok(read) && {
            let now = replies[replies.len() - 2].1;
            &&& read.acquirable(seconds, identity, now)
            &&& acquire_run(identity, Ok(seconds), target, replies.drop_last())
                == Step::<_, _, Result<bool, LeaseFailure<Seq<char>>>>::Call(
                AcquireStage::Replacing,
                Request {
                    target,
                    call: Call::Replace(
                        read.acquired(identity, read.duration_or(seconds), now),
                    ),
                },
            )
        },
{
    let before = replies.drop_last();
    assert(acquire_run(identity, Ok(seconds), target, before)->Call_0
        == AcquireStage::Replacing);
    if before.len() > 0 {
        assert(before.last() == replies[replies.len() - 2]);
    }
}

/// An attempt to take the Lease is over after four replies at most.
pub proof fn law_acquire_ends(
    identity: Seq<char>,
    default: Result<i32, ConfigError>,
    target: LeaseTargetView,
    replies: Seq<(Result<LeaseView, ApiFailure>, int)>,
)
    ensures
        replies.len() >= 4 ==> acquire_run(identity, default, target, replies) is Done,
{
    lemma_acquire_progress(identity, default, target, replies);
}

/// How many replies an elector has had at least when it waits in `stage`.
spec fn replies_before(stage: AcquireStage) -> nat {
    match stage {
        AcquireStage::Ensuring(EnsureStage::Probing) => 0,
        AcquireStage::Ensuring(EnsureStage::Creating) => 1,
        AcquireStage::Reading => 2,
        AcquireStage::Replacing => 3,
    }
}

/// No stage is left for an earlier one.
proof fn lemma_acquire_progress(
    identity: Seq<char>,
    default: Result<i32, ConfigError>,
    target: LeaseTargetView,
    replies: Seq<(Result<LeaseView, ApiFailure>, int)>,
)
    ensures
        acquire_run(identity, default, target, replies) matches Step::Call(stage, _)
            ==> replies.len() <= replies_before(stage),
    decreases replies.len(),
{
    if replies.len() > 0 {
        lemma_acquire_progress(identity, default, target, replies.drop_last());
    }
}

/// A leader stays one only if its replacement was accepted.
pub proof fn law_renewal_needs_accepted_replacement(
    stage: RenewStage,
    identity: Seq<char>,
    default: Result<i32, ConfigError>,
    target: LeaseTargetView,
    reply: Result<LeaseView, ApiFailure>,
    now: int,
)
    requires
        renew_step(stage, identity, default, target, reply, now) == Step::<
            RenewStage,
            LeaseRequestView,
            _,
        >::Done(Ok::<(), LeaseFailure<Seq<char>>>(())),
    ensures
        stage == RenewStage::Replacing,
        reply is Ok,
{
}

/// A renewal is over after two replies at most.
pub proof fn law_renew_ends(
    identity: Seq<char>,
    default: Result<i32, ConfigError>,
    target: LeaseTargetView,
    first: (Result<LeaseView, ApiFailure>, int),
    second: (Result<LeaseView, ApiFailure>, int),
)
    ensures
        renew_start(target) matches Step::Call(start, _) && (renew_step(
            start,
            identity,
            default,
            target,
            first.0,
            first.1,
        ) matches Step::Call(stage, _) ==> renew_step(
            stage,
            identity,
            default,
            target,
            second.0,
            second.1,
        ) is Done),
{
}

/// A release is over after two replies at most.
pub proof fn law_release_ends(
    identity: Seq<char>,
    target: LeaseTargetView,
    first: Result<LeaseView, ApiFailure>,
    second: Result<LeaseView, ApiFailure>,
)
    ensures
        release_start(target) matches Step::Call(start, _) && (release_step(
            start,
            identity,
            target,
            first,
        ) matches Step::Call(stage, _) ==> release_step(stage, identity, target, second) is Done),
{
}

/// Every request that an elector makes to take, renew or release a Lease is about
/// that Lease, in its namespace and by its name; a Lease that it creates bears that
/// name.
pub proof fn law_requests_go_to_the_lease(
    identity: Seq<char>,
    default: Result<i32, ConfigError>,
    target: LeaseTargetView,
    stages: (AcquireStage, RenewStage, ReleaseStage),
    reply: Result<LeaseView, ApiFailure>,
    now: int,
)
    ensures
        acquire_start(target) matches Step::Call(_, request) && request.target == target,
        renew_start(target) matches Step::Call(_, request) && request.target == target,
        release_start(target) matches Step::Call(_, request) && request.target == target,
        acquire_step(stages.0, identity, default, target, reply, now) matches Step::Call(
            _,
            request,
        ) ==> request.target == target && (request.call matches Call::Create(new)
            ==> new.name == Some(target.name)),
        renew_step(stages.1, identity, default, target, reply, now) matches Step::Call(
            _,
            request,
        ) ==> request.target == target,
        release_step(stages.2, identity, target, reply) matches Step::Call(_, request)
            ==> request.target == target,
{
}

/// An elector with a valid configuration always knows how long a Lease lasts
/// that names no duration: one second or more.
pub proof fn law_valid_config_has_duration(config: K8sLeaseConfig)
    requires
        config.is_valid(),
    ensures
        default_seconds(config.lease_duration) matches Ok(seconds) && seconds >= 1,
{
}

/// A leader that renews after the configured period finds its Lease unexpired:
/// a Lease that named no duration, acquired at `now` under a valid configuration,
/// may still be renewed one renew period later, and so may it one renew period
/// after every renewal, if that period is no longer than the whole seconds of
/// the configured duration.
pub proof fn law_renew_period_is_in_time(
    config: K8sLeaseConfig,
    lease: LeaseView,
    now: int,
    renewal: int,
)
    requires
        config.is_valid(),
        config.renew_period@ <= whole_seconds(config.lease_duration) * NANOS_PER_SEC,
        lease.duration() is None,
        in_range(expiry(now, default_seconds(config.lease_duration)->Ok_0)),
        in_range(expiry(renewal, default_seconds(config.lease_duration)->Ok_0)),
    ensures
        ({
            let identity = config.identity@;
            let period = config.renew_period@;
            let seconds = default_seconds(config.lease_duration)->Ok_0;
            let taken = lease.acquired(identity, lease.duration_or(seconds), now);
            &&& taken.renewable(seconds, identity, now + period)
            &&& taken.renewed(renewal).renewable(seconds, identity, renewal + period)
        }),
{
}

/// Two roles never share a Lease.
pub proof fn law_roles_have_their_own_leases(
    lease_prefix: Seq<char>,
    role: Seq<char>,
    other: Seq<char>,
)
    requires
        role != other,
    ensures
        lease_name_text(lease_prefix, role) != lease_name_text(lease_prefix, other),
{
    let start = lease_prefix + "-"@;
    if start + role == start + other {
        assert(role =~= (start + role).skip(start.len() as int));
        assert(other =~= (start + other).skip(start.len() as int));
    }
}

/// A Lease renewed at `renewed` that lasts `seconds` seconds has expired exactly
/// from the nanosecond after its last second on, where that instant is supported;
/// where it is not, and where it was never renewed, it has expired at all times.
pub proof fn law_lease_lasts_its_seconds(renewed: int, seconds: i32, now: int)
    ensures
        -377_705_023_201_000_000_000 <= renewed + seconds * 1_000_000_000
            <= 253_402_207_200_999_999_999 ==> (is_expired(Some(renewed), seconds, now) <==> renewed
            + seconds * 1_000_000_000 < now),
        renewed + seconds * 1_000_000_000 < -377_705_023_201_000_000_000 ==> is_expired(
            Some(renewed),
            seconds,
            now,
        ),
        renewed + seconds * 1_000_000_000 > 253_402_207_200_999_999_999 ==> is_expired(
            Some(renewed),
            seconds,
            now,
        ),
        is_expired(None, seconds, now),
{
}

/// A Lease that nobody holds may be taken by anybody at all times, and a Lease that
/// the elector holds by the elector. One that another elector holds may be taken
/// exactly after it has lasted its seconds, or if it was never renewed.
pub proof fn law_who_may_take_a_lease(
    holder: Seq<char>,
    identity: Seq<char>,
    renewed: int,
    renew_time: Option<int>,
    seconds: i32,
    now: int,
)
    requires
        holder != identity,
    ensures
        may_acquire(None, renew_time, seconds, identity, now),
        may_acquire(Some(identity), renew_time, seconds, identity, now),
        may_acquire(Some(holder), None, seconds, identity, now),
        now > renewed + seconds * 1_000_000_000 ==> may_acquire(
            Some(holder),
            Some(renewed),
            seconds,
            identity,
            now,
        ),
        now <= renewed + seconds * 1_000_000_000 <= 253_402_207_200_999_999_999 && renewed + seconds
            * 1_000_000_000 >= -377_705_023_201_000_000_000 ==> !may_acquire(
            Some(holder),
            Some(renewed),
            seconds,
            identity,
            now,
        ),
        renewed + seconds * 1_000_000_000 > 253_402_207_200_999_999_999 ==> may_acquire(
            Some(holder),
            Some(renewed),
            seconds,
            identity,
            now,
        ),
        renewed + seconds * 1_000_000_000 < -377_705_023_201_000_000_000 ==> may_acquire(
            Some(holder),
            Some(renewed),
            seconds,
            identity,
            now,
        ),
{
}

/// `lease` names this holder, this renew time and this duration. One without a
/// specification names none of them.
pub open spec fn says(
    lease: LeaseView,
    holder: Option<Seq<char>>,
    renewed: Option<int>,
    seconds: Option<i32>,
) -> bool {
    match lease.spec {
        Some(spec) => {
            &&& spec.holder_identity == holder
            &&& spec.renew_time == renewed
            &&& spec.lease_duration_seconds == seconds
        },
        None => holder is None && renewed is None && seconds is None,
    }
}

/// A Lease that was renewed then and lasts `seconds` seconds is over at `now`: it
/// was never renewed, the end of its last second has passed, or that end is outside
/// of the years that instants can have.
pub open spec fn is_over(renewed: Option<int>, seconds: i32, now: int) -> bool {
    match renewed {
        Some(at) => {
            let end = at + seconds * 1_000_000_000;
            end < now || end < -377_705_023_201_000_000_000 || end > 253_402_207_200_999_999_999
        },
        None => true,
    }
}

/// `new` says all that `old` says, but for these values of holder, renew time and
/// duration.
pub open spec fn rewritten(
    old_lease: LeaseView,
    new: LeaseView,
    holder: Option<Seq<char>>,
    renewed: Option<int>,
    seconds: Option<i32>,
) -> bool {
    &&& new.name == old_lease.name
    &&& new.resource_version == old_lease.resource_version
    &&& new.rest == old_lease.rest
    &&& new.spec is Some
    &&& new.spec->0.holder_identity == holder
    &&& new.spec->0.renew_time == renewed
    &&& new.spec->0.lease_duration_seconds == seconds
    &&& match old_lease.spec {
        Some(spec) => {
            &&& new.spec->0.acquire_time == spec.acquire_time
            &&& new.spec->0.lease_transitions == spec.lease_transitions
            &&& new.spec->0.preferred_holder == spec.preferred_holder
            &&& new.spec->0.strategy == spec.strategy
        },
        None => {
            &&& new.spec->0.acquire_time is None
            &&& new.spec->0.lease_transitions is None
            &&& new.spec->0.preferred_holder is None
            &&& new.spec->0.strategy is None
        },
    }
}

/// What of a Lease is read, whether it may be taken or renewed, and what becomes of
/// it when it is acquired, renewed or released, all follow from its fields.
pub proof fn law_lease_is_what_its_fields_say(
    lease: LeaseView,
    holder: Option<Seq<char>>,
    renewed: Option<int>,
    own: Option<i32>,
    default: i32,
    identity: Seq<char>,
    now: int,
)
    requires
        says(lease, holder, renewed, own),
    ensures
        ({
            let seconds = if own is Some {
                own->0
            } else {
                default
            };
            let over = is_over(renewed, seconds, now);
            &&& lease.holder() == holder
            &&& lease.renew_time() == renewed
            &&& lease.duration() == own
            &&& lease.duration_or(default) == seconds
            &&& lease.expired(default, now) <==> over
            &&& lease.acquirable(default, identity, now) <==> holder is None || holder == Some(
                identity,
            ) || over
            &&& lease.renewable(default, identity, now) <==> holder == Some(identity) && !over
            &&& rewritten(
                lease,
                lease.acquired(identity, default, now),
                Some(identity),
                Some(now),
                Some(default),
            )
            &&& rewritten(lease, lease.renewed(now), holder, Some(now), own)
            &&& rewritten(lease, lease.released(), None, renewed, own)
        }),
{
}

/// A new Lease has its name, and nothing else.
pub proof fn law_new_lease_has_only_its_name(name: Seq<char>)
    ensures
        LeaseView::named(name).name == Some(name),
        LeaseView::named(name).resource_version is None,
        LeaseView::named(name).rest is None,
        LeaseView::named(name).spec is None,
{
}

/// Every procedure begins by asking for the Lease.
pub proof fn law_procedures_begin_with_a_get(target: LeaseTargetView)
    ensures
        acquire_start(target) matches Step::Call(
            AcquireStage::Ensuring(EnsureStage::Probing),
            Request { target: asked, call: Call::Get },
        ) && asked == target,
        renew_start(target) matches Step::Call(
            RenewStage::Reading,
            Request { target: asked, call: Call::Get },
        ) && asked == target,
        release_start(target) matches Step::Call(
            ReleaseStage::Reading,
            Request { target: asked, call: Call::Get },
        ) && asked == target,
{
}

/// A Lease that is found exists, whatever it says. One that is not found is created
/// with nothing but its name; it then exists, whoever created it. Every other failure
/// is reported, with the call that failed.
pub proof fn law_lease_is_made_to_exist(
    target: LeaseTargetView,
    found: LeaseView,
    failure: ApiFailure,
)
    ensures
        ensure_step(EnsureStage::Probing, target, Ok(found)) matches Step::Done(Ok(_)),
        ensure_step(EnsureStage::Creating, target, Ok(found)) matches Step::Done(Ok(_)),
        ensure_step(EnsureStage::Probing, target, Err(ApiFailure::Status { code: 404 })) matches
            Step::Call(EnsureStage::Creating, Request { target: asked, call: Call::Create(new) })
            && asked == target && new.name == Some(target.name) && new.resource_version is None
            && new.rest is None && new.spec is None,
        ensure_step(EnsureStage::Creating, target, Err(ApiFailure::Status { code: 409 })) matches
            Step::Done(Ok(_)),
        failure != (ApiFailure::Status { code: 404 }) ==> (ensure_step(
            EnsureStage::Probing,
            target,
            Err(failure),
        ) matches Step::Done(Err(LeaseFailure::GetBeforeCreate(cause))) && cause == failure),
        failure != (ApiFailure::Status { code: 409 }) ==> (ensure_step(
            EnsureStage::Creating,
            target,
            Err(failure),
        ) matches Step::Done(Err(LeaseFailure::Create(cause))) && cause == failure),
{
}

/// An elector that has found the Lease, created it, or lost the race to create it,
/// reads it next, whatever the reply said of it. A Lease that is missing is created;
/// any other failure ends the attempt with the call that failed.
pub proof fn law_existing_lease_is_read(
    identity: Seq<char>,
    default: Result<i32, ConfigError>,
    target: LeaseTargetView,
    found: LeaseView,
    failure: ApiFailure,
    now: int,
)
    ensures
        forall|ensuring: EnsureStage|
            #[trigger] acquire_step(
                AcquireStage::Ensuring(ensuring),
                identity,
                default,
                target,
                Ok(found),
                now,
            ) == Step::<_, LeaseRequestView, Result<bool, LeaseFailure<Seq<char>>>>::Call(
                AcquireStage::Reading,
                Request { target, call: Call::Get },
            ),
        acquire_step(
            AcquireStage::Ensuring(EnsureStage::Creating),
            identity,
            default,
            target,
            Err(ApiFailure::Status { code: 409 }),
            now,
        ) == Step::<_, LeaseRequestView, Result<bool, LeaseFailure<Seq<char>>>>::Call(
            AcquireStage::Reading,
            Request { target, call: Call::Get },
        ),
        acquire_step(
            AcquireStage::Ensuring(EnsureStage::Probing),
            identity,
            default,
            target,
            Err(ApiFailure::Status { code: 404 }),
            now,
        ) matches Step::Call(
            AcquireStage::Ensuring(EnsureStage::Creating),
            Request { target: asked, call: Call::Create(new) },
        ) && asked == target && new.name == Some(target.name) && new.resource_version is None
            && new.rest is None && new.spec is None,
        failure != (ApiFailure::Status { code: 404 }) ==> acquire_step(
            AcquireStage::Ensuring(EnsureStage::Probing),
            identity,
            default,
            target,
            Err(failure),
            now,
        ) == Step::<AcquireStage, LeaseRequestView, Result<bool, _>>::Done(
            Err(LeaseFailure::<Seq<char>>::GetBeforeCreate(failure)),
        ),
        failure != (ApiFailure::Status { code: 409 }) ==> acquire_step(
            AcquireStage::Ensuring(EnsureStage::Creating),
            identity,
            default,
            target,
            Err(failure),
            now,
        ) == Step::<AcquireStage, LeaseRequestView, Result<bool, _>>::Done(
            Err(LeaseFailure::<Seq<char>>::Create(failure)),
        ),
        acquire_step(AcquireStage::Reading, identity, default, target, Err(failure), now) == Step::<
            AcquireStage,
            LeaseRequestView,
            Result<bool, _>,
        >::Done(Err(LeaseFailure::<Seq<char>>::GetForAcquire(failure))),
{
}

/// An elector that reads a Lease which is free, its own, or over replaces it by one
/// that it holds from now on, for the duration that the Lease names or else for the
/// configured one. A Lease that another elector holds and that is not over stays as
/// it is, and the attempt ends without it.
pub proof fn law_elector_takes_what_it_may(
    identity: Seq<char>,
    default: i32,
    target: LeaseTargetView,
    lease: LeaseView,
    holder: Option<Seq<char>>,
    renewed: Option<int>,
    own: Option<i32>,
    now: int,
)
    requires
        says(lease, holder, renewed, own),
    ensures
        ({
            let seconds = if own is Some {
                own->0
            } else {
                default
            };
            let step = acquire_step(
                AcquireStage::Reading,
                identity,
                Ok(default),
                target,
                Ok(lease),
                now,
            );
            if holder is Some && holder != Some(identity) && !is_over(renewed, seconds, now) {
                step == Step::<AcquireStage, LeaseRequestView, _>::Done(
                    Ok::<bool, LeaseFailure<Seq<char>>>(false),
                )
            } else {
                step matches Step::Call(
                    AcquireStage::Replacing,
                    Request { target: asked, call: Call::Replace(new) },
                ) && asked == target && rewritten(
                    lease,
                    new,
                    Some(identity),
                    Some(now),
                    Some(seconds),
                )
            }
        }),
{
}

/// A configured duration that cannot be used ends an attempt on whatever Lease is
/// read, even one that names its own; and a renewal of whatever Lease the elector
/// holds.
pub proof fn law_unusable_duration_is_an_error(
    identity: Seq<char>,
    error: ConfigError,
    target: LeaseTargetView,
    lease: LeaseView,
    spec: LeaseSpecView,
    now: int,
)
    ensures
        acquire_step(AcquireStage::Reading, identity, Err(error), target, Ok(lease), now) == Step::<
            AcquireStage,
            LeaseRequestView,
            Result<bool, _>,
        >::Done(Err(LeaseFailure::<Seq<char>>::Config(error))),
        lease.spec == Some(spec) && spec.holder_identity == Some(identity) ==> renew_step(
            RenewStage::Reading,
            identity,
            Err(error),
            target,
            Ok(lease),
            now,
        ) == Step::<RenewStage, LeaseRequestView, Result<(), _>>::Done(
            Err(LeaseFailure::<Seq<char>>::Config(error)),
        ),
{
}

/// An accepted replacement takes the Lease, whatever the reply says of it. One that
/// lost a race leaves the elector without the Lease, and every other failure is
/// reported.
pub proof fn law_accepted_replacement_takes_the_lease(
    identity: Seq<char>,
    default: Result<i32, ConfigError>,
    target: LeaseTargetView,
    stored: LeaseView,
    failure: ApiFailure,
    now: int,
)
    ensures
        acquire_step(AcquireStage::Replacing, identity, default, target, Ok(stored), now)
            == Step::<AcquireStage, LeaseRequestView, _>::Done(
            Ok::<bool, LeaseFailure<Seq<char>>>(true),
        ),
        acquire_step(
            AcquireStage::Replacing,
            identity,
            default,
            target,
            Err(ApiFailure::Status { code: 409 }),
            now,
        ) == Step::<AcquireStage, LeaseRequestView, _>::Done(
            Ok::<bool, LeaseFailure<Seq<char>>>(false),
        ),
        failure != (ApiFailure::Status { code: 409 }) ==> acquire_step(
            AcquireStage::Replacing,
            identity,
            default,
            target,
            Err(failure),
            now,
        ) == Step::<AcquireStage, LeaseRequestView, Result<bool, _>>::Done(
            Err(LeaseFailure::<Seq<char>>::ReplaceToAcquire(failure)),
        ),
{
}

/// A Lease that exists is taken over: an elector that finds it, reads it, may take
/// what it read, and whose replacement is accepted, comes away with the Lease. What
/// the first reply and the last one say of the Lease does not matter.
pub proof fn law_existing_lease_is_taken_over(
    identity: Seq<char>,
    default: i32,
    target: LeaseTargetView,
    found: LeaseView,
    read: LeaseView,
    stored: LeaseView,
    holder: Option<Seq<char>>,
    renewed: Option<int>,
    own: Option<i32>,
    times: (int, int, int),
)
    requires
        says(read, holder, renewed, own),
        holder is None || holder == Some(identity) || is_over(
            renewed,
            if own is Some {
                own->0
            } else {
                default
            },
            times.1,
        ),
    ensures
        ({
            let seconds = if own is Some {
                own->0
            } else {
                default
            };
            let first: Seq<(Result<LeaseView, ApiFailure>, int)> = seq![(Ok(found), times.0)];
            let second = first.push((Ok(read), times.1));
            let third = second.push((Ok(stored), times.2));
            &&& acquire_run(identity, Ok(default), target, first) == Step::<
                _,
                LeaseRequestView,
                Result<bool, LeaseFailure<Seq<char>>>,
            >::Call(AcquireStage::Reading, Request { target, call: Call::Get })
            &&& (acquire_run(identity, Ok(default), target, second) matches Step::Call(
                AcquireStage::Replacing,
                Request { target: asked, call: Call::Replace(new) },
            ) && asked == target && rewritten(
                read,
                new,
                Some(identity),
                Some(times.1),
                Some(seconds),
            ))
            &&& acquire_run(identity, Ok(default), target, third) == Step::<
                AcquireStage,
                LeaseRequestView,
                _,
            >::Done(Ok::<bool, LeaseFailure<Seq<char>>>(true))
        }),
{
    let first: Seq<(Result<LeaseView, ApiFailure>, int)> = seq![(Ok(found), times.0)];
    let second = first.push((Ok(read), times.1));
    let third = second.push((Ok(stored), times.2));
    assert(acquire_run(identity, Ok(default), target, first.drop_last()) == acquire_start(target));
    assert(second.drop_last() =~= first);
    assert(third.drop_last() =~= second);
    law_elector_takes_what_it_may(
        identity,
        default,
        target,
        read,
        holder,
        renewed,
        own,
        times.1,
    );
}

/// A holder that reads the Lease it holds, before it is over, renews it: nothing but
/// the renew time changes. A Lease with another holder or none, and one that is over,
/// end leadership, and the error tells which.
pub proof fn law_holder_renews_what_it_holds(
    identity: Seq<char>,
    default: i32,
    target: LeaseTargetView,
    lease: LeaseView,
    holder: Option<Seq<char>>,
    renewed: Option<int>,
    own: Option<i32>,
    now: int,
)
    requires
        says(lease, holder, renewed, own),
    ensures
        ({
            let seconds = if own is Some {
                own->0
            } else {
                default
            };
            let step = renew_step(
                RenewStage::Reading,
                identity,
                Ok(default),
                target,
                Ok(lease),
                now,
            );
            if holder != Some(identity) {
                step == Step::<RenewStage, LeaseRequestView, Result<(), _>>::Done(
                    Err(LeaseFailure::HolderChanged(holder)),
                )
            } else if is_over(renewed, seconds, now) {
                step == Step::<RenewStage, LeaseRequestView, Result<(), _>>::Done(
                    Err(LeaseFailure::<Seq<char>>::ExpiredBeforeRenew),
                )
            } else {
                step matches Step::Call(
                    RenewStage::Replacing,
                    Request { target: asked, call: Call::Replace(new) },
                ) && asked == target && rewritten(lease, new, Some(identity), Some(now), own)
            }
        }),
{
}

/// A Lease with another holder or none ends leadership, even where the configured
/// duration cannot be used; so does a Lease that cannot be read.
pub proof fn law_lost_lease_ends_renewal(
    identity: Seq<char>,
    default: Result<i32, ConfigError>,
    target: LeaseTargetView,
    lease: LeaseView,
    holder: Option<Seq<char>>,
    renewed: Option<int>,
    own: Option<i32>,
    failure: ApiFailure,
    now: int,
)
    requires
        says(lease, holder, renewed, own),
        holder != Some(identity),
    ensures
        renew_step(RenewStage::Reading, identity, default, target, Ok(lease), now) == Step::<
            RenewStage,
            LeaseRequestView,
            Result<(), _>,
        >::Done(Err(LeaseFailure::HolderChanged(holder))),
        renew_step(RenewStage::Reading, identity, default, target, Err(failure), now) == Step::<
            RenewStage,
            LeaseRequestView,
            Result<(), _>,
        >::Done(Err(LeaseFailure::<Seq<char>>::GetForRenew(failure))),
{
}

/// An accepted replacement renews the Lease, whatever the reply says of it. One that
/// lost a race and every other failure end leadership.
pub proof fn law_accepted_replacement_renews(
    identity: Seq<char>,
    default: Result<i32, ConfigError>,
    target: LeaseTargetView,
    stored: LeaseView,
    failure: ApiFailure,
    now: int,
)
    ensures
        renew_step(RenewStage::Replacing, identity, default, target, Ok(stored), now) == Step::<
            RenewStage,
            LeaseRequestView,
            _,
        >::Done(Ok::<(), LeaseFailure<Seq<char>>>(())),
        renew_step(
            RenewStage::Replacing,
            identity,
            default,
            target,
            Err(ApiFailure::Status { code: 409 }),
            now,
        ) == Step::<RenewStage, LeaseRequestView, Result<(), _>>::Done(
            Err(LeaseFailure::<Seq<char>>::RenewConflict),
        ),
        failure != (ApiFailure::Status { code: 409 }) ==> renew_step(
            RenewStage::Replacing,
            identity,
            default,
            target,
            Err(failure),
            now,
        ) == Step::<RenewStage, LeaseRequestView, Result<(), _>>::Done(
            Err(LeaseFailure::<Seq<char>>::ReplaceToRenew(failure)),
        ),
{
}

/// A holder that reads the Lease it holds in time and whose replacement is accepted
/// stays leader.
pub proof fn law_renewal_in_time_succeeds(
    identity: Seq<char>,
    default: i32,
    target: LeaseTargetView,
    read: LeaseView,
    renewed: Option<int>,
    own: Option<i32>,
    stored: LeaseView,
    times: (int, int),
)
    requires
        says(read, Some(identity), renewed, own),
        !is_over(
            renewed,
            if own is Some {
                own->0
            } else {
                default
            },
            times.0,
        ),
    ensures
        renew_start(target) matches Step::Call(start, _) && (renew_step(
            start,
            identity,
            Ok(default),
            target,
            Ok(read),
            times.0,
        ) matches Step::Call(stage, _) && renew_step(
            stage,
            identity,
            Ok(default),
            target,
            Ok(stored),
            times.1,
        ) == Step::<RenewStage, LeaseRequestView, _>::Done(
            Ok::<(), LeaseFailure<Seq<char>>>(()),
        )),
{
    law_holder_renews_what_it_holds(
        identity,
        default,
        target,
        read,
        Some(identity),
        renewed,
        own,
        times.0,
    );
}

/// An elector that releases a Lease it holds takes its name out and changes nothing
/// else; a Lease with another holder or none it leaves alone. An accepted
/// replacement, and one that lost a race, end the release; every other failure is
/// reported.
pub proof fn law_holder_releases_what_it_holds(
    identity: Seq<char>,
    target: LeaseTargetView,
    lease: LeaseView,
    holder: Option<Seq<char>>,
    renewed: Option<int>,
    own: Option<i32>,
    stored: LeaseView,
    failure: ApiFailure,
)
    requires
        says(lease, holder, renewed, own),
    ensures
        holder == Some(identity) ==> (release_step(
            ReleaseStage::Reading,
            identity,
            target,
            Ok(lease),
        ) matches Step::Call(
            ReleaseStage::Replacing,
            Request { target: asked, call: Call::Replace(new) },
        ) && asked == target && rewritten(lease, new, None, renewed, own)),
        holder != Some(identity) ==> release_step(
            ReleaseStage::Reading,
            identity,
            target,
            Ok(lease),
        ) == Step::<ReleaseStage, LeaseRequestView, _>::Done(Ok::<(), LeaseFailure<Seq<char>>>(())),
        release_step(ReleaseStage::Reading, identity, target, Err(failure)) == Step::<
            ReleaseStage,
            LeaseRequestView,
            Result<(), _>,
        >::Done(Err(LeaseFailure::<Seq<char>>::GetForRelease(failure))),
        release_step(ReleaseStage::Replacing, identity, target, Ok(stored)) == Step::<
            ReleaseStage,
            LeaseRequestView,
            _,
        >::Done(Ok::<(), LeaseFailure<Seq<char>>>(())),
        release_step(
            ReleaseStage::Replacing,
            identity,
            target,
            Err(ApiFailure::Status { code: 409 }),
        ) == Step::<ReleaseStage, LeaseRequestView, _>::Done(Ok::<(), LeaseFailure<Seq<char>>>(())),
        failure != (ApiFailure::Status { code: 409 }) ==> release_step(
            ReleaseStage::Replacing,
            identity,
            target,
            Err(failure),
        ) == Step::<ReleaseStage, LeaseRequestView, Result<(), _>>::Done(
            Err(LeaseFailure::<Seq<char>>::ReplaceToRelease(failure)),
        ),
{
}

/// A Lease that its holder has released is taken by the next elector that reads it,
/// at any time.
pub proof fn law_released_lease_is_taken(
    identity: Seq<char>,
    other: Seq<char>,
    default: i32,
    target: LeaseTargetView,
    lease: LeaseView,
    renewed: Option<int>,
    own: Option<i32>,
    now: int,
)
    requires
        says(lease, Some(identity), renewed, own),
    ensures
        release_step(ReleaseStage::Reading, identity, target, Ok(lease)) matches Step::Call(
            _,
            Request { call: Call::Replace(free), .. },
        ) && (acquire_step(AcquireStage::Reading, other, Ok(default), target, Ok(free), now)
            matches Step::Call(_, Request { call: Call::Replace(taken), .. }) && says(
            taken,
            Some(other),
            Some(now),
            Some(
                if own is Some {
                    own->0
                } else {
                    default
                },
            ),
        )),
{
}

} // verus!
