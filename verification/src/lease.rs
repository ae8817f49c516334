//! The Lease object, when it may be taken over, and how it is rewritten.

use k8s_openapi::apimachinery::pkg::apis::meta::v1::ObjectMeta;
use vstd::prelude::*;

use crate::duration::NANOS_PER_SEC;
use crate::text::same_text;
use crate::timestamp::{in_range, Timestamp};

verus! {

/// `k8s_openapi`'s `ObjectMeta`, carried along unread.
#[verifier::external_type_specification]
#[verifier::external_body]
pub struct ExObjectMeta(ObjectMeta);

/// The metadata of a Lease.
#[derive(Debug)]
pub struct LeaseMeta {
    /// Name of the Lease object.
    pub name: Option<String>,
    /// Version of the object that was read. The API server refuses a
    /// replacement whose version is not the stored one.
    pub resource_version: Option<String>,
    /// All other metadata of the object that was read, such as its labels. Its
    /// own name and resource version are left blank.
    pub rest: Option<ObjectMeta>,
}

/// The specification of a Lease.
#[derive(Debug)]
pub struct LeaseSpec {
    /// When the current holder took the Lease.
    pub acquire_time: Option<Timestamp>,
    /// Identity of the current holder.
    pub holder_identity: Option<String>,
    /// Seconds that a Lease lasts after it was last renewed.
    pub lease_duration_seconds: Option<i32>,
    /// How often the Lease went from one holder to another.
    pub lease_transitions: Option<i32>,
    /// Identity of a better holder.
    pub preferred_holder: Option<String>,
    /// When the current holder last renewed the Lease.
    pub renew_time: Option<Timestamp>,
    /// Strategy of a coordinated election.
    pub strategy: Option<String>,
}

/// A Lease object.
#[derive(Debug)]
pub struct Lease {
    /// Metadata of the object.
    pub metadata: LeaseMeta,
    /// Specification of the object.
    pub spec: Option<LeaseSpec>,
}

/// What a [`LeaseSpec`] says.
pub struct LeaseSpecView {
    pub acquire_time: Option<int>,
    pub holder_identity: Option<Seq<char>>,
    pub lease_duration_seconds: Option<i32>,
    pub lease_transitions: Option<i32>,
    pub preferred_holder: Option<Seq<char>>,
    pub renew_time: Option<int>,
    pub strategy: Option<Seq<char>>,
}

/// What a [`Lease`] says.
pub struct LeaseView {
    pub name: Option<Seq<char>>,
    pub resource_version: Option<Seq<char>>,
    pub rest: Option<ObjectMeta>,
    pub spec: Option<LeaseSpecView>,
}

/// The characters of an optional text.
pub open spec fn opt_text(s: Option<String>) -> Option<Seq<char>> {
    match s {
        Some(text) => Some(text@),
        None => None,
    }
}

/// The nanoseconds of an optional instant.
pub open spec fn opt_nanos(t: Option<Timestamp>) -> Option<int> {
    match t {
        Some(instant) => Some(instant@),
        None => None,
    }
}

impl View for LeaseSpec {
    type V = LeaseSpecView;

    open spec fn view(&self) -> LeaseSpecView {
        LeaseSpecView {
            acquire_time: opt_nanos(self.acquire_time),
            holder_identity: opt_text(self.holder_identity),
            lease_duration_seconds: self.lease_duration_seconds,
            lease_transitions: self.lease_transitions,
            preferred_holder: opt_text(self.preferred_holder),
            renew_time: opt_nanos(self.renew_time),
            strategy: opt_text(self.strategy),
        }
    }
}

impl View for Lease {
    type V = LeaseView;

    open spec fn view(&self) -> LeaseView {
        LeaseView {
            name: opt_text(self.metadata.name),
            resource_version: opt_text(self.metadata.resource_version),
            rest: self.metadata.rest,
            spec: match self.spec {
                Some(spec) => Some(spec@),
                None => None,
            },
        }
    }
}

impl LeaseSpecView {
    /// A specification with nothing set.
    pub open spec fn empty() -> LeaseSpecView {
        LeaseSpecView {
            acquire_time: None,
            holder_identity: None,
            lease_duration_seconds: None,
            lease_transitions: None,
            preferred_holder: None,
            renew_time: None,
            strategy: None,
        }
    }
}

impl LeaseView {
    /// The specification; one with nothing set where there is none.
    pub open spec fn spec_or_empty(self) -> LeaseSpecView {
        match self.spec {
            Some(spec) => spec,
            None => LeaseSpecView::empty(),
        }
    }

    /// Identity of the holder.
    pub open spec fn holder(self) -> Option<Seq<char>> {
        self.spec_or_empty().holder_identity
    }

    /// When the Lease was last renewed.
    pub open spec fn renew_time(self) -> Option<int> {
        self.spec_or_empty().renew_time
    }

    /// Seconds that the Lease lasts, where it says so.
    pub open spec fn duration(self) -> Option<i32> {
        self.spec_or_empty().lease_duration_seconds
    }

    /// Seconds that the Lease lasts; `default` where it does not say so.
    pub open spec fn duration_or(self, default: i32) -> i32 {
        match self.duration() {
            Some(seconds) => seconds,
            None => default,
        }
    }

    /// The Lease has expired at `now`, if it lasts `default` seconds where it
    /// names no duration.
    pub open spec fn expired(self, default: i32, now: int) -> bool {
        is_expired(self.renew_time(), self.duration_or(default), now)
    }

    /// `identity` may take the Lease at `now`.
    pub open spec fn acquirable(self, default: i32, identity: Seq<char>, now: int) -> bool {
        may_acquire(
            self.holder(),
            self.renew_time(),
            self.duration_or(default),
            identity,
            now,
        )
    }

    /// `identity` may renew the Lease at `now`.
    pub open spec fn renewable(self, default: i32, identity: Seq<char>, now: int) -> bool {
        self.holder() == Some(identity) && !self.expired(default, now)
    }

    /// The Lease, held by `identity` for `seconds` seconds from `now` on.
    pub open spec fn acquired(self, identity: Seq<char>, seconds: i32, now: int) -> LeaseView {
        LeaseView {
            spec: Some(
                LeaseSpecView {
                    holder_identity: Some(identity),
                    lease_duration_seconds: Some(seconds),
                    renew_time: Some(now),
                    ..self.spec_or_empty()
                },
            ),
            ..self
        }
    }

    /// The Lease, renewed at `now`.
    pub open spec fn renewed(self, now: int) -> LeaseView {
        LeaseView {
            spec: Some(LeaseSpecView { renew_time: Some(now), ..self.spec_or_empty() }),
            ..self
        }
    }

    /// The Lease without a holder.
    pub open spec fn released(self) -> LeaseView {
        LeaseView {
            spec: Some(LeaseSpecView { holder_identity: None, ..self.spec_or_empty() }),
            ..self
        }
    }

    /// A Lease of which nothing but the name is set.
    pub open spec fn named(name: Seq<char>) -> LeaseView {
        LeaseView { name: Some(name), resource_version: None, rest: None, spec: None }
    }
}

/// The last nanosecond at which a Lease renewed at `renew_time` still holds, if
/// it lasts `seconds` seconds.
pub open spec fn expiry(renew_time: int, seconds: i32) -> int {
    renew_time + seconds * NANOS_PER_SEC
}

/// A Lease has expired at `now`: it was never renewed, its expiry is no
/// supported instant, or its expiry has passed.
pub open spec fn is_expired(renew_time: Option<int>, seconds: i32, now: int) -> bool {
    match renew_time {
        Some(at) => !in_range(expiry(at, seconds)) || expiry(at, seconds) < now,
        None => true,
    }
}

/// `identity` may take a Lease at `now`: it has expired, nobody holds it, or
/// `identity` does.
pub open spec fn may_acquire(
    holder: Option<Seq<char>>,
    renew_time: Option<int>,
    seconds: i32,
    identity: Seq<char>,
    now: int,
) -> bool {
    ||| is_expired(renew_time, seconds, now)
    ||| holder is None
    ||| holder == Some(identity)
}

/// The holder of a Lease, when it was last renewed, and how many seconds it
/// lasts.
pub fn read_lease_state(lease: &Lease) -> (res: (Option<String>, Option<Timestamp>, Option<i32>))
    ensures
        opt_text(res.0) == lease@.holder(),
        opt_nanos(res.1) == lease@.renew_time(),
        res.2 == lease@.duration(),
        lease.spec is None ==> res.0 is None && res.1 is None && res.2 is None,
        lease.spec matches Some(spec) ==> {
            &&& res.0 is Some <==> spec.holder_identity is Some
            &&& res.0 is Some ==> res.0->0@ == spec.holder_identity->0@
            &&& res.1 == spec.renew_time
            &&& res.2 == spec.lease_duration_seconds
        },
{
    match &lease.spec {
        Some(spec) => (spec.holder_identity.clone(), spec.renew_time, spec.lease_duration_seconds),
        None => (None, None, None),
    }
}

/// Whether `identity` may take a Lease at `now`.
pub fn can_acquire_leadership(
    holder: Option<&str>,
    renew_time: Option<Timestamp>,
    lease_duration_s: i32,
    identity: &str,
    now: Timestamp,
) -> (res: bool)
    ensures
        res == may_acquire(
            match holder {
                Some(h) => Some(h@),
                None => None,
            },
            opt_nanos(renew_time),
            lease_duration_s,
            identity@,
            now@,
        ),
        holder is None ==> res,
        holder matches Some(h) ==> h@ == identity@ ==> res,
        holder matches Some(h) ==> h@ != identity@ ==> res == is_expired(
            opt_nanos(renew_time),
            lease_duration_s,
            now@,
        ),
{
    let free_or_mine = match holder {
        Some(h) => same_text(h, identity),
        None => true,
    };
    lease_expired(renew_time, lease_duration_s, now) || free_or_mine
}

/// Whether a Lease that was last renewed at `renew_time` and lasts
/// `lease_duration_s` seconds has expired at `now`.
pub fn lease_expired(
    renew_time: Option<Timestamp>,
    lease_duration_s: i32,
    now: Timestamp,
) -> (res: bool)
    ensures
        res == is_expired(opt_nanos(renew_time), lease_duration_s, now@),
        renew_time is None ==> res,
        renew_time matches Some(at) ==> res == (at@ + lease_duration_s * 1_000_000_000 < now@
            || !in_range(at@ + lease_duration_s * 1_000_000_000)),
{
    match renew_time {
        Some(at) => match at.checked_add_seconds(lease_duration_s as i64) {
            Some(end) => end.is_before(&now),
            None => true,
        },
        None => true,
    }
}

impl LeaseSpec {
    /// A specification with nothing set.
    pub fn empty() -> (res: LeaseSpec)
        ensures
            res@ == LeaseSpecView::empty(),
    {
        LeaseSpec {
            acquire_time: None,
            holder_identity: None,
            lease_duration_seconds: None,
            lease_transitions: None,
            preferred_holder: None,
            renew_time: None,
            strategy: None,
        }
    }
}

impl Lease {
    /// A Lease of which nothing but the name is set.
    pub fn named(name: &str) -> (res: Lease)
        ensures
            res@ == LeaseView::named(name@),
    {
        Lease {
            metadata: LeaseMeta {
                name: Some(name.to_owned()),
                resource_version: None,
                rest: None,
            },
            spec: None,
        }
    }

    /// The metadata and the specification, with nothing set where there is none.
    fn into_parts(self) -> (res: (LeaseMeta, LeaseSpec))
        ensures
            res.0 == self.metadata,
            res.1@ == self@.spec_or_empty(),
    {
        let spec = match self.spec {
            Some(spec) => spec,
            None => LeaseSpec::empty(),
        };
        (self.metadata, spec)
    }

    /// The Lease, held by `identity` for `seconds` seconds from `now` on. The
    /// rest, the resource version above all, stays as it was read.
    pub fn acquired(self, identity: &str, seconds: i32, now: Timestamp) -> (res: Lease)
        ensures
            res@ == self@.acquired(identity@, seconds, now@),
    {
        let (metadata, spec) = self.into_parts();
        Lease {
            metadata,
            spec: Some(
                LeaseSpec {
                    holder_identity: Some(identity.to_owned()),
                    lease_duration_seconds: Some(seconds),
                    renew_time: Some(now),
                    ..spec
                },
            ),
        }
    }

    /// The Lease, renewed at `now`. The rest stays as it was read.
    pub fn renewed(self, now: Timestamp) -> (res: Lease)
        ensures
            res@ == self@.renewed(now@),
    {
        let (metadata, spec) = self.into_parts();
        Lease { metadata, spec: Some(LeaseSpec { renew_time: Some(now), ..spec }) }
    }

    /// The Lease without a holder. The rest stays as it was read.
    pub fn released(self) -> (res: Lease)
        ensures
            res@ == self@.released(),
    {
        let (metadata, spec) = self.into_parts();
        Lease { metadata, spec: Some(LeaseSpec { holder_identity: None, ..spec }) }
    }
}

/// What a Lease says is what its fields hold.
pub proof fn law_lease_view_shows_every_field(lease: Lease)
    ensures
        lease.metadata.name matches Some(name) ==> lease@.name == Some(name@),
        lease.metadata.name is None ==> lease@.name is None,
        lease.metadata.resource_version matches Some(version) ==> lease@.resource_version == Some(
            version@,
        ),
        lease.metadata.resource_version is None ==> lease@.resource_version is None,
        lease@.rest == lease.metadata.rest,
        lease.spec is None ==> lease@.spec is None,
        lease.spec matches Some(spec) ==> lease@.spec == Some(spec@),
{
}

/// What a specification says is what its fields hold.
pub proof fn law_spec_view_shows_every_field(spec: LeaseSpec)
    ensures
        spec.acquire_time matches Some(time) ==> spec@.acquire_time == Some(time@),
        spec.acquire_time is None ==> spec@.acquire_time is None,
        spec.holder_identity matches Some(holder) ==> spec@.holder_identity == Some(holder@),
        spec.holder_identity is None ==> spec@.holder_identity is None,
        spec@.lease_duration_seconds == spec.lease_duration_seconds,
        spec@.lease_transitions == spec.lease_transitions,
        spec.preferred_holder matches Some(holder) ==> spec@.preferred_holder == Some(holder@),
        spec.preferred_holder is None ==> spec@.preferred_holder is None,
        spec.renew_time matches Some(time) ==> spec@.renew_time == Some(time@),
        spec.renew_time is None ==> spec@.renew_time is None,
        spec.strategy matches Some(strategy) ==> spec@.strategy == Some(strategy@),
        spec.strategy is None ==> spec@.strategy is None,
{
}

} // verus!
