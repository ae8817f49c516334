//! What is asked of the Kubernetes API, what it answers, and how that can fail.

use vstd::prelude::*;

use crate::config::{
    law_lease_of_a_role, lease_ref, lease_ref_text, ConfigError, LeaseTarget, LeaseTargetView,
};
use crate::lease::{opt_text, Lease, LeaseView};
use crate::text::{debug_text, to_debug_text};

verus! {

/// HTTP status of a request for an object that does not exist.
pub const NOT_FOUND: u16 = 404;

/// HTTP status of a request that lost against another one.
pub const CONFLICT: u16 = 409;

/// Why a call of the API failed.
#[derive(Clone, Copy, Debug, PartialEq, Eq, Structural)]
pub enum ApiFailure {
    /// The API server answered with an error status.
    Status { code: u16 },
    /// There was no answer, or none that could be read.
    Other,
}

/// What a call of the API gives back: the Lease as it is stored, or why the
/// call failed.
pub type Reply = Result<Lease, ApiFailure>;

/// What is asked of the API, with Leases of type `L`.
#[derive(Debug)]
pub enum Call<L> {
    /// Read the Lease.
    Get,
    /// Create the Lease.
    Create(L),
    /// Replace the Lease, if the stored one still has the resource version that
    /// the replacement names.
    Replace(L),
}

/// A call of the API on the Lease object `target`.
#[derive(Debug)]
pub struct Request<T, L> {
    /// The Lease object that the call is about.
    pub target: T,
    /// What is asked.
    pub call: Call<L>,
}

/// A call of the API.
pub type LeaseRequest = Request<LeaseTarget, Lease>;

/// What a [`LeaseRequest`] says.
pub type LeaseRequestView = Request<LeaseTargetView, LeaseView>;

/// Where a procedure stands: it waits in stage `S` for the reply to a request
/// `R`, or it is done with outcome `T`.
#[derive(Debug)]
pub enum Step<S, R, T> {
    /// Make the request, then go on from the stage with its reply.
    Call(S, R),
    /// The procedure has ended.
    Done(T),
}

/// Why a procedure on a Lease failed, with the text type `S`.
#[derive(Debug)]
pub enum LeaseFailure<S> {
    /// Looking for the Lease failed.
    GetBeforeCreate(ApiFailure),
    /// Creating the Lease failed.
    Create(ApiFailure),
    /// Reading the Lease to acquire it failed.
    GetForAcquire(ApiFailure),
    /// Replacing the Lease to acquire it failed.
    ReplaceToAcquire(ApiFailure),
    /// Reading the Lease to renew it failed.
    GetForRenew(ApiFailure),
    /// Somebody else, or nobody, holds the Lease that was to be renewed.
    HolderChanged(Option<S>),
    /// The Lease that was to be renewed has expired.
    ExpiredBeforeRenew,
    /// The Lease was changed while it was renewed.
    RenewConflict,
    /// Replacing the Lease to renew it failed.
    ReplaceToRenew(ApiFailure),
    /// Reading the Lease to release it failed.
    GetForRelease(ApiFailure),
    /// Replacing the Lease to release it failed.
    ReplaceToRelease(ApiFailure),
    /// The configured duration of the Lease cannot be used.
    Config(ConfigError),
}

/// Why a procedure on a Lease failed.
pub type LeaseError = LeaseFailure<String>;

impl View for Call<Lease> {
    type V = Call<LeaseView>;

    open spec fn view(&self) -> Call<LeaseView> {
        match self {
            Call::Get => Call::Get,
            Call::Create(lease) => Call::Create(lease@),
            Call::Replace(lease) => Call::Replace(lease@),
        }
    }
}

impl View for Request<LeaseTarget, Lease> {
    type V = Request<LeaseTargetView, LeaseView>;

    open spec fn view(&self) -> Request<LeaseTargetView, LeaseView> {
        Request { target: self.target@, call: self.call@ }
    }
}

impl View for LeaseFailure<String> {
    type V = LeaseFailure<Seq<char>>;

    open spec fn view(&self) -> LeaseFailure<Seq<char>> {
        match *self {
            LeaseFailure::GetBeforeCreate(f) => LeaseFailure::GetBeforeCreate(f),
            LeaseFailure::Create(f) => LeaseFailure::Create(f),
            LeaseFailure::GetForAcquire(f) => LeaseFailure::GetForAcquire(f),
            LeaseFailure::ReplaceToAcquire(f) => LeaseFailure::ReplaceToAcquire(f),
            LeaseFailure::GetForRenew(f) => LeaseFailure::GetForRenew(f),
            LeaseFailure::HolderChanged(holder) => LeaseFailure::HolderChanged(opt_text(holder)),
            LeaseFailure::ExpiredBeforeRenew => LeaseFailure::ExpiredBeforeRenew,
            LeaseFailure::RenewConflict => LeaseFailure::RenewConflict,
            LeaseFailure::ReplaceToRenew(f) => LeaseFailure::ReplaceToRenew(f),
            LeaseFailure::GetForRelease(f) => LeaseFailure::GetForRelease(f),
            LeaseFailure::ReplaceToRelease(f) => LeaseFailure::ReplaceToRelease(f),
            LeaseFailure::Config(error) => LeaseFailure::Config(error),
        }
    }
}

/// The outcome of a procedure, its error by its view.
pub open spec fn outcome_view<T>(outcome: Result<T, LeaseError>) -> Result<
    T,
    LeaseFailure<Seq<char>>,
> {
    match outcome {
        Ok(value) => Ok(value),
        Err(error) => Err(error@),
    }
}

/// A reply, its Lease by its view.
pub open spec fn reply_view(reply: Reply) -> Result<LeaseView, ApiFailure> {
    match reply {
        Ok(lease) => Ok(lease@),
        Err(failure) => Err(failure),
    }
}

impl<S, T> View for Step<S, Request<LeaseTarget, Lease>, Result<T, LeaseFailure<String>>> {
    type V = Step<S, Request<LeaseTargetView, LeaseView>, Result<T, LeaseFailure<Seq<char>>>>;

    open spec fn view(&self) -> Step<
        S,
        Request<LeaseTargetView, LeaseView>,
        Result<T, LeaseFailure<Seq<char>>>,
    > {
        match *self {
            Step::Call(stage, request) => Step::Call(stage, request@),
            Step::Done(outcome) => Step::Done(outcome_view(outcome)),
        }
    }
}

/// Asks `call` about the Lease object `target`.
pub fn request(target: &LeaseTarget, call: Call<Lease>) -> (res: LeaseRequest)
    ensures
        res@ == (Request { target: target@, call: call@ }),
{
    Request { target: target.clone(), call }
}

/// What is said of a Lease that has another holder.
pub open spec fn holder_changed_text(holder: Seq<char>) -> Seq<char> {
    "lease holder changed to "@ + holder
}

/// The message about a Lease that has another holder, from the text of the
/// holder.
pub fn holder_changed_message(holder: &str) -> (res: String)
    ensures
        res@ == holder_changed_text(holder@),
{
    "lease holder changed to ".to_owned().concat(holder)
}

impl LeaseFailure<Seq<char>> {
    /// The failed call behind the error.
    pub open spec fn failed_call(self) -> Option<ApiFailure> {
        match self {
            LeaseFailure::GetBeforeCreate(failure)
            | LeaseFailure::Create(failure)
            | LeaseFailure::GetForAcquire(failure)
            | LeaseFailure::ReplaceToAcquire(failure)
            | LeaseFailure::GetForRenew(failure)
            | LeaseFailure::ReplaceToRenew(failure)
            | LeaseFailure::GetForRelease(failure)
            | LeaseFailure::ReplaceToRelease(failure) => Some(failure),
            _ => None,
        }
    }

    /// What the error says of the Lease `lease_name` in `namespace`, and of the
    /// elector `identity`.
    pub open spec fn text(
        self,
        namespace: Seq<char>,
        lease_name: Seq<char>,
        identity: Seq<char>,
    ) -> Seq<char> {
        let lease = lease_ref_text(namespace, lease_name);
        match self {
            LeaseFailure::GetBeforeCreate(_) => "get Lease "@ + lease + " before create"@,
            LeaseFailure::Create(_) => "create Lease "@ + lease,
            LeaseFailure::GetForAcquire(_) => "get Lease "@ + lease + " for acquire"@,
            LeaseFailure::ReplaceToAcquire(_) => {
                "replace Lease "@ + lease + " to acquire leadership for "@ + identity
            },
            LeaseFailure::GetForRenew(_) => "get Lease "@ + lease + " for renew"@,
            LeaseFailure::HolderChanged(holder) => {
                holder_changed_text(holder_text(holder))
            },
            LeaseFailure::ExpiredBeforeRenew => "lease expired before renew"@,
            LeaseFailure::RenewConflict => "renew conflict"@,
            LeaseFailure::ReplaceToRenew(_) => {
                "replace Lease "@ + lease + " to renew leadership for "@ + identity
            },
            LeaseFailure::GetForRelease(_) => {
                "get lease "@ + lease_name + " for release by "@ + identity
            },
            LeaseFailure::ReplaceToRelease(_) => {
                "replace lease "@ + lease_name + " to release leadership for "@ + identity
            },
            LeaseFailure::Config(error) => error.text(),
        }
    }
}

impl LeaseFailure<String> {
    /// The failed call behind the error, if it comes from one. That somebody
    /// else was faster to change the Lease is no such failure.
    pub fn cause(&self) -> (res: Option<ApiFailure>)
        ensures
            res == self@.failed_call(),
    {
        match *self {
            LeaseFailure::GetBeforeCreate(failure) => Some(failure),
            LeaseFailure::Create(failure) => Some(failure),
            LeaseFailure::GetForAcquire(failure) => Some(failure),
            LeaseFailure::ReplaceToAcquire(failure) => Some(failure),
            LeaseFailure::GetForRenew(failure) => Some(failure),
            LeaseFailure::ReplaceToRenew(failure) => Some(failure),
            LeaseFailure::GetForRelease(failure) => Some(failure),
            LeaseFailure::ReplaceToRelease(failure) => Some(failure),
            _ => None,
        }
    }

    /// The message of the error on the Lease `lease_name` in `namespace`, met by
    /// the elector `identity`.
    pub fn message(&self, namespace: &str, lease_name: &str, identity: &str) -> (res: String)
        ensures
            res@ == self@.text(namespace@, lease_name@, identity@),
    {
        let lease = lease_ref(namespace, lease_name);
        match self {
            LeaseFailure::GetBeforeCreate(_) => {
                "get Lease ".to_owned().concat(lease.as_str()).concat(" before create")
            },
            LeaseFailure::Create(_) => "create Lease ".to_owned().concat(lease.as_str()),
            LeaseFailure::GetForAcquire(_) => {
                "get Lease ".to_owned().concat(lease.as_str()).concat(" for acquire")
            },
            LeaseFailure::ReplaceToAcquire(_) => {
                "replace Lease ".to_owned().concat(lease.as_str()).concat(
                    " to acquire leadership for ",
                ).concat(identity)
            },
            LeaseFailure::GetForRenew(_) => {
                "get Lease ".to_owned().concat(lease.as_str()).concat(" for renew")
            },
            LeaseFailure::HolderChanged(holder) => {
                holder_changed_message(holder_to_text(holder).as_str())
            },
            LeaseFailure::ExpiredBeforeRenew => "lease expired before renew".to_owned(),
            LeaseFailure::RenewConflict => "renew conflict".to_owned(),
            LeaseFailure::ReplaceToRenew(_) => {
                "replace Lease ".to_owned().concat(lease.as_str()).concat(
                    " to renew leadership for ",
                ).concat(identity)
            },
            LeaseFailure::GetForRelease(_) => {
                "get lease ".to_owned().concat(lease_name).concat(" for release by ").concat(
                    identity,
                )
            },
            LeaseFailure::ReplaceToRelease(_) => {
                "replace lease ".to_owned().concat(lease_name).concat(
                    " to release leadership for ",
                ).concat(identity)
            },
            LeaseFailure::Config(error) => error.message(),
        }
    }
}

/// How a present value is written in messages, from its own text.
pub open spec fn some_text(inner: Seq<char>) -> Seq<char> {
    "Some("@ + inner + ")"@
}

/// A present value as it is written in messages, from its own text.
pub fn some_to_text(inner: &str) -> (res: String)
    ensures
        res@ == some_text(inner@),
{
    "Some(".to_owned().concat(inner).concat(")")
}

/// How an optional holder is written in messages.
pub open spec fn holder_text(holder: Option<Seq<char>>) -> Seq<char> {
    match holder {
        Some(identity) => some_text(debug_text(identity)),
        None => "None"@,
    }
}

/// The optional holder as it is written in messages.
pub fn holder_to_text(holder: &Option<String>) -> (res: String)
    ensures
        res@ == holder_text(opt_text(*holder)),
{
    match holder {
        Some(identity) => some_to_text(to_debug_text(identity.as_str()).as_str()),
        None => "None".to_owned(),
    }
}

/// What the errors of the procedures on a Lease say.
pub proof fn law_lease_error_texts(
    namespace: Seq<char>,
    lease_name: Seq<char>,
    identity: Seq<char>,
    failure: ApiFailure,
    holder: Seq<char>,
    error: ConfigError,
)
    ensures
        LeaseFailure::<Seq<char>>::GetBeforeCreate(failure).text(namespace, lease_name, identity)
            == "get Lease "@ + namespace + seq!['/'] + lease_name + " before create"@,
        LeaseFailure::<Seq<char>>::Create(failure).text(namespace, lease_name, identity)
            == "create Lease "@ + namespace + seq!['/'] + lease_name,
        LeaseFailure::<Seq<char>>::GetForAcquire(failure).text(namespace, lease_name, identity)
            == "get Lease "@ + namespace + seq!['/'] + lease_name + " for acquire"@,
        LeaseFailure::<Seq<char>>::ReplaceToAcquire(failure).text(namespace, lease_name, identity)
            == "replace Lease "@ + namespace + seq!['/'] + lease_name
            + " to acquire leadership for "@ + identity,
        LeaseFailure::<Seq<char>>::GetForRenew(failure).text(namespace, lease_name, identity)
            == "get Lease "@ + namespace + seq!['/'] + lease_name + " for renew"@,
        LeaseFailure::HolderChanged(Some(holder)).text(namespace, lease_name, identity)
            == "lease holder changed to "@ + "Some("@ + debug_text(holder) + ")"@,
        LeaseFailure::HolderChanged(None::<Seq<char>>).text(namespace, lease_name, identity)
            == "lease holder changed to "@ + "None"@,
        LeaseFailure::<Seq<char>>::ExpiredBeforeRenew.text(namespace, lease_name, identity)
            == "lease expired before renew"@,
        LeaseFailure::<Seq<char>>::RenewConflict.text(namespace, lease_name, identity)
            == "renew conflict"@,
        LeaseFailure::<Seq<char>>::ReplaceToRenew(failure).text(namespace, lease_name, identity)
            == "replace Lease "@ + namespace + seq!['/'] + lease_name
            + " to renew leadership for "@ + identity,
        LeaseFailure::<Seq<char>>::GetForRelease(failure).text(namespace, lease_name, identity)
            == "get lease "@ + lease_name + " for release by "@ + identity,
        LeaseFailure::<Seq<char>>::ReplaceToRelease(failure).text(namespace, lease_name, identity)
            == "replace lease "@ + lease_name + " to release leadership for "@ + identity,
        LeaseFailure::<Seq<char>>::Config(error).text(namespace, lease_name, identity)
            == error.text(),
{
    law_lease_of_a_role(namespace, lease_name, identity);
    law_lease_of_a_role(namespace, namespace, identity);
}

/// An error that comes from a failed call names the failure of that call; the
/// others name none.
pub proof fn law_error_names_its_cause(
    failure: ApiFailure,
    holder: Option<Seq<char>>,
    error: ConfigError,
)
    ensures
        LeaseFailure::<Seq<char>>::GetBeforeCreate(failure).failed_call() == Some(failure),
        LeaseFailure::<Seq<char>>::Create(failure).failed_call() == Some(failure),
        LeaseFailure::<Seq<char>>::GetForAcquire(failure).failed_call() == Some(failure),
        LeaseFailure::<Seq<char>>::ReplaceToAcquire(failure).failed_call() == Some(failure),
        LeaseFailure::<Seq<char>>::GetForRenew(failure).failed_call() == Some(failure),
        LeaseFailure::<Seq<char>>::ReplaceToRenew(failure).failed_call() == Some(failure),
        LeaseFailure::<Seq<char>>::GetForRelease(failure).failed_call() == Some(failure),
        LeaseFailure::<Seq<char>>::ReplaceToRelease(failure).failed_call() == Some(failure),
        LeaseFailure::HolderChanged(holder).failed_call() is None,
        LeaseFailure::<Seq<char>>::ExpiredBeforeRenew.failed_call() is None,
        LeaseFailure::<Seq<char>>::RenewConflict.failed_call() is None,
        LeaseFailure::<Seq<char>>::Config(error).failed_call() is None,
{
}

/// The view of an error keeps its kind and what it holds.
pub proof fn law_error_view_is_faithful(error: LeaseError)
    ensures
        match error {
            LeaseFailure::GetBeforeCreate(f) => error@ == LeaseFailure::<
                Seq<char>,
            >::GetBeforeCreate(f),
            LeaseFailure::Create(f) => error@ == LeaseFailure::<Seq<char>>::Create(f),
            LeaseFailure::GetForAcquire(f) => error@ == LeaseFailure::<Seq<char>>::GetForAcquire(
                f,
            ),
            LeaseFailure::ReplaceToAcquire(f) => error@ == LeaseFailure::<
                Seq<char>,
            >::ReplaceToAcquire(f),
            LeaseFailure::GetForRenew(f) => error@ == LeaseFailure::<Seq<char>>::GetForRenew(f),
            LeaseFailure::HolderChanged(Some(holder)) => error@ == LeaseFailure::HolderChanged(
                Some(holder@),
            ),
            LeaseFailure::HolderChanged(None) => error@ == LeaseFailure::HolderChanged(
                None::<Seq<char>>,
            ),
            LeaseFailure::ExpiredBeforeRenew => error@ == LeaseFailure::<
                Seq<char>,
            >::ExpiredBeforeRenew,
            LeaseFailure::RenewConflict => error@ == LeaseFailure::<Seq<char>>::RenewConflict,
            LeaseFailure::ReplaceToRenew(f) => error@ == LeaseFailure::<Seq<char>>::ReplaceToRenew(
                f,
            ),
            LeaseFailure::GetForRelease(f) => error@ == LeaseFailure::<Seq<char>>::GetForRelease(
                f,
            ),
            LeaseFailure::ReplaceToRelease(f) => error@ == LeaseFailure::<
                Seq<char>,
            >::ReplaceToRelease(f),
            LeaseFailure::Config(fault) => error@ == LeaseFailure::<Seq<char>>::Config(fault),
        },
{
}

/// The views of replies, outcomes and steps keep what they show.
pub proof fn law_step_view_is_faithful<S, T>(
    stage: S,
    request: LeaseRequest,
    value: T,
    error: LeaseError,
    lease: Lease,
    failure: ApiFailure,
)
    ensures
        reply_view(Ok(lease)) == Ok::<LeaseView, ApiFailure>(lease@),
        reply_view(Err(failure)) == Err::<LeaseView, ApiFailure>(failure),
        outcome_view(Ok::<T, LeaseError>(value)) == Ok::<T, LeaseFailure<Seq<char>>>(value),
        outcome_view(Err::<T, LeaseError>(error)) == Err::<T, LeaseFailure<Seq<char>>>(error@),
        Step::<S, LeaseRequest, Result<T, LeaseError>>::Call(stage, request)@ == Step::<
            S,
            LeaseRequestView,
            Result<T, LeaseFailure<Seq<char>>>,
        >::Call(stage, request@),
        Step::<S, LeaseRequest, Result<T, LeaseError>>::Done(Ok(value))@ == Step::<
            S,
            LeaseRequestView,
            Result<T, LeaseFailure<Seq<char>>>,
        >::Done(Ok(value)),
        Step::<S, LeaseRequest, Result<T, LeaseError>>::Done(Err(error))@ == Step::<
            S,
            LeaseRequestView,
            Result<T, LeaseFailure<Seq<char>>>,
        >::Done(Err(error@)),
        request@.target == request.target@,
        request.call is Get <==> request@.call is Get,
        request.call matches Call::Create(new) ==> request@.call == Call::Create(new@),
        request.call matches Call::Replace(new) ==> request@.call == Call::Replace(new@),
{
}

} // verus!
