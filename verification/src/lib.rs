//! Leader election over a Kubernetes `coordination.k8s.io/v1` Lease.
//!
//! Uses the same mechanism as `client-go` leader election: create or acquire a
//! Lease, renew it periodically, release it on shutdown.
//!
//! The crate decides; whoever drives it makes the calls of the Kubernetes API,
//! sleeps, and runs the work. [`role`] runs for leadership of a role, [`leader`]
//! leads it, and [`work`] ends what a leader has started. [`acquire`], [`renew`]
//! and [`release`] turn the replies of the API into the next call. They rest on
//! [`lease`], which says when a Lease may be taken and how it is rewritten, and
//! on the settings in [`config`]. What holds of electors that contend for one
//! Lease is proved in [`laws`].

pub mod acquire;
pub mod api;
pub mod backoff;
pub mod config;
pub mod duration;
pub mod elector;
pub mod laws;
pub mod leader;
pub mod lease;
pub mod release;
pub mod renew;
pub mod role;
pub mod text;
pub mod timestamp;
pub mod work;
