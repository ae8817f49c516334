//! The elector: a configuration and the client that reaches the cluster.

use vstd::prelude::*;

use crate::config::K8sLeaseConfig;

verus! {

/// `kube::Client`, carried along unread.
#[verifier::external_type_specification]
#[verifier::external_body]
pub struct ExClient(kube::Client);

/// Leader elector backed by a k8s `coordination.k8s.io/v1` Lease.
pub struct K8sLeaseElector {
    /// Client of the cluster that stores the Lease.
    pub client: kube::Client,
    /// Configuration of the election.
    pub config: K8sLeaseConfig,
}

impl K8sLeaseElector {
    /// Create an elector with an existing kube client.
    #[must_use]
    pub fn with_client(client: kube::Client, config: K8sLeaseConfig) -> (res: Self)
        ensures
            res.client == client,
            res.config == config,
    {
        K8sLeaseElector { client, config }
    }
}

} // verus!
