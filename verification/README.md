# k8s_lease

Leader election over a Kubernetes `coordination.k8s.io/v1` Lease, with its
decisions verified by Verus.

- `src/` is the verified library: the configuration, when a Lease may be taken,
  renewed or released, what is sent to the API server, how long to pause after
  a failure, and what a leader does with its work. It makes no call of the
  cluster: each step takes what came back and says what to do next.
- `app/` drives the library against a live cluster with `kube` and `tokio`.
- `tests/` runs the library on concrete values.

Outside code is trusted in these places: the sum of an instant and a number of
seconds (`jiff`), `str::trim`, and the `Debug` texts of a `std::time::Duration`
and of a `str`. `kube::Client` and the `ObjectMeta` of `k8s-openapi` are only
carried along.
