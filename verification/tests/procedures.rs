use k8s_lease::acquire::{try_acquire, AcquireStage, AcquireStep, EnsureStage};
use k8s_lease::api::{
    holder_to_text, some_to_text, ApiFailure, Call, LeaseError, LeaseFailure, LeaseRequest, Reply,
    Request, Step,
};
use k8s_lease::config::{ConfigError, K8sLeaseConfig, LeaseTarget};
use k8s_lease::duration::Duration;
use k8s_lease::lease::{read_lease_state, Lease, LeaseMeta};
use k8s_lease::release::{release_lease, ReleaseStage, ReleaseStep};
use k8s_lease::renew::{renew_once, RenewStage, RenewStep};
use k8s_lease::timestamp::Timestamp;
use k8s_openapi::apimachinery::pkg::apis::meta::v1::ObjectMeta;

const NAME: &str = "chat-sweeper";

fn config() -> K8sLeaseConfig {
    K8sLeaseConfig::from_env("chat".to_string(), Some("prod".to_string()), Some("pod-a".to_string()))
}

fn target() -> LeaseTarget {
    config().lease_target("sweeper")
}

fn at(seconds: i128) -> Timestamp {
    Timestamp::from_nanosecond(seconds * 1_000_000_000).unwrap()
}

fn status(code: u16) -> Reply {
    Err(ApiFailure::Status { code })
}

fn stored() -> Lease {
    Lease {
        metadata: LeaseMeta {
            name: Some(NAME.to_string()),
            resource_version: Some("41".to_string()),
            rest: None,
        },
        spec: None,
    }
}

fn acquire(stage: AcquireStage, reply: Reply) -> AcquireStep {
    try_acquire(stage, &config(), &target(), reply, at(100))
}

fn renew(stage: RenewStage, reply: Reply) -> RenewStep {
    renew_once(stage, &config(), &target(), reply, at(100))
}

fn release(stage: ReleaseStage, reply: Reply) -> ReleaseStep {
    release_lease(stage, "pod-a", &target(), reply)
}

fn message(error: &LeaseError) -> String {
    error.message("prod", NAME, "pod-a")
}

fn failure<S, T>(step: Step<S, LeaseRequest, Result<T, LeaseError>>) -> LeaseError {
    match step {
        Step::Done(Err(error)) => error,
        _ => panic!("no failure"),
    }
}

#[test]
fn a_missing_lease_is_created_and_taken() {
    let start = AcquireStage::start(&target());
    assert!(matches!(
        start,
        Step::Call(
            AcquireStage::Ensuring(EnsureStage::Probing),
            Request { call: Call::Get, .. }
        )
    ));

    match acquire(AcquireStage::Ensuring(EnsureStage::Probing), status(404)) {
        Step::Call(
            AcquireStage::Ensuring(EnsureStage::Creating),
            Request { call: Call::Create(lease), .. },
        ) => {
            assert_eq!(lease.metadata.name.as_deref(), Some(NAME));
            assert_eq!(lease.metadata.resource_version, None);
            assert!(lease.spec.is_none());
        }
        other => panic!("{other:?}"),
    }
    for created in [Ok(stored()), status(409)] {
        let step = acquire(AcquireStage::Ensuring(EnsureStage::Creating), created);
        assert!(matches!(step, Step::Call(AcquireStage::Reading, Request { call: Call::Get, .. })));
    }
    match acquire(AcquireStage::Reading, Ok(stored())) {
        Step::Call(AcquireStage::Replacing, Request { call: Call::Replace(lease), .. }) => {
            assert_eq!(lease.metadata.resource_version.as_deref(), Some("41"));
            let spec = lease.spec.unwrap();
            assert_eq!(spec.holder_identity.as_deref(), Some("pod-a"));
            assert_eq!(spec.lease_duration_seconds, Some(15));
            assert_eq!(spec.renew_time, Some(at(100)));
        }
        other => panic!("{other:?}"),
    }
    let step = acquire(AcquireStage::Replacing, Ok(stored()));
    assert!(matches!(step, Step::Done(Ok(true))));
}

#[test]
fn an_existing_lease_is_not_created() {
    let step = acquire(AcquireStage::Ensuring(EnsureStage::Probing), Ok(stored()));
    assert!(matches!(step, Step::Call(AcquireStage::Reading, Request { call: Call::Get, .. })));
}

#[test]
fn a_lease_keeps_its_own_duration() {
    let mut lease = stored().acquired("pod-b", 7, at(50));
    lease.metadata.resource_version = Some("42".to_string());
    match acquire(AcquireStage::Reading, Ok(lease)) {
        Step::Call(_, Request { call: Call::Replace(lease), .. }) => {
            assert_eq!(lease.metadata.resource_version.as_deref(), Some("42"));
            assert_eq!(lease.spec.unwrap().lease_duration_seconds, Some(7));
        }
        other => panic!("{other:?}"),
    }
}

#[test]
fn a_fresh_lease_of_another_elector_is_left_alone() {
    let step = acquire(AcquireStage::Reading, Ok(stored().acquired("pod-b", 15, at(85))));
    assert!(matches!(step, Step::Done(Ok(false))));
    let step = acquire(AcquireStage::Reading, Ok(stored().acquired("pod-b", 15, at(84))));
    assert!(matches!(
        step,
        Step::Call(AcquireStage::Replacing, Request { call: Call::Replace(_), .. })
    ));
    let step = acquire(AcquireStage::Reading, Ok(stored().acquired("pod-a", 15, at(99))));
    assert!(matches!(
        step,
        Step::Call(AcquireStage::Replacing, Request { call: Call::Replace(_), .. })
    ));
}

#[test]
fn a_lost_race_for_the_lease_is_no_failure() {
    assert!(matches!(acquire(AcquireStage::Replacing, status(409)), Step::Done(Ok(false))));
    assert!(matches!(release(ReleaseStage::Replacing, status(409)), Step::Done(Ok(()))));
    let error = failure(renew(RenewStage::Replacing, status(409)));
    assert_eq!(message(&error), "renew conflict");
}

#[test]
fn acquire_failures() {
    let error = failure(acquire(AcquireStage::Ensuring(EnsureStage::Probing), status(500)));
    assert!(matches!(error, LeaseFailure::GetBeforeCreate(ApiFailure::Status { code: 500 })));
    assert_eq!(message(&error), "get Lease prod/chat-sweeper before create");

    let error = failure(acquire(AcquireStage::Ensuring(EnsureStage::Probing), status(409)));
    assert!(matches!(error, LeaseFailure::GetBeforeCreate(ApiFailure::Status { code: 409 })));

    let error = failure(acquire(AcquireStage::Ensuring(EnsureStage::Creating), status(404)));
    assert!(matches!(error, LeaseFailure::Create(ApiFailure::Status { code: 404 })));
    assert_eq!(message(&error), "create Lease prod/chat-sweeper");

    let error = failure(acquire(AcquireStage::Reading, status(404)));
    assert!(matches!(error, LeaseFailure::GetForAcquire(ApiFailure::Status { code: 404 })));
    assert_eq!(message(&error), "get Lease prod/chat-sweeper for acquire");

    let error = failure(acquire(AcquireStage::Replacing, Err(ApiFailure::Other)));
    assert!(matches!(error, LeaseFailure::ReplaceToAcquire(ApiFailure::Other)));
    assert_eq!(
        message(&error),
        "replace Lease prod/chat-sweeper to acquire leadership for pod-a"
    );
}

#[test]
fn an_error_names_the_call_that_failed() {
    let error = failure(acquire(AcquireStage::Reading, status(503)));
    assert_eq!(error.cause(), Some(ApiFailure::Status { code: 503 }));
    let error = failure(renew(RenewStage::Replacing, Err(ApiFailure::Other)));
    assert_eq!(error.cause(), Some(ApiFailure::Other));
    let error = failure(renew(RenewStage::Replacing, status(409)));
    assert_eq!(error.cause(), None);
    let error = failure(renew(RenewStage::Reading, Ok(stored())));
    assert_eq!(error.cause(), None);
}

#[test]
fn a_duration_out_of_range_is_a_failure_even_if_the_lease_names_one() {
    let config = config().with_timing(Duration::from_secs(2_147_483_648), Duration::from_secs(1));
    let lease = || stored().acquired("pod-a", 15, at(99));
    let expected = ConfigError::LeaseOutOfRange { lease_duration: config.lease_duration };

    let step = try_acquire(AcquireStage::Reading, &config, &target(), Ok(lease()), at(100));
    match failure(step) {
        LeaseFailure::Config(error) => assert_eq!(error, expected),
        other => panic!("{other:?}"),
    }
    let error = failure(renew_once(RenewStage::Reading, &config, &target(), Ok(lease()), at(100)));
    assert_eq!(
        message(&error),
        "k8s leader: lease_duration (2147483648s) exceeds Kubernetes Lease i32 seconds range"
    );
}

#[test]
fn a_holder_renews_in_time() {
    assert!(matches!(
        RenewStage::start(&target()),
        Step::Call(RenewStage::Reading, Request { call: Call::Get, .. })
    ));
    match renew(RenewStage::Reading, Ok(stored().acquired("pod-a", 15, at(85)))) {
        Step::Call(RenewStage::Replacing, Request { call: Call::Replace(lease), .. }) => {
            assert_eq!(lease.metadata.resource_version.as_deref(), Some("41"));
            let spec = lease.spec.unwrap();
            assert_eq!(spec.holder_identity.as_deref(), Some("pod-a"));
            assert_eq!(spec.lease_duration_seconds, Some(15));
            assert_eq!(spec.renew_time, Some(at(100)));
        }
        other => panic!("{other:?}"),
    }
    assert!(matches!(renew(RenewStage::Replacing, Ok(stored())), Step::Done(Ok(()))));
}

#[test]
fn renew_failures() {
    let error = failure(renew(RenewStage::Reading, status(404)));
    assert!(matches!(error, LeaseFailure::GetForRenew(ApiFailure::Status { code: 404 })));
    assert_eq!(message(&error), "get Lease prod/chat-sweeper for renew");

    let error = failure(renew(RenewStage::Reading, Ok(stored().acquired("pod-b", 15, at(99)))));
    assert_eq!(message(&error), "lease holder changed to Some(\"pod-b\")");

    let error = failure(renew(RenewStage::Reading, Ok(stored())));
    assert_eq!(message(&error), "lease holder changed to None");

    let error = failure(renew(RenewStage::Reading, Ok(stored().acquired("pod-a", 15, at(84)))));
    assert!(matches!(error, LeaseFailure::ExpiredBeforeRenew));
    assert_eq!(message(&error), "lease expired before renew");

    let error = failure(renew(RenewStage::Replacing, status(500)));
    assert!(matches!(error, LeaseFailure::ReplaceToRenew(ApiFailure::Status { code: 500 })));
    assert_eq!(
        message(&error),
        "replace Lease prod/chat-sweeper to renew leadership for pod-a"
    );
}

#[test]
fn a_renew_period_within_a_cut_duration_can_come_too_late() {
    let config =
        config().with_timing(Duration::from_millis(1_900), Duration::from_millis(1_500));
    assert_eq!(config.validate(), Ok(()));
    let step = try_acquire(AcquireStage::Reading, &config, &target(), Ok(stored()), at(100));
    let lease = match step {
        Step::Call(_, Request { call: Call::Replace(lease), .. }) => lease,
        other => panic!("{other:?}"),
    };
    let later = Timestamp::from_nanosecond(101_500_000_000).unwrap();
    let error = failure(renew_once(RenewStage::Reading, &config, &target(), Ok(lease), later));
    assert!(matches!(error, LeaseFailure::ExpiredBeforeRenew));
}

#[test]
fn a_holder_releases_what_it_holds() {
    assert!(matches!(
        ReleaseStage::start(&target()),
        Step::Call(ReleaseStage::Reading, Request { call: Call::Get, .. })
    ));
    match release(ReleaseStage::Reading, Ok(stored().acquired("pod-a", 15, at(99)))) {
        Step::Call(ReleaseStage::Replacing, Request { call: Call::Replace(lease), .. }) => {
            assert_eq!(lease.metadata.resource_version.as_deref(), Some("41"));
            let spec = lease.spec.unwrap();
            assert_eq!(spec.holder_identity, None);
            assert_eq!(spec.renew_time, Some(at(99)));
        }
        other => panic!("{other:?}"),
    }
    assert!(matches!(release(ReleaseStage::Replacing, Ok(stored())), Step::Done(Ok(()))));
    let others = stored().acquired("pod-b", 15, at(99));
    assert!(matches!(release(ReleaseStage::Reading, Ok(others)), Step::Done(Ok(()))));
    assert!(matches!(release(ReleaseStage::Reading, Ok(stored())), Step::Done(Ok(()))));
}

#[test]
fn release_failures() {
    let error = failure(release(ReleaseStage::Reading, status(404)));
    assert!(matches!(error, LeaseFailure::GetForRelease(ApiFailure::Status { code: 404 })));
    assert_eq!(message(&error), "get lease chat-sweeper for release by pod-a");

    let error = failure(release(ReleaseStage::Replacing, Err(ApiFailure::Other)));
    assert!(matches!(error, LeaseFailure::ReplaceToRelease(ApiFailure::Other)));
    assert_eq!(
        message(&error),
        "replace lease chat-sweeper to release leadership for pod-a"
    );
}

/// A store that takes a replacement only if it names the stored version.
struct Store {
    lease: Lease,
    version: u32,
}

impl Store {
    fn get(&self) -> Lease {
        let (holder, renew_time, duration) = read_lease_state(&self.lease);
        let lease = match (holder, renew_time, duration) {
            (Some(holder), Some(time), Some(seconds)) => stored().acquired(&holder, seconds, time),
            _ => stored(),
        };
        Lease {
            metadata: LeaseMeta {
                resource_version: Some(self.version.to_string()),
                ..lease.metadata
            },
            ..lease
        }
    }

    fn replace(&mut self, new: Lease) -> Reply {
        if new.metadata.resource_version != Some(self.version.to_string()) {
            return status(409);
        }
        self.version += 1;
        self.lease = new;
        Ok(self.get())
    }
}

#[test]
fn a_guarded_store_admits_one_of_two_electors() {
    let mut store = Store { lease: stored(), version: 41 };
    let mut other = config();
    other.identity = "pod-b".to_string();
    let plan = |config: &K8sLeaseConfig, lease: Lease| {
        match try_acquire(AcquireStage::Reading, config, &target(), Ok(lease), at(100)) {
            Step::Call(_, Request { call: Call::Replace(new), .. }) => new,
            other => panic!("{other:?}"),
        }
    };
    let first = plan(&config(), store.get());
    let second = plan(&other, store.get());

    let reply = store.replace(first);
    assert!(matches!(acquire(AcquireStage::Replacing, reply), Step::Done(Ok(true))));
    let reply = store.replace(second);
    let step = try_acquire(AcquireStage::Replacing, &other, &target(), reply, at(100));
    assert!(matches!(step, Step::Done(Ok(false))));
    assert_eq!(store.lease.spec.unwrap().holder_identity.as_deref(), Some("pod-a"));
}

/// The Lease that a step asks about.
fn asked<S, T>(step: Step<S, LeaseRequest, T>) -> (String, String) {
    match step {
        Step::Call(_, request) => (request.target.namespace, request.target.name),
        Step::Done(_) => panic!("no request"),
    }
}

#[test]
fn every_request_is_about_the_lease_of_the_role() {
    let own = || ("prod".to_string(), NAME.to_string());
    assert_eq!(asked(AcquireStage::start(&target())), own());
    assert_eq!(asked(RenewStage::start(&target())), own());
    assert_eq!(asked(ReleaseStage::start(&target())), own());

    assert_eq!(asked(acquire(AcquireStage::Ensuring(EnsureStage::Probing), status(404))), own());
    assert_eq!(asked(acquire(AcquireStage::Ensuring(EnsureStage::Probing), Ok(stored()))), own());
    assert_eq!(asked(acquire(AcquireStage::Reading, Ok(stored()))), own());

    let mut misnamed = stored().acquired("pod-a", 15, at(99));
    misnamed.metadata.name = Some("chat-indexer".to_string());
    assert_eq!(asked(renew(RenewStage::Reading, Ok(misnamed))), own());
    let held = stored().acquired("pod-a", 15, at(99));
    assert_eq!(asked(release(ReleaseStage::Reading, Ok(held))), own());
}

#[test]
fn a_replacement_keeps_the_metadata_that_was_read() {
    let rest = || {
        let mut meta = ObjectMeta::default();
        meta.namespace = Some("prod".to_string());
        meta.uid = Some("8c1f".to_string());
        meta.finalizers = Some(vec!["example.com/guard".to_string()]);
        meta.labels.get_or_insert_with(Default::default).insert("team".into(), "chat".into());
        meta
    };
    let read = |holder: &str| {
        let mut lease = stored().acquired(holder, 15, at(90));
        lease.metadata.rest = Some(rest());
        lease
    };
    let sent = |call: Call<Lease>| match call {
        Call::Replace(lease) => lease.metadata,
        other => panic!("{other:?}"),
    };
    let free = Lease { spec: None, ..read("pod-b") };
    let mut replacements = Vec::new();
    match acquire(AcquireStage::Reading, Ok(free)) {
        Step::Call(_, request) => replacements.push(sent(request.call)),
        other => panic!("{other:?}"),
    }
    match renew(RenewStage::Reading, Ok(read("pod-a"))) {
        Step::Call(_, request) => replacements.push(sent(request.call)),
        other => panic!("{other:?}"),
    }
    match release(ReleaseStage::Reading, Ok(read("pod-a"))) {
        Step::Call(_, request) => replacements.push(sent(request.call)),
        other => panic!("{other:?}"),
    }
    assert_eq!(replacements.len(), 3);
    for metadata in replacements {
        assert_eq!(metadata.name.as_deref(), Some(NAME));
        assert_eq!(metadata.resource_version.as_deref(), Some("41"));
        assert_eq!(metadata.rest, Some(rest()));
    }
}

#[test]
fn holders_in_messages() {
    assert_eq!(some_to_text("pod-b"), "Some(pod-b)");
    assert_eq!(holder_to_text(&None), "None");
    assert_eq!(holder_to_text(&Some("pod-b".to_string())), "Some(\"pod-b\")");
    for holder in [None, Some("a \"b\"\n\\ \u{e9}\u{7f}'".to_string()), Some(String::new())] {
        assert_eq!(holder_to_text(&holder), format!("{holder:?}"));
    }
}
