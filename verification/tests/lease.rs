use k8s_lease::lease::{
    can_acquire_leadership, lease_expired, read_lease_state, Lease, LeaseMeta, LeaseSpec,
};
use k8s_lease::timestamp::{Timestamp, MAX_NANOSECOND};
use k8s_openapi::jiff;

fn instant(t: jiff::Timestamp) -> Timestamp {
    Timestamp::from_nanosecond(t.as_nanosecond()).unwrap()
}

fn at(seconds: i128) -> Timestamp {
    Timestamp::from_nanosecond(seconds * 1_000_000_000).unwrap()
}

fn full_lease() -> Lease {
    Lease {
        metadata: LeaseMeta {
            name: Some("chat-sweeper".to_string()),
            resource_version: Some("41".to_string()),
            rest: None,
        },
        spec: Some(LeaseSpec {
            acquire_time: Some(at(90)),
            holder_identity: Some("pod-b".to_string()),
            lease_duration_seconds: Some(20),
            lease_transitions: Some(3),
            preferred_holder: Some("pod-c".to_string()),
            renew_time: Some(at(100)),
            strategy: Some("OldestEmulationVersion".to_string()),
        }),
    }
}

#[test]
fn cannot_acquire_when_other_holder_is_still_fresh() {
    let now = jiff::Timestamp::now();
    let renew_time = now.checked_add(jiff::SignedDuration::from_secs(-3)).unwrap();

    let acquired = can_acquire_leadership(
        Some("pod-b"),
        Some(instant(renew_time)),
        15,
        "pod-a",
        instant(now),
    );

    assert!(!acquired);
}

#[test]
fn can_acquire_when_other_holder_is_expired() {
    let now = jiff::Timestamp::now();
    let renew_time = now.checked_add(jiff::SignedDuration::from_secs(-30)).unwrap();

    let acquired = can_acquire_leadership(
        Some("pod-b"),
        Some(instant(renew_time)),
        15,
        "pod-a",
        instant(now),
    );

    assert!(acquired);
}

#[test]
fn can_acquire_when_already_holder() {
    let now = jiff::Timestamp::now();
    let renew_time = now.checked_add(jiff::SignedDuration::from_secs(-3)).unwrap();

    let acquired = can_acquire_leadership(
        Some("pod-a"),
        Some(instant(renew_time)),
        15,
        "pod-a",
        instant(now),
    );

    assert!(acquired);
}

#[test]
fn can_acquire_when_nobody_holds_or_renewed() {
    assert!(can_acquire_leadership(None, Some(at(100)), 15, "pod-a", at(101)));
    assert!(can_acquire_leadership(Some("pod-b"), None, 15, "pod-a", at(101)));
    assert!(!can_acquire_leadership(Some("pod-"), Some(at(100)), 15, "pod-a", at(101)));
    assert!(!can_acquire_leadership(Some(""), Some(at(100)), 15, "pod-a", at(101)));
}

#[test]
fn a_lease_expires_after_its_last_nanosecond() {
    let renewed = at(100);
    let last = at(115);
    let past = Timestamp::from_nanosecond(115_000_000_001).unwrap();
    assert!(!lease_expired(Some(renewed), 15, last));
    assert!(lease_expired(Some(renewed), 15, past));
    assert!(!lease_expired(Some(renewed), 0, renewed));
    assert!(lease_expired(Some(renewed), -1, renewed));
    assert!(lease_expired(None, 15, renewed));
    let end_of_time = Timestamp::from_nanosecond(MAX_NANOSECOND).unwrap();
    assert!(lease_expired(Some(end_of_time), 1, at(0)));
}

#[test]
fn reads_the_state_of_a_lease() {
    let (holder, renew_time, duration) = read_lease_state(&full_lease());
    assert_eq!(holder.as_deref(), Some("pod-b"));
    assert_eq!(renew_time, Some(at(100)));
    assert_eq!(duration, Some(20));
    assert_eq!(read_lease_state(&Lease::named("chat-sweeper")), (None, None, None));
}

#[test]
fn an_acquired_lease_reads_back() {
    let lease = full_lease().acquired("pod-a", 15, at(200));
    assert_eq!(lease.metadata.name.as_deref(), Some("chat-sweeper"));
    assert_eq!(lease.metadata.resource_version.as_deref(), Some("41"));
    let (holder, renew_time, duration) = read_lease_state(&lease);
    assert_eq!(holder.as_deref(), Some("pod-a"));
    assert_eq!(renew_time, Some(at(200)));
    assert_eq!(duration, Some(15));
    let spec = lease.spec.unwrap();
    assert_eq!(spec.acquire_time, Some(at(90)));
    assert_eq!(spec.lease_transitions, Some(3));
    assert_eq!(spec.preferred_holder.as_deref(), Some("pod-c"));
    assert_eq!(spec.strategy.as_deref(), Some("OldestEmulationVersion"));
}

#[test]
fn a_renewed_lease_changes_only_its_time() {
    let lease = full_lease().renewed(at(110));
    let (holder, renew_time, duration) = read_lease_state(&lease);
    assert_eq!(holder.as_deref(), Some("pod-b"));
    assert_eq!(renew_time, Some(at(110)));
    assert_eq!(duration, Some(20));
    assert_eq!(lease.metadata.resource_version.as_deref(), Some("41"));
}

#[test]
fn a_released_lease_is_free() {
    let lease = full_lease().released();
    let (holder, renew_time, duration) = read_lease_state(&lease);
    assert_eq!(holder, None);
    assert_eq!(renew_time, Some(at(100)));
    assert_eq!(duration, Some(20));
    assert!(can_acquire_leadership(holder.as_deref(), renew_time, 20, "pod-a", at(101)));
}

#[test]
fn the_winner_keeps_the_lease_until_it_expires() {
    let lease = Lease::named("chat-sweeper").acquired("pod-a", 15, at(100));
    let (holder, renew_time, duration) = read_lease_state(&lease);
    let seconds = duration.unwrap();
    let free_for = |who: &str, now: Timestamp| {
        can_acquire_leadership(holder.as_deref(), renew_time, seconds, who, now)
    };
    assert!(!free_for("pod-b", at(115)));
    assert!(free_for("pod-a", at(115)));
    assert!(free_for("pod-b", at(116)));
}
