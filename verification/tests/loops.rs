use std::sync::atomic::{AtomicBool, Ordering};
use std::sync::Arc;

use k8s_lease::api::{ApiFailure, LeaseFailure};
use k8s_lease::config::{ConfigError, K8sLeaseConfig};
use k8s_lease::duration::Duration;
use k8s_lease::elector::K8sLeaseElector;
use k8s_lease::leader::{run_while_leader, LeaderEvent, LeaderStage};
use k8s_lease::role::{RoleEvent, RoleLoop, RoleStage};
use k8s_lease::work::{
    stop_with_timeout, timeout_millis, unexpected_exit, work_stop_timeout, Complaint, StopEvent,
    StopReport, StopStage, UnexpectedExit, WorkOutcome,
};
use tokio_util::sync::CancellationToken;

fn config() -> K8sLeaseConfig {
    K8sLeaseConfig::from_env("chat".to_string(), None, None)
}

fn runtime() -> tokio::runtime::Runtime {
    tokio::runtime::Builder::new_current_thread().enable_time().build().unwrap()
}

/// Stops the task as the stages of [`stop_with_timeout`] ask for.
async fn stop(
    child: CancellationToken,
    mut handle: tokio::task::JoinHandle<anyhow::Result<()>>,
    stop_timeout: Duration,
) -> StopReport {
    let outcome = |joined: Result<anyhow::Result<()>, tokio::task::JoinError>| match joined {
        Ok(Ok(())) => WorkOutcome::Completed,
        Ok(Err(_)) => WorkOutcome::Failed,
        Err(e) if e.is_cancelled() => WorkOutcome::Aborted,
        Err(_) => WorkOutcome::Panicked,
    };
    let mut stage = StopStage::start(stop_timeout);
    loop {
        let event = match stage {
            StopStage::Draining { timeout } => {
                child.cancel();
                let limit = std::time::Duration::new(timeout.as_secs(), timeout.subsec_nanos());
                match tokio::time::timeout(limit, &mut handle).await {
                    Ok(joined) => StopEvent::Joined(outcome(joined)),
                    Err(_) => StopEvent::TimedOut,
                }
            }
            StopStage::Aborting => {
                handle.abort();
                StopEvent::Joined(outcome((&mut handle).await))
            }
            StopStage::Ended(report) => return report,
        };
        stage = stop_with_timeout(stage, event);
    }
}

#[test]
fn stop_times_out_and_aborts_unresponsive_work() {
    runtime().block_on(async {
        let started = Arc::new(AtomicBool::new(false));
        let started_flag = Arc::clone(&started);
        let child = CancellationToken::new();
        let handle = tokio::spawn(async move {
            started_flag.store(true, Ordering::SeqCst);
            tokio::time::sleep(std::time::Duration::from_secs(60)).await;
            Ok::<(), anyhow::Error>(())
        });

        let begun = tokio::time::Instant::now();
        let report = stop(child, handle, Duration::from_millis(20)).await;

        assert!(started.load(Ordering::SeqCst));
        assert!(begun.elapsed() < std::time::Duration::from_secs(1));
        assert_eq!(report, StopReport { timed_out: true, complaint: None });
    });
}

#[test]
fn stop_waits_for_work_that_obeys() {
    runtime().block_on(async {
        let child = CancellationToken::new();
        let token = child.clone();
        let handle = tokio::spawn(async move {
            token.cancelled().await;
            Ok::<(), anyhow::Error>(())
        });
        let report = stop(child, handle, work_stop_timeout()).await;
        assert_eq!(report, StopReport { timed_out: false, complaint: None });
    });
}

#[test]
fn stop_reports_what_is_worth_a_warning() {
    let draining = StopStage::start(Duration::from_secs(1));
    assert_eq!(draining, StopStage::Draining { timeout: Duration::from_secs(1) });
    let aborting = stop_with_timeout(draining, StopEvent::TimedOut);
    assert_eq!(aborting, StopStage::Aborting);
    let cases = [
        (WorkOutcome::Completed, None, None),
        (WorkOutcome::Failed, Some(Complaint::Failed), Some(Complaint::Failed)),
        (WorkOutcome::Panicked, Some(Complaint::Panicked), Some(Complaint::Panicked)),
        (WorkOutcome::Aborted, Some(Complaint::Panicked), None),
    ];
    for (outcome, drained, aborted) in cases {
        let joined = StopEvent::Joined(outcome);
        let ended = stop_with_timeout(draining, joined);
        assert_eq!(
            ended,
            StopStage::Ended(StopReport { timed_out: false, complaint: drained })
        );
        assert_eq!(stop_with_timeout(ended, StopEvent::TimedOut), ended);
        assert_eq!(
            stop_with_timeout(aborting, joined),
            StopStage::Ended(StopReport { timed_out: true, complaint: aborted })
        );
    }
    assert_eq!(stop_with_timeout(aborting, StopEvent::TimedOut), aborting);
}

#[test]
fn timeouts_are_reported_in_milliseconds() {
    assert_eq!(work_stop_timeout(), Duration::from_secs(5));
    assert_eq!(timeout_millis(work_stop_timeout()), 5_000);
    assert_eq!(timeout_millis(Duration::new(1, 1_999_999)), 1_001);
    assert_eq!(timeout_millis(Duration::from_secs(u64::MAX)), u64::MAX);
}

#[test]
fn unexpected_exits() {
    assert_eq!(unexpected_exit(WorkOutcome::Completed), UnexpectedExit::Returned);
    assert_eq!(unexpected_exit(WorkOutcome::Failed), UnexpectedExit::Failed);
    assert_eq!(unexpected_exit(WorkOutcome::Panicked), UnexpectedExit::Panicked);
    assert_eq!(unexpected_exit(WorkOutcome::Aborted), UnexpectedExit::Panicked);
}

fn lead(events: Vec<LeaderEvent<String>>) -> LeaderStage<String> {
    let mut stage = LeaderStage::start();
    for event in events {
        stage = run_while_leader(stage, event, Duration::from_secs(2));
    }
    stage
}

#[test]
fn a_leader_starts_its_work_and_renews() {
    assert!(matches!(lead(vec![]), LeaderStage::Starting { .. }));
    match lead(vec![LeaderEvent::WorkStarted]) {
        LeaderStage::Waiting { period, .. } => assert_eq!(period, Duration::from_secs(2)),
        other => panic!("{other:?}"),
    }
    let stage = lead(vec![LeaderEvent::WorkStarted, LeaderEvent::Elapsed]);
    assert!(matches!(stage, LeaderStage::Renewing { .. }));
    let stage = lead(vec![
        LeaderEvent::WorkStarted,
        LeaderEvent::Elapsed,
        LeaderEvent::Renewed(Ok(())),
    ]);
    assert!(matches!(stage, LeaderStage::Checking { .. }));
    let stage = lead(vec![
        LeaderEvent::WorkStarted,
        LeaderEvent::Elapsed,
        LeaderEvent::Renewed(Ok(())),
        LeaderEvent::WorkRunning,
    ]);
    assert!(matches!(stage, LeaderStage::Waiting { .. }));
}

#[test]
fn a_leader_restarts_work_that_ended() {
    let events = || {
        vec![
            LeaderEvent::WorkStarted,
            LeaderEvent::Elapsed,
            LeaderEvent::Renewed(Ok(())),
            LeaderEvent::WorkFinished,
        ]
    };
    assert!(matches!(lead(events()), LeaderStage::Reaping { .. }));
    let mut more = events();
    more.push(LeaderEvent::WorkReaped);
    assert!(matches!(lead(more), LeaderStage::Starting { .. }));
}

#[test]
fn a_cancelled_leader_stops_its_work_and_releases() {
    let mut stage = lead(vec![LeaderEvent::WorkStarted, LeaderEvent::Cancelled]);
    assert!(matches!(stage, LeaderStage::StoppingToRelease { .. }));
    stage = run_while_leader(stage, LeaderEvent::WorkStopped, Duration::from_secs(2));
    assert!(matches!(stage, LeaderStage::Releasing));
    let failed = LeaderEvent::Released(Err(LeaseFailure::GetForRelease(ApiFailure::Other)));
    stage = run_while_leader(stage, failed, Duration::from_secs(2));
    assert!(matches!(stage, LeaderStage::Ended(Ok(()))));
}

#[test]
fn a_leader_that_cannot_renew_stops_its_work_and_fails() {
    let events = || {
        vec![
            LeaderEvent::WorkStarted,
            LeaderEvent::Elapsed,
            LeaderEvent::Renewed(Err(LeaseFailure::RenewConflict)),
        ]
    };
    assert!(matches!(
        lead(events()),
        LeaderStage::Stopping { error: LeaseFailure::RenewConflict, .. }
    ));
    let mut more = events();
    more.push(LeaderEvent::WorkStopped);
    assert!(matches!(lead(more), LeaderStage::Ended(Err(LeaseFailure::RenewConflict))));
}

#[test]
fn a_leader_ignores_what_it_does_not_wait_for() {
    let stage = lead(vec![LeaderEvent::Cancelled, LeaderEvent::Elapsed, LeaderEvent::WorkStopped]);
    assert!(matches!(stage, LeaderStage::Starting { .. }));
    let stage = lead(vec![LeaderEvent::WorkStarted, LeaderEvent::Elapsed, LeaderEvent::Cancelled]);
    assert!(matches!(stage, LeaderStage::Renewing { .. }));
}

#[test]
fn a_leader_never_runs_two_works() {
    let events = || {
        vec![
            LeaderEvent::Elapsed,
            LeaderEvent::WorkStarted,
            LeaderEvent::WorkStarted,
            LeaderEvent::Elapsed,
            LeaderEvent::Renewed(Ok(())),
            LeaderEvent::WorkStarted,
            LeaderEvent::WorkFinished,
            LeaderEvent::WorkReaped,
            LeaderEvent::WorkStarted,
            LeaderEvent::Cancelled,
            LeaderEvent::WorkStopped,
            LeaderEvent::Released(Ok(())),
        ]
    };
    let mut stage = LeaderStage::start();
    let (mut started, mut running): (u32, u32) = (0, 0);
    for event in events() {
        match (&stage, &event) {
            (LeaderStage::Starting { .. }, LeaderEvent::WorkStarted) => {
                assert_eq!(running, 0);
                started += 1;
                running += 1;
            }
            (LeaderStage::Reaping { .. }, LeaderEvent::WorkReaped)
            | (LeaderStage::StoppingToRelease { .. }, LeaderEvent::WorkStopped) => running -= 1,
            _ => {}
        }
        stage = run_while_leader(stage, event, Duration::from_secs(2));
        assert!(started > 0 || matches!(stage, LeaderStage::Starting { .. }));
    }
    assert!(matches!(stage, LeaderStage::Ended(Ok(()))));
    assert_eq!((started, running), (2, 0));
}

#[test]
fn each_start_of_the_work_has_its_own_token() {
    let mut stage = LeaderStage::start();
    let mut tokens = Vec::new();
    for _ in 0..3 {
        for event in [
            LeaderEvent::WorkStarted,
            LeaderEvent::Elapsed,
            LeaderEvent::Renewed(Ok(())),
            LeaderEvent::WorkFinished,
            LeaderEvent::WorkReaped,
        ] {
            if let (LeaderStage::Starting { token }, LeaderEvent::WorkStarted) = (&stage, &event) {
                assert!(!tokens.contains(token));
                tokens.push(*token);
            }
            stage = run_while_leader(stage, event, Duration::from_secs(2));
        }
    }
    assert_eq!(tokens, [0, 1, 2]);

    stage = run_while_leader(stage, LeaderEvent::WorkStarted, Duration::from_secs(2));
    stage = run_while_leader(stage, LeaderEvent::Cancelled, Duration::from_secs(2));
    assert!(matches!(stage, LeaderStage::StoppingToRelease { token: 3 }));

    let last = LeaderStage::Reaping { token: u64::MAX };
    let stage = run_while_leader(last, LeaderEvent::WorkReaped, Duration::from_secs(2));
    assert!(matches!(stage, LeaderStage::Starting { token: 0 }));
}

#[test]
fn a_cancelled_elector_reaches_the_work_only_through_the_leader() {
    let stage = LeaderStage::Renewing { token: 5 };
    let stage = run_while_leader(stage, LeaderEvent::Cancelled, Duration::from_secs(2));
    assert!(matches!(stage, LeaderStage::Renewing { token: 5 }));
    let stage = LeaderStage::Starting { token: 5 };
    let stage = run_while_leader(stage, LeaderEvent::Cancelled, Duration::from_secs(2));
    assert!(matches!(stage, LeaderStage::Starting { token: 5 }));
    let stage = run_while_leader(stage, LeaderEvent::WorkStarted, Duration::from_secs(2));
    let stage = run_while_leader(stage, LeaderEvent::Cancelled, Duration::from_secs(2));
    assert!(matches!(stage, LeaderStage::StoppingToRelease { token: 5 }));
    let failed = LeaderEvent::Renewed(Err(LeaseFailure::RenewConflict));
    let stage = LeaderStage::Renewing { token: 5 };
    let stage = run_while_leader(stage, failed, Duration::from_secs(2));
    assert!(matches!(stage, LeaderStage::Stopping { token: 5, .. }));
}

fn pause(role: &RoleLoop) -> Duration {
    match role.stage() {
        RoleStage::Pausing(pause) => pause,
        other => panic!("{other:?}"),
    }
}

fn unreachable_lease() -> RoleEvent {
    RoleEvent::Tried(Err(LeaseFailure::GetForAcquire(ApiFailure::Other)))
}

#[test]
fn an_elector_backs_off_from_failure_to_failure() {
    let period = Duration::from_secs(2);
    let mut role = RoleLoop::start(&config(), "sweeper");
    for millis in [200, 400, 800, 1_600, 3_200, 5_000, 5_000] {
        assert!(matches!(role.stage(), RoleStage::Acquiring));
        role.run_role(unreachable_lease(), period);
        assert_eq!(pause(&role), Duration::from_millis(millis));
        role.run_role(RoleEvent::Elapsed, period);
    }
    role.run_role(RoleEvent::Tried(Ok(true)), period);
    assert!(matches!(role.stage(), RoleStage::Leading));
    role.run_role(RoleEvent::Led(Err(LeaseFailure::RenewConflict)), period);
    role.run_role(unreachable_lease(), period);
    assert_eq!(pause(&role), Duration::from_millis(200));
}

#[test]
fn an_elector_waits_the_renew_period_for_a_held_lease() {
    let period = Duration::from_secs(2);
    let mut role = RoleLoop::start(&config(), "sweeper");
    role.run_role(unreachable_lease(), period);
    role.run_role(RoleEvent::Elapsed, period);
    role.run_role(RoleEvent::Tried(Ok(false)), period);
    assert_eq!(pause(&role), period);
    role.run_role(RoleEvent::Elapsed, period);
    role.run_role(unreachable_lease(), period);
    assert_eq!(pause(&role), Duration::from_millis(400));
}

#[test]
fn an_elector_stops_when_it_is_cancelled() {
    let period = Duration::from_secs(2);
    let mut role = RoleLoop::start(&config(), "sweeper");
    assert!(role.outcome().is_none());
    role.run_role(RoleEvent::Cancelled, period);
    assert!(matches!(role.stage(), RoleStage::Stopped));
    assert!(matches!(role.outcome(), Some(Ok(()))));
    role.run_role(RoleEvent::Tried(Ok(true)), period);
    assert!(matches!(role.stage(), RoleStage::Stopped));

    let mut role = RoleLoop::start(&config(), "sweeper");
    role.run_role(RoleEvent::Tried(Ok(false)), period);
    role.run_role(RoleEvent::Cancelled, period);
    assert!(matches!(role.stage(), RoleStage::Stopped));

    let mut role = RoleLoop::start(&config(), "sweeper");
    role.run_role(RoleEvent::Tried(Ok(true)), period);
    role.run_role(RoleEvent::Cancelled, period);
    assert!(matches!(role.stage(), RoleStage::Leading));
    role.run_role(RoleEvent::Led(Ok(())), period);
    assert!(matches!(role.stage(), RoleStage::Acquiring));
    role.run_role(RoleEvent::Cancelled, period);
    assert!(matches!(role.stage(), RoleStage::Stopped));
}

#[test]
fn an_elector_runs_for_the_lease_of_its_role() {
    let period = Duration::from_secs(2);
    let mut role = RoleLoop::start(&config(), "sweeper");
    for event in [
        unreachable_lease(),
        RoleEvent::Elapsed,
        RoleEvent::Tried(Ok(true)),
        RoleEvent::Led(Ok(())),
        RoleEvent::Cancelled,
    ] {
        assert_eq!(role.target().namespace, "default");
        assert_eq!(role.target().name, "chat-sweeper");
        role.run_role(event, period);
    }
    assert_eq!(role.target().name, "chat-sweeper");
}

#[test]
fn an_elector_leads_only_what_it_took() {
    let period = Duration::from_secs(2);
    let mut role = RoleLoop::start(&config(), "sweeper");
    for event in [RoleEvent::Led(Ok(())), RoleEvent::Tried(Ok(false)), RoleEvent::Tried(Ok(true))] {
        role.run_role(event, period);
        assert!(!matches!(role.stage(), RoleStage::Leading));
    }
    role.run_role(RoleEvent::Elapsed, period);
    role.run_role(RoleEvent::Tried(Ok(true)), period);
    assert!(matches!(role.stage(), RoleStage::Leading));
    role.run_role(RoleEvent::Led(Ok(())), period);
    assert!(matches!(role.stage(), RoleStage::Acquiring));
}

#[test]
fn an_elector_with_a_refused_configuration_never_runs() {
    let period = Duration::from_secs(0);
    let config = config().with_timing(Duration::from_secs(15), period);
    let mut role = RoleLoop::start(&config, "sweeper");
    for event in [RoleEvent::Tried(Ok(true)), RoleEvent::Cancelled, RoleEvent::Elapsed] {
        assert!(matches!(role.stage(), RoleStage::Refused(ConfigError::ZeroRenewPeriod)));
        role.run_role(event, period);
    }
    let refusal = role.outcome().unwrap().unwrap_err();
    assert_eq!(refusal.context, "invalid k8s lease config");
    assert_eq!(refusal.cause, ConfigError::ZeroRenewPeriod);
}

#[test]
fn an_elector_keeps_its_client_and_configuration() {
    let runtime = runtime();
    let _guard = runtime.enter();
    let mut cluster = kube::Config::new("http://localhost:1".parse().unwrap());
    cluster.default_namespace = "prod".to_string();
    let client = kube::Client::try_from(cluster).unwrap();
    let elector = K8sLeaseElector::with_client(client, config());
    assert_eq!(elector.client.default_namespace(), "prod");
    assert_eq!(elector.config.lease_prefix, "chat");
    assert_eq!(elector.config.renew_period, Duration::from_secs(2));
}
