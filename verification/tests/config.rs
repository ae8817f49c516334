use k8s_lease::config::{
    below_one_second_message, config_to_text, lease_ref, not_longer_message, out_of_range_message,
    refusal_context, ConfigError, K8sLeaseConfig,
};
use k8s_lease::duration::Duration;

fn valid() -> K8sLeaseConfig {
    K8sLeaseConfig::from_env("mini-chat".to_string(), None, None)
}

#[test]
fn validate_rejects_subsecond_lease_duration() {
    let err = K8sLeaseConfig::from_env("mini-chat".to_string(), None, None)
        .with_timing(Duration::from_millis(500), Duration::from_millis(100))
        .validate()
        .unwrap_err();

    assert!(err.message().contains("at least 1 second"));
}

#[test]
fn validate_rejects_lease_duration_outside_k8s_range() {
    let err = K8sLeaseConfig::from_env("mini-chat".to_string(), None, None)
        .with_timing(Duration::from_secs(i32::MAX as u64 + 1), Duration::from_secs(1))
        .validate()
        .unwrap_err();

    assert!(err.message().contains("i32 seconds range"));
}

#[test]
fn from_env_uses_defaults() {
    let config = valid();
    assert_eq!(config.namespace, "default");
    assert_eq!(config.identity, "local");
    assert_eq!(config.lease_prefix, "mini-chat");
    assert_eq!(config.lease_duration, Duration::from_secs(15));
    assert_eq!(config.renew_period, Duration::from_secs(2));
    assert_eq!(config.validate(), Ok(()));
}

#[test]
fn from_env_uses_given_values() {
    let config = K8sLeaseConfig::from_env(
        "chat".to_string(),
        Some("prod".to_string()),
        Some("pod-7".to_string()),
    );
    assert_eq!(config.namespace, "prod");
    assert_eq!(config.identity, "pod-7");
    assert_eq!(config.lease_prefix, "chat");
}

#[test]
fn with_timing_changes_only_timing() {
    let config = valid().with_timing(Duration::from_secs(30), Duration::from_millis(2_500));
    assert_eq!(config.namespace, "default");
    assert_eq!(config.identity, "local");
    assert_eq!(config.lease_prefix, "mini-chat");
    assert_eq!(config.lease_duration, Duration::from_secs(30));
    assert_eq!(config.renew_period, Duration::new(2, 500_000_000));
}

#[test]
fn validate_reports_each_fault() {
    let mut config = valid();
    config.namespace = " \t\n".to_string();
    let err = config.validate().unwrap_err();
    assert_eq!(err, ConfigError::EmptyNamespace);
    assert_eq!(err.message(), "k8s leader: namespace must be non-empty");

    let mut config = valid();
    config.identity = String::new();
    let err = config.validate().unwrap_err();
    assert_eq!(err, ConfigError::EmptyIdentity);
    assert_eq!(err.message(), "k8s leader: identity must be non-empty");

    let mut config = valid();
    config.lease_prefix = "\u{3000}".to_string();
    let err = config.validate().unwrap_err();
    assert_eq!(err, ConfigError::EmptyLeasePrefix);
    assert_eq!(err.message(), "k8s leader: lease_prefix must be non-empty");

    let err = valid()
        .with_timing(Duration::from_secs(15), Duration::from_secs(0))
        .validate()
        .unwrap_err();
    assert_eq!(err, ConfigError::ZeroRenewPeriod);
    assert_eq!(err.message(), "k8s leader: renew_period must be > 0");

    let err = valid()
        .with_timing(Duration::from_millis(1_500), Duration::from_secs(2))
        .validate()
        .unwrap_err();
    assert_eq!(
        err.message(),
        "k8s leader: lease_duration (1.5s) must be > renew_period (2s)"
    );

    let err = valid()
        .with_timing(Duration::from_millis(500), Duration::from_millis(100))
        .validate()
        .unwrap_err();
    assert_eq!(
        err.message(),
        "k8s leader: lease_duration (500ms) must be at least 1 second"
    );

    let err = valid()
        .with_timing(Duration::from_secs(2_147_483_648), Duration::from_secs(1))
        .validate()
        .unwrap_err();
    assert_eq!(
        err.message(),
        "k8s leader: lease_duration (2147483648s) exceeds Kubernetes Lease i32 seconds range"
    );
}

#[test]
fn validate_reports_the_first_fault() {
    let mut config = valid().with_timing(Duration::from_secs(0), Duration::from_secs(0));
    config.namespace = String::new();
    config.identity = String::new();
    assert_eq!(config.validate(), Err(ConfigError::EmptyNamespace));
    config.namespace = "ns".to_string();
    assert_eq!(config.validate(), Err(ConfigError::EmptyIdentity));
    config.identity = "me".to_string();
    assert_eq!(config.validate(), Err(ConfigError::ZeroRenewPeriod));
}

#[test]
fn validate_accepts_the_bounds() {
    let longest = valid().with_timing(Duration::from_secs(2_147_483_647), Duration::from_secs(1));
    assert_eq!(longest.validate(), Ok(()));
    assert_eq!(longest.default_lease_duration_seconds(), Ok(2_147_483_647));

    let shortest = valid().with_timing(Duration::from_secs(1), Duration::from_millis(999));
    assert_eq!(shortest.validate(), Ok(()));
    assert_eq!(shortest.default_lease_duration_seconds(), Ok(1));
}

#[test]
fn a_name_is_blank_exactly_if_all_of_it_is_white_space() {
    let mut config = valid();
    for c in '\0'..=char::MAX {
        config.namespace = c.to_string();
        assert_eq!(config.validate().is_err(), c.is_whitespace(), "{c:?}");
    }
    for c in '\0'..=char::MAX {
        let listed = matches!(
            c,
            '\u{9}'..='\u{d}' | ' ' | '\u{85}' | '\u{a0}' | '\u{1680}' | '\u{2000}'..='\u{200a}'
                | '\u{2028}' | '\u{2029}' | '\u{202f}' | '\u{205f}' | '\u{3000}'
        );
        assert_eq!(c.is_whitespace(), listed, "{c:?}");
    }
    config.namespace = "  a  ".to_string();
    assert_eq!(config.validate(), Ok(()));
}

#[test]
fn default_lease_duration_is_cut_to_whole_seconds() {
    let config = valid().with_timing(Duration::from_millis(1_900), Duration::from_millis(1_500));
    assert_eq!(config.validate(), Ok(()));
    assert_eq!(config.default_lease_duration_seconds(), Ok(1));

    let config = valid().with_timing(Duration::from_secs(u64::MAX), Duration::from_secs(1));
    assert_eq!(
        config.default_lease_duration_seconds(),
        Err(ConfigError::LeaseOutOfRange { lease_duration: Duration::from_secs(u64::MAX) })
    );
}

#[test]
fn lease_names() {
    let config = valid();
    assert_eq!(config.lease_name("sweeper"), "mini-chat-sweeper");
    assert_ne!(config.lease_name("sweeper"), config.lease_name("indexer"));
    assert_eq!(lease_ref("prod", "mini-chat-sweeper"), "prod/mini-chat-sweeper");
}

#[test]
fn messages_hold_the_texts_of_the_spans() {
    assert_eq!(
        not_longer_message("1s", "2s"),
        "k8s leader: lease_duration (1s) must be > renew_period (2s)"
    );
    assert_eq!(
        below_one_second_message("5ms"),
        "k8s leader: lease_duration (5ms) must be at least 1 second"
    );
    assert_eq!(
        out_of_range_message("9s"),
        "k8s leader: lease_duration (9s) exceeds Kubernetes Lease i32 seconds range"
    );
}

#[test]
fn a_role_has_a_lease_in_the_namespace() {
    let config = K8sLeaseConfig::from_env("chat".to_string(), Some("prod".to_string()), None);
    let target = config.lease_target("sweeper");
    assert_eq!(target.namespace, "prod");
    assert_eq!(target.name, "chat-sweeper");
    let copy = target.clone();
    assert_eq!((copy.namespace, copy.name), (target.namespace, target.name));
}

#[test]
fn a_configuration_as_text() {
    assert_eq!(
        valid().to_text(),
        "K8sLeaseConfig { namespace: \"default\", identity: \"local\", \
         lease_prefix: \"mini-chat\", lease_duration: 15s, renew_period: 2s }"
    );
    let mut config = valid().with_timing(Duration::from_millis(1_500), Duration::from_millis(20));
    config.identity = "a\"b\n".to_string();
    assert_eq!(
        config.to_text(),
        "K8sLeaseConfig { namespace: \"default\", identity: \"a\\\"b\\n\", \
         lease_prefix: \"mini-chat\", lease_duration: 1.5s, renew_period: 20ms }"
    );
    assert_eq!(
        config_to_text("1", "2", "3", "4", "5"),
        "K8sLeaseConfig { namespace: 1, identity: 2, lease_prefix: 3, lease_duration: 4, \
         renew_period: 5 }"
    );
}

#[test]
fn a_refusal_names_its_fault() {
    assert_eq!(refusal_context(), "invalid k8s lease config");
    let mut config = valid();
    config.namespace = String::new();
    let refusal = config.validate().unwrap_err().refusal();
    assert_eq!(refusal.context, "invalid k8s lease config");
    assert_eq!(refusal.cause, ConfigError::EmptyNamespace);
    assert!(format!("{config:?}").starts_with("K8sLeaseConfig { namespace: \"\""));
}
