//! Configuration of Lease-based leader election.

use vstd::prelude::*;

use crate::duration::{duration_debug_text, Duration, NANOS_PER_SEC};
use crate::text::{blank, debug_text, is_blank, is_white_space, to_debug_text};

verus! {

/// Configuration for k8s Lease-based leader election.
///
/// [`K8sLeaseConfig::to_text`] writes it with spans such as `15s`; its `Debug`
/// shows the fields of the spans.
#[derive(Clone, Debug)]
pub struct K8sLeaseConfig {
    /// Kubernetes namespace where the Lease object lives.
    pub namespace: String,
    /// Unique identity of this pod (typically `POD_NAME` from downward API).
    pub identity: String,
    /// Prefix for Lease object names: `"{lease_prefix}-{role}"`.
    pub lease_prefix: String,
    /// How long before a Lease is considered expired.
    pub lease_duration: Duration,
    /// How often the holder renews the Lease.
    pub renew_period: Duration,
}

/// Why a configuration is refused.
#[derive(Clone, Copy, Debug, PartialEq, Eq, Structural)]
pub enum ConfigError {
    /// The namespace is blank.
    EmptyNamespace,
    /// The identity is blank.
    EmptyIdentity,
    /// The prefix of the Lease names is blank.
    EmptyLeasePrefix,
    /// The holder would renew without pause.
    ZeroRenewPeriod,
    /// The Lease would expire before the holder renews it.
    LeaseNotLongerThanRenew { lease_duration: Duration, renew_period: Duration },
    /// The Lease lasts no whole second.
    LeaseBelowOneSecond { lease_duration: Duration },
    /// The whole seconds of the Lease do not fit in an `i32`.
    LeaseOutOfRange { lease_duration: Duration },
}

/// The value of an environment variable, or `default` where it is not set.
pub open spec fn value_or(value: Option<String>, default: Seq<char>) -> Seq<char> {
    match value {
        Some(v) => v@,
        None => default,
    }
}

/// The whole seconds of a span.
pub open spec fn whole_seconds(d: Duration) -> nat {
    d@ / NANOS_PER_SEC as nat
}

/// The `leaseDurationSeconds` of a Lease that names none, if it fits the field.
pub open spec fn default_seconds(lease_duration: Duration) -> Result<i32, ConfigError> {
    if whole_seconds(lease_duration) <= i32::MAX {
        Ok(whole_seconds(lease_duration) as i32)
    } else {
        Err(ConfigError::LeaseOutOfRange { lease_duration })
    }
}

impl K8sLeaseConfig {
    /// Build config from the values of environment variables, with sensible
    /// defaults: a Lease of 15 seconds, renewed every 2 seconds.
    ///
    /// - `pod_namespace`, the value of `POD_NAMESPACE` -> namespace (default: `"default"`)
    /// - `pod_name`, the value of `POD_NAME` -> identity (default: `"local"`)
    #[must_use]
    pub fn from_env(
        lease_prefix: String,
        pod_namespace: Option<String>,
        pod_name: Option<String>,
    ) -> (res: Self)
        ensures
            res.namespace@ == value_or(pod_namespace, "default"@),
            res.identity@ == value_or(pod_name, "local"@),
            pod_namespace matches Some(value) ==> res.namespace@ == value@,
            pod_namespace is None ==> res.namespace@ == "default"@,
            pod_name matches Some(value) ==> res.identity@ == value@,
            pod_name is None ==> res.identity@ == "local"@,
            res.lease_prefix@ == lease_prefix@,
            res.lease_duration@ == 15 * NANOS_PER_SEC,
            res.renew_period@ == 2 * NANOS_PER_SEC,
            pod_namespace is None && pod_name is None && !is_blank(lease_prefix@)
                ==> res.is_valid(),
    {
        proof {
            reveal_strlit("default");
            reveal_strlit("local");
            assert(!is_white_space("default"@[0]));
            assert(!is_white_space("local"@[0]));
        }
        K8sLeaseConfig {
            namespace: match pod_namespace {
                Some(value) => value,
                None => "default".to_owned(),
            },
            identity: match pod_name {
                Some(value) => value,
                None => "local".to_owned(),
            },
            lease_prefix,
            lease_duration: Duration::from_secs(15),
            renew_period: Duration::from_secs(2),
        }
    }

    /// Override timing parameters.
    #[must_use]
    pub fn with_timing(self, lease_duration: Duration, renew_period: Duration) -> (res: Self)
        ensures
            res == (K8sLeaseConfig { lease_duration, renew_period, ..self }),
    {
        K8sLeaseConfig { lease_duration, renew_period, ..self }
    }

    /// The configuration is fit for use.
    pub open spec fn is_valid(self) -> bool {
        &&& !is_blank(self.namespace@)
        &&& !is_blank(self.identity@)
        &&& !is_blank(self.lease_prefix@)
        &&& 0 < self.renew_period@ < self.lease_duration@
        &&& 1 <= whole_seconds(self.lease_duration) <= i32::MAX
    }

    /// The first thing that is wrong with the configuration, in the order in
    /// which the fields are looked at.
    pub open spec fn fault(self) -> Option<ConfigError> {
        let lease_duration = self.lease_duration;
        let renew_period = self.renew_period;
        if is_blank(self.namespace@) {
            Some(ConfigError::EmptyNamespace)
        } else if is_blank(self.identity@) {
            Some(ConfigError::EmptyIdentity)
        } else if is_blank(self.lease_prefix@) {
            Some(ConfigError::EmptyLeasePrefix)
        } else if renew_period@ == 0 {
            Some(ConfigError::ZeroRenewPeriod)
        } else if lease_duration@ <= renew_period@ {
            Some(ConfigError::LeaseNotLongerThanRenew { lease_duration, renew_period })
        } else if whole_seconds(lease_duration) == 0 {
            Some(ConfigError::LeaseBelowOneSecond { lease_duration })
        } else if whole_seconds(lease_duration) > i32::MAX {
            Some(ConfigError::LeaseOutOfRange { lease_duration })
        } else {
            None
        }
    }

    /// Validate config for safe operation.
    ///
    /// # Errors
    /// Returns an error when required invariants are violated.
    pub fn validate(&self) -> (res: Result<(), ConfigError>)
        ensures
            res is Ok <==> self.is_valid(),
            res == match self.fault() {
                Some(error) => Err(error),
                None => Ok(()),
            },
    {
        if blank(self.namespace.as_str()) {
            return Err(ConfigError::EmptyNamespace);
        }
        if blank(self.identity.as_str()) {
            return Err(ConfigError::EmptyIdentity);
        }
        if blank(self.lease_prefix.as_str()) {
            return Err(ConfigError::EmptyLeasePrefix);
        }
        if self.renew_period.is_zero() {
            return Err(ConfigError::ZeroRenewPeriod);
        }
        if self.lease_duration.at_most(&self.renew_period) {
            return Err(
                ConfigError::LeaseNotLongerThanRenew {
                    lease_duration: self.lease_duration,
                    renew_period: self.renew_period,
                },
            );
        }
        if self.lease_duration.as_secs() == 0 {
            return Err(ConfigError::LeaseBelowOneSecond { lease_duration: self.lease_duration });
        }
        match self.default_lease_duration_seconds() {
            Ok(_) => Ok(()),
            Err(error) => Err(error),
        }
    }

    /// The `leaseDurationSeconds` of a Lease that names none: the whole seconds
    /// of `lease_duration`.
    ///
    /// # Errors
    /// Returns an error when the seconds exceed the range of the Lease field.
    pub fn default_lease_duration_seconds(&self) -> (res: Result<i32, ConfigError>)
        ensures
            res == default_seconds(self.lease_duration),
    {
        let secs: u64 = self.lease_duration.as_secs();
        if secs <= i32::MAX as u64 {
            Ok(secs as i32)
        } else {
            Err(ConfigError::LeaseOutOfRange { lease_duration: self.lease_duration })
        }
    }

    /// The Lease object for `role`: in the configured namespace, under
    /// [`K8sLeaseConfig::lease_name`].
    pub fn lease_target(&self, role: &str) -> (res: LeaseTarget)
        ensures
            res@ == lease_target_of(self.namespace@, self.lease_prefix@, role@),
    {
        LeaseTarget { namespace: self.namespace.clone(), name: self.lease_name(role) }
    }

    /// What the configuration reads like in logs.
    pub open spec fn text(self) -> Seq<char> {
        config_text(
            debug_text(self.namespace@),
            debug_text(self.identity@),
            debug_text(self.lease_prefix@),
            self.lease_duration.text(),
            self.renew_period.text(),
        )
    }

    /// The configuration as it is written in logs, each field by its name.
    pub fn to_text(&self) -> (res: String)
        ensures
            res@ == self.text(),
    {
        config_to_text(
            to_debug_text(self.namespace.as_str()).as_str(),
            to_debug_text(self.identity.as_str()).as_str(),
            to_debug_text(self.lease_prefix.as_str()).as_str(),
            self.lease_duration.to_text().as_str(),
            self.renew_period.to_text().as_str(),
        )
    }

    /// The name of the Lease object for `role`: `"{lease_prefix}-{role}"`.
    pub fn lease_name(&self, role: &str) -> (res: String)
        ensures
            res@ == lease_name_text(self.lease_prefix@, role@),
    {
        self.lease_prefix.clone().concat("-").concat(role)
    }
}

/// Which Lease object a request is about.
#[derive(Debug)]
pub struct LeaseTarget {
    /// Namespace of the object.
    pub namespace: String,
    /// Name of the object.
    pub name: String,
}

/// What a [`LeaseTarget`] says.
pub struct LeaseTargetView {
    pub namespace: Seq<char>,
    pub name: Seq<char>,
}

impl View for LeaseTarget {
    type V = LeaseTargetView;

    open spec fn view(&self) -> LeaseTargetView {
        LeaseTargetView { namespace: self.namespace@, name: self.name@ }
    }
}

impl Clone for LeaseTarget {
    fn clone(&self) -> (res: Self)
        ensures
            res@ == self@,
    {
        LeaseTarget { namespace: self.namespace.clone(), name: self.name.clone() }
    }
}

/// The Lease object of a role.
pub open spec fn lease_target_of(
    namespace: Seq<char>,
    lease_prefix: Seq<char>,
    role: Seq<char>,
) -> LeaseTargetView {
    LeaseTargetView { namespace, name: lease_name_text(lease_prefix, role) }
}

/// What a configuration reads like, from the texts of its fields.
pub open spec fn config_text(
    namespace: Seq<char>,
    identity: Seq<char>,
    lease_prefix: Seq<char>,
    lease_duration: Seq<char>,
    renew_period: Seq<char>,
) -> Seq<char> {
    "K8sLeaseConfig { namespace: "@ + namespace + ", identity: "@ + identity + ", lease_prefix: "@
        + lease_prefix + ", lease_duration: "@ + lease_duration + ", renew_period: "@ + renew_period
        + " }"@
}

/// A configuration as it is written in logs, from the texts of its fields.
pub fn config_to_text(
    namespace: &str,
    identity: &str,
    lease_prefix: &str,
    lease_duration: &str,
    renew_period: &str,
) -> (res: String)
    ensures
        res@ == config_text(
            namespace@,
            identity@,
            lease_prefix@,
            lease_duration@,
            renew_period@,
        ),
{
    "K8sLeaseConfig { namespace: ".to_owned().concat(namespace).concat(", identity: ").concat(
        identity,
    ).concat(", lease_prefix: ").concat(lease_prefix).concat(", lease_duration: ").concat(
        lease_duration,
    ).concat(", renew_period: ").concat(renew_period).concat(" }")
}

/// The name of the Lease object of a role.
pub open spec fn lease_name_text(lease_prefix: Seq<char>, role: Seq<char>) -> Seq<char> {
    lease_prefix + "-"@ + role
}

/// Names a Lease in messages: `"{namespace}/{lease_name}"`.
pub fn lease_ref(namespace: &str, lease_name: &str) -> (res: String)
    ensures
        res@ == lease_ref_text(namespace@, lease_name@),
{
    namespace.to_owned().concat("/").concat(lease_name)
}

/// The text that names a Lease in messages.
pub open spec fn lease_ref_text(namespace: Seq<char>, lease_name: Seq<char>) -> Seq<char> {
    namespace + "/"@ + lease_name
}

/// What is said of a Lease that lasts no longer than the renew period.
pub open spec fn not_longer_text(lease_duration: Seq<char>, renew_period: Seq<char>) -> Seq<char> {
    "k8s leader: lease_duration ("@ + lease_duration + ") must be > renew_period ("@ + renew_period
        + ")"@
}

/// What is said of a Lease that lasts no whole second.
pub open spec fn below_one_second_text(lease_duration: Seq<char>) -> Seq<char> {
    "k8s leader: lease_duration ("@ + lease_duration + ") must be at least 1 second"@
}

/// What is said of a Lease whose seconds do not fit in an `i32`.
pub open spec fn out_of_range_text(lease_duration: Seq<char>) -> Seq<char> {
    "k8s leader: lease_duration ("@ + lease_duration
        + ") exceeds Kubernetes Lease i32 seconds range"@
}

/// The message about a Lease that lasts no longer than the renew period, from
/// the texts of the two spans.
pub fn not_longer_message(lease_duration: &str, renew_period: &str) -> (res: String)
    ensures
        res@ == not_longer_text(lease_duration@, renew_period@),
{
    "k8s leader: lease_duration (".to_owned().concat(lease_duration).concat(
        ") must be > renew_period (",
    ).concat(renew_period).concat(")")
}

/// The message about a Lease that lasts no whole second, from the text of the
/// span.
pub fn below_one_second_message(lease_duration: &str) -> (res: String)
    ensures
        res@ == below_one_second_text(lease_duration@),
{
    "k8s leader: lease_duration (".to_owned().concat(lease_duration).concat(
        ") must be at least 1 second",
    )
}

/// The message about a Lease whose seconds do not fit in an `i32`, from the text
/// of the span.
pub fn out_of_range_message(lease_duration: &str) -> (res: String)
    ensures
        res@ == out_of_range_text(lease_duration@),
{
    "k8s leader: lease_duration (".to_owned().concat(lease_duration).concat(
        ") exceeds Kubernetes Lease i32 seconds range",
    )
}

/// An elector's answer to a configuration that it refuses.
#[derive(Debug)]
pub struct Refusal {
    /// What the elector says.
    pub context: String,
    /// The fault behind it.
    pub cause: ConfigError,
}

/// What a [`Refusal`] says.
pub struct RefusalView {
    pub context: Seq<char>,
    pub cause: ConfigError,
}

impl View for Refusal {
    type V = RefusalView;

    open spec fn view(&self) -> RefusalView {
        RefusalView { context: self.context@, cause: self.cause }
    }
}

/// The answer to a configuration with the fault `cause`.
pub open spec fn refusal_of(cause: ConfigError) -> RefusalView {
    RefusalView { context: "invalid k8s lease config"@, cause }
}

/// What an elector says of a configuration that it refuses, before the fault.
pub fn refusal_context() -> (res: String)
    ensures
        res@ == "invalid k8s lease config"@,
{
    "invalid k8s lease config".to_owned()
}

impl ConfigError {
    /// The answer to a configuration with this fault.
    pub fn refusal(self) -> (res: Refusal)
        ensures
            res@ == refusal_of(self),
    {
        Refusal { context: refusal_context(), cause: self }
    }

    /// What the error says.
    pub open spec fn text(self) -> Seq<char> {
        match self {
            ConfigError::EmptyNamespace => "k8s leader: namespace must be non-empty"@,
            ConfigError::EmptyIdentity => "k8s leader: identity must be non-empty"@,
            ConfigError::EmptyLeasePrefix => "k8s leader: lease_prefix must be non-empty"@,
            ConfigError::ZeroRenewPeriod => "k8s leader: renew_period must be > 0"@,
            ConfigError::LeaseNotLongerThanRenew { lease_duration, renew_period } => {
                not_longer_text(lease_duration.text(), renew_period.text())
            },
            ConfigError::LeaseBelowOneSecond { lease_duration } => {
                below_one_second_text(lease_duration.text())
            },
            ConfigError::LeaseOutOfRange { lease_duration } => {
                out_of_range_text(lease_duration.text())
            },
        }
    }

    /// The message of the error.
    pub fn message(&self) -> (res: String)
        ensures
            res@ == self.text(),
    {
        match self {
            ConfigError::EmptyNamespace => "k8s leader: namespace must be non-empty".to_owned(),
            ConfigError::EmptyIdentity => "k8s leader: identity must be non-empty".to_owned(),
            ConfigError::EmptyLeasePrefix => {
                "k8s leader: lease_prefix must be non-empty".to_owned()
            },
            ConfigError::ZeroRenewPeriod => "k8s leader: renew_period must be > 0".to_owned(),
            ConfigError::LeaseNotLongerThanRenew { lease_duration, renew_period } => {
                not_longer_message(
                    lease_duration.to_text().as_str(),
                    renew_period.to_text().as_str(),
                )
            },
            ConfigError::LeaseBelowOneSecond { lease_duration } => {
                below_one_second_message(lease_duration.to_text().as_str())
            },
            ConfigError::LeaseOutOfRange { lease_duration } => {
                out_of_range_message(lease_duration.to_text().as_str())
            },
        }
    }
}

/// A Lease that names no duration lasts the whole seconds of the configured span,
/// if there are at most 2147483647 of them; more are an error.
pub proof fn law_default_is_the_whole_seconds(lease_duration: Duration)
    ensures
        lease_duration@ < 2_147_483_648_000_000_000 ==> (default_seconds(lease_duration)
            matches Ok(seconds) && seconds * 1_000_000_000 <= lease_duration@ < (seconds + 1)
            * 1_000_000_000),
        lease_duration@ >= 2_147_483_648_000_000_000 ==> default_seconds(lease_duration) == Err::<
            i32,
            ConfigError,
        >(ConfigError::LeaseOutOfRange { lease_duration }),
{
}

/// Text counts as blank exactly if each of its characters is white space.
pub open spec fn only_white_space(s: Seq<char>) -> bool {
    forall|i: int| 0 <= i < s.len() ==> is_white_space(#[trigger] s[i])
}

/// A configuration passes exactly if namespace, identity and prefix hold more than
/// white space, the renew period is not zero and shorter than the Lease, and the
/// Lease lasts at least one second and less than 2147483648 seconds.
pub proof fn law_valid_configs(config: K8sLeaseConfig)
    ensures
        config.is_valid() <==> config.fault() is None,
        config.is_valid() <==> {
            &&& !only_white_space(config.namespace@)
            &&& !only_white_space(config.identity@)
            &&& !only_white_space(config.lease_prefix@)
            &&& 0 < config.renew_period@
            &&& config.renew_period@ < config.lease_duration@
            &&& 1_000_000_000 <= config.lease_duration@
            &&& config.lease_duration@ < 2_147_483_648_000_000_000
        },
{
}

/// Of several faults, the one of the field that is looked at first is reported:
/// namespace, identity, prefix, renew period, then the span of the Lease.
pub proof fn law_first_fault_is_reported(config: K8sLeaseConfig)
    ensures
        ({
            let no_namespace = only_white_space(config.namespace@);
            let no_identity = only_white_space(config.identity@);
            let no_prefix = only_white_space(config.lease_prefix@);
            let named = !no_namespace && !no_identity && !no_prefix;
            let renew_period = config.renew_period;
            let lease_duration = config.lease_duration;
            &&& no_namespace ==> config.fault() == Some(ConfigError::EmptyNamespace)
            &&& !no_namespace && no_identity ==> config.fault() == Some(ConfigError::EmptyIdentity)
            &&& !no_namespace && !no_identity && no_prefix ==> config.fault() == Some(
                ConfigError::EmptyLeasePrefix,
            )
            &&& named && renew_period@ == 0 ==> config.fault() == Some(
                ConfigError::ZeroRenewPeriod,
            )
            &&& named && renew_period@ > 0 && lease_duration@ <= renew_period@ ==> config.fault()
                == Some(ConfigError::LeaseNotLongerThanRenew { lease_duration, renew_period })
            &&& named && renew_period@ > 0 && renew_period@ < lease_duration@ && lease_duration@
                < 1_000_000_000 ==> config.fault() == Some(
                ConfigError::LeaseBelowOneSecond { lease_duration },
            )
            &&& named && renew_period@ > 0 && renew_period@ < lease_duration@ && lease_duration@
                >= 2_147_483_648_000_000_000 ==> config.fault() == Some(
                ConfigError::LeaseOutOfRange { lease_duration },
            )
        }),
{
}

/// The Lease of a role lies in the configured namespace; its name is the prefix, a
/// hyphen and the role.
pub proof fn law_lease_of_a_role(namespace: Seq<char>, lease_prefix: Seq<char>, role: Seq<char>)
    ensures
        lease_name_text(lease_prefix, role) == lease_prefix + seq!['-'] + role,
        lease_target_of(namespace, lease_prefix, role).namespace == namespace,
        lease_target_of(namespace, lease_prefix, role).name == lease_prefix + seq!['-'] + role,
        lease_ref_text(namespace, lease_prefix) == namespace + seq!['/'] + lease_prefix,
{
    reveal_strlit("-");
    reveal_strlit("/");
    assert("-"@ =~= seq!['-']);
    assert("/"@ =~= seq!['/']);
}

/// What the errors of a configuration say.
pub proof fn law_config_error_texts(lease_duration: Duration, renew_period: Duration)
    ensures
        ({
            let lease_text = duration_debug_text(
                (lease_duration@ / 1_000_000_000) as u64,
                (lease_duration@ % 1_000_000_000) as u32,
            );
            let renew_text = duration_debug_text(
                (renew_period@ / 1_000_000_000) as u64,
                (renew_period@ % 1_000_000_000) as u32,
            );
            &&& ConfigError::EmptyNamespace.text() == "k8s leader: namespace must be non-empty"@
            &&& ConfigError::EmptyIdentity.text() == "k8s leader: identity must be non-empty"@
            &&& ConfigError::EmptyLeasePrefix.text()
                == "k8s leader: lease_prefix must be non-empty"@
            &&& ConfigError::ZeroRenewPeriod.text() == "k8s leader: renew_period must be > 0"@
            &&& (ConfigError::LeaseNotLongerThanRenew { lease_duration, renew_period }).text()
                == "k8s leader: lease_duration ("@ + lease_text + ") must be > renew_period ("@
                + renew_text + ")"@
            &&& (ConfigError::LeaseBelowOneSecond { lease_duration }).text()
                == "k8s leader: lease_duration ("@ + lease_text
                + ") must be at least 1 second"@
            &&& (ConfigError::LeaseOutOfRange { lease_duration }).text()
                == "k8s leader: lease_duration ("@ + lease_text
                + ") exceeds Kubernetes Lease i32 seconds range"@
        }),
{
}

/// What a refusal says.
pub proof fn law_refusal_names_its_fault(cause: ConfigError)
    ensures
        refusal_of(cause).context == "invalid k8s lease config"@,
        refusal_of(cause).cause == cause,
{
}

/// The text of a configuration names each field and its value in order.
pub proof fn law_config_text_names_every_field(config: K8sLeaseConfig)
    ensures
        ({
            let lease_text = duration_debug_text(
                (config.lease_duration@ / 1_000_000_000) as u64,
                (config.lease_duration@ % 1_000_000_000) as u32,
            );
            let renew_text = duration_debug_text(
                (config.renew_period@ / 1_000_000_000) as u64,
                (config.renew_period@ % 1_000_000_000) as u32,
            );
            config.text() == "K8sLeaseConfig { namespace: "@ + debug_text(config.namespace@)
                + ", identity: "@ + debug_text(config.identity@) + ", lease_prefix: "@ + debug_text(
                config.lease_prefix@,
            ) + ", lease_duration: "@ + lease_text + ", renew_period: "@ + renew_text + " }"@
        }),
{
}

/// What a target says is what it holds.
pub proof fn law_target_view_shows_every_field(target: LeaseTarget)
    ensures
        target@.namespace == target.namespace@,
        target@.name == target.name@,
{
}

} // verus!
