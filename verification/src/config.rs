//! Configuration for circuit breaker behavior.
//!
//! Use [`Config::builder()`] to construct a configuration with custom
//! parameters, or [`Config::default()`] for the defaults.
use vstd::prelude::*;

verus! {

/// Configuration for a [`CircuitBreaker`](crate::CircuitBreaker).
///
/// Defaults: `failure_threshold` 5, `recovery_timeout_secs` 60,
/// `half_open_max_probes` 1, `success_threshold` 3.
#[derive(Debug)]
pub struct Config {
    /// Number of consecutive failures required to trip the circuit (open).
    pub failure_threshold: u32,
    /// Seconds to wait before transitioning from open to half-open.
    pub recovery_timeout_secs: u64,
    /// Maximum number of probe requests allowed in half-open state.
    pub half_open_max_probes: u32,
    /// Number of consecutive successes in half-open to close the circuit.
    pub success_threshold: u32,
}

/// Errors that can occur during configuration validation.
#[derive(Debug, Clone, PartialEq, Eq)]
pub enum ConfigError {
    /// A parameter has an invalid value.
    InvalidParameter {
        /// Parameter name.
        name: &'static str,
        /// Why the value is invalid.
        reason: &'static str,
    },
}

/// The error for a parameter that must be positive but is zero.
pub open spec fn zero_parameter(name: &'static str) -> ConfigError {
    ConfigError::InvalidParameter { name, reason: "must be greater than 0" }
}

impl Config {
    /// The default configuration.
    pub open spec fn spec_default() -> Config {
        Config {
            failure_threshold: 5,
            recovery_timeout_secs: 60,
            half_open_max_probes: 1,
            success_threshold: 3,
        }
    }

    /// Every parameter is positive.
    pub open spec fn is_valid(self) -> bool {
        &&& self.failure_threshold > 0
        &&& self.recovery_timeout_secs > 0
        &&& self.half_open_max_probes > 0
        &&& self.success_threshold > 0
    }

    /// What validation gives: the first zero parameter, in declaration
    /// order, is reported.
    pub open spec fn spec_validate(self) -> Result<(), ConfigError> {
        if self.failure_threshold == 0 {
            Err(zero_parameter("failure_threshold"))
        } else if self.recovery_timeout_secs == 0 {
            Err(zero_parameter("recovery_timeout_secs"))
        } else if self.half_open_max_probes == 0 {
            Err(zero_parameter("half_open_max_probes"))
        } else if self.success_threshold == 0 {
            Err(zero_parameter("success_threshold"))
        } else {
            Ok(())
        }
    }

    /// Create a new [`ConfigBuilder`], starting from the defaults.
    pub fn builder() -> (b: ConfigBuilder)
        ensures
            b@ == Config::spec_default(),
    {
        ConfigBuilder(Config::default())
    }

    /// Validate the configuration, returning `Ok(())` if valid.
    pub fn validate(&self) -> (r: Result<(), ConfigError>)
        ensures
            r == self.spec_validate(),
            r is Ok <==> self.is_valid(),
    {
        if self.failure_threshold == 0 {
            return Err(ConfigError::InvalidParameter {
                name: "failure_threshold",
                reason: "must be greater than 0",
            });
        }
        if self.recovery_timeout_secs == 0 {
            return Err(ConfigError::InvalidParameter {
                name: "recovery_timeout_secs",
                reason: "must be greater than 0",
            });
        }
        if self.half_open_max_probes == 0 {
            return Err(ConfigError::InvalidParameter {
                name: "half_open_max_probes",
                reason: "must be greater than 0",
            });
        }
        if self.success_threshold == 0 {
            return Err(ConfigError::InvalidParameter {
                name: "success_threshold",
                reason: "must be greater than 0",
            });
        }
        Ok(())
    }
}

impl Clone for Config {
    fn clone(&self) -> (c: Self)
        ensures
            c == *self,
    {
        Config {
            failure_threshold: self.failure_threshold,
            recovery_timeout_secs: self.recovery_timeout_secs,
            half_open_max_probes: self.half_open_max_probes,
            success_threshold: self.success_threshold,
        }
    }
}

impl Default for Config {
    fn default() -> (c: Self)
        ensures
            c == Config::spec_default(),
    {
        Config {
            failure_threshold: 5,
            recovery_timeout_secs: 60,
            half_open_max_probes: 1,
            success_threshold: 3,
        }
    }
}

impl ConfigError {
    /// The message of the error, as it is displayed.
    pub open spec fn message(self) -> Seq<char> {
        match self {
            ConfigError::InvalidParameter { name, reason } =>
                "invalid parameter '"@ + name@ + "': "@ + reason@,
        }
    }

    /// The message of the error: `invalid parameter '<name>': <reason>`.
    pub fn to_string(&self) -> (s: String)
        ensures
            s@ == self.message(),
    {
        match self {
            ConfigError::InvalidParameter { name, reason } => {
                let mut s = String::from_str("invalid parameter '");
                s.append(name);
                s.append("': ");
                s.append(reason);
                s
            },
        }
    }
}

/// Builder for [`Config`].
#[derive(Debug)]
pub struct ConfigBuilder(Config);

impl Clone for ConfigBuilder {
    fn clone(&self) -> (b: Self)
        ensures
            b@ == self@,
    {
        ConfigBuilder(self.0.clone())
    }
}

impl View for ConfigBuilder {
    type V = Config;

    /// The configuration built so far.
    closed spec fn view(&self) -> Config {
        self.0
    }
}

impl ConfigBuilder {
    /// Set the failure threshold.
    pub fn failure_threshold(self, n: u32) -> (b: Self)
        ensures
            b@ == (Config { failure_threshold: n, ..self@ }),
    {
        let mut b = self;
        b.0.failure_threshold = n;
        b
    }

    /// Set the recovery timeout in seconds.
    pub fn recovery_timeout_secs(self, secs: u64) -> (b: Self)
        ensures
            b@ == (Config { recovery_timeout_secs: secs, ..self@ }),
    {
        let mut b = self;
        b.0.recovery_timeout_secs = secs;
        b
    }

    /// Set the maximum number of probe requests in half-open state.
    pub fn half_open_max_probes(self, n: u32) -> (b: Self)
        ensures
            b@ == (Config { half_open_max_probes: n, ..self@ }),
    {
        let mut b = self;
        b.0.half_open_max_probes = n;
        b
    }

    /// Set the success threshold to close the circuit from half-open.
    pub fn success_threshold(self, n: u32) -> (b: Self)
        ensures
            b@ == (Config { success_threshold: n, ..self@ }),
    {
        let mut b = self;
        b.0.success_threshold = n;
        b
    }

    /// Build the configuration, validating all parameters.
    pub fn build(self) -> (r: Result<Config, ConfigError>)
        ensures
            r matches Ok(c) ==> c == self@,
            r matches Err(e) ==> self@.spec_validate() == Err::<(), ConfigError>(e),
            r is Ok <==> self@.is_valid(),
    {
        match self.0.validate() {
            Ok(()) => Ok(self.0),
            Err(e) => Err(e),
        }
    }
}

} // verus!
