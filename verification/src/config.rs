//! The monitor's configuration: a typed record assembled from the raw
//! environment-variable text, with every required value present and valid.
//!
//! Loading is fail-fast: the first missing or unparseable value, in the order
//! in which the variables are read, is reported and nothing else is tried.

use vstd::prelude::*;
use crate::parse::is_i64_str;
use crate::parse::is_u16_str;
use crate::parse::is_u64_str;
use crate::parse::parse_i64;
use crate::parse::parse_u16;
use crate::parse::parse_u64;
use crate::parse::signed_str_value;
use crate::parse::unsigned_str_value;

verus! {

/// One of the monitor's configuration variables.
#[derive(Debug, Clone, Copy, PartialEq, Eq, Structural)]
pub enum ConfigVar {
    TargetHost,
    TargetPort,
    DelaySecs,
    HighDelayThresholdMillis,
    TelegramToken,
    TelegramGroupId,
}

/// Why loading the configuration failed: a variable was absent, or its text
/// did not parse as a value of the variable's type.
#[derive(Debug, Clone, Copy, PartialEq, Eq, Structural)]
pub enum ConfigError {
    Missing(ConfigVar),
    Invalid(ConfigVar),
}

/// The monitor's configuration, read once at startup.
#[derive(Debug, Clone)]
pub struct Config {
    /// Hostname or IP address to probe.
    pub target_host: String,
    /// TCP port to probe.
    pub target_port: u16,
    /// Seconds to sleep between iterations.
    pub delay_secs: u64,
    /// Latency in milliseconds above which a successful probe still raises an
    /// alert.
    pub high_delay_threshold_millis: u64,
    /// Credential for the alert channel.
    pub telegram_token: String,
    /// Destination chat identifier for alerts.
    pub telegram_group_id: i64,
}

/// The environment-variable name of a configuration variable.
pub open spec fn spec_var_name(v: ConfigVar) -> Seq<char> {
    match v {
        ConfigVar::TargetHost => "TARGET_HOST"@,
        ConfigVar::TargetPort => "TARGET_PORT"@,
        ConfigVar::DelaySecs => "DELAY_SECS"@,
        ConfigVar::HighDelayThresholdMillis => "HIGH_DELAY_THRESHOLD_MILLIS"@,
        ConfigVar::TelegramToken => "TELEGRAM_TOKEN"@,
        ConfigVar::TelegramGroupId => "TELEGRAM_GROUP_ID"@,
    }
}

/// The one-line explanation a configuration error produces: the variable's
/// name, then why its value was not accepted.
pub open spec fn spec_message(e: ConfigError) -> Seq<char> {
    match e {
        ConfigError::Missing(v) => spec_var_name(v) + " is not set"@,
        ConfigError::Invalid(v) => spec_var_name(v) + " is not a valid value"@,
    }
}

impl ConfigVar {
    /// The environment-variable name of this configuration variable.
    pub fn name(&self) -> (r: &'static str)
        ensures
            r@ == spec_var_name(*self),
    {
        match self {
            ConfigVar::TargetHost => "TARGET_HOST",
            ConfigVar::TargetPort => "TARGET_PORT",
            ConfigVar::DelaySecs => "DELAY_SECS",
            ConfigVar::HighDelayThresholdMillis => "HIGH_DELAY_THRESHOLD_MILLIS",
            ConfigVar::TelegramToken => "TELEGRAM_TOKEN",
            ConfigVar::TelegramGroupId => "TELEGRAM_GROUP_ID",
        }
    }
}

impl ConfigError {
    /// The variable the error is about.
    pub fn var(&self) -> (v: ConfigVar)
        ensures
            v == (match *self {
                ConfigError::Missing(w) => w,
                ConfigError::Invalid(w) => w,
            }),
    {
        match self {
            ConfigError::Missing(w) => *w,
            ConfigError::Invalid(w) => *w,
        }
    }

    /// The one-line explanation of this error, naming the variable:
    /// the fatal message the process leaves with at startup.
    pub fn message(&self) -> (m: String)
        ensures
            m@ == spec_message(*self),
    {
        let mut m = String::from_str(self.var().name());
        match self {
            ConfigError::Missing(_) => m.append(" is not set"),
            ConfigError::Invalid(_) => m.append(" is not a valid value"),
        }
        m
    }
}

impl Config {
    /// Assemble the configuration from the raw environment-variable text,
    /// each value given as `None` when the variable is absent. The first
    /// missing or invalid value, in the order of the parameters, is reported
    /// as the error.
    pub fn from_values(
        target_host: Option<String>,
        target_port: Option<String>,
        delay_secs: Option<String>,
        high_delay_threshold_millis: Option<String>,
        telegram_token: Option<String>,
        telegram_group_id: Option<String>,
    ) -> (r: Result<Config, ConfigError>)
        ensures
            r is Ok <==> (target_host is Some && (target_port matches Some(p) && is_u16_str(p@))
                && (delay_secs matches Some(d) && is_u64_str(d@)) && (high_delay_threshold_millis
                matches Some(t) && is_u64_str(t@)) && telegram_token is Some && (telegram_group_id
                matches Some(g) && is_i64_str(g@))),
            r matches Ok(c) ==> {
                &&& target_host matches Some(h) && c.target_host == h
                &&& target_port matches Some(p) && c.target_port as nat == unsigned_str_value(p@)
                &&& delay_secs matches Some(d) && c.delay_secs as nat == unsigned_str_value(d@)
                &&& high_delay_threshold_millis matches Some(t) && c.high_delay_threshold_millis
                    as nat == unsigned_str_value(t@)
                &&& telegram_token matches Some(k) && c.telegram_token == k
                &&& telegram_group_id matches Some(g) && c.telegram_group_id as int
                    == signed_str_value(g@)
            },
            target_host is None ==> r == Result::<Config, ConfigError>::Err(
                ConfigError::Missing(ConfigVar::TargetHost),
            ),
            target_host is Some && target_port is None ==> r == Result::<Config, ConfigError>::Err(
                ConfigError::Missing(ConfigVar::TargetPort),
            ),
            target_host is Some && (target_port matches Some(p) && !is_u16_str(p@)) ==> r
                == Result::<Config, ConfigError>::Err(ConfigError::Invalid(ConfigVar::TargetPort)),
            target_host is Some && (target_port matches Some(p) && is_u16_str(p@)) && delay_secs
                is None ==> r == Result::<Config, ConfigError>::Err(
                ConfigError::Missing(ConfigVar::DelaySecs),
            ),
            target_host is Some && (target_port matches Some(p) && is_u16_str(p@)) && (delay_secs
                matches Some(d) && !is_u64_str(d@)) ==> r == Result::<Config, ConfigError>::Err(
                ConfigError::Invalid(ConfigVar::DelaySecs),
            ),
            target_host is Some && (target_port matches Some(p) && is_u16_str(p@)) && (delay_secs
                matches Some(d) && is_u64_str(d@)) && high_delay_threshold_millis is None ==> r
                == Result::<Config, ConfigError>::Err(
                ConfigError::Missing(ConfigVar::HighDelayThresholdMillis),
            ),
            target_host is Some && (target_port matches Some(p) && is_u16_str(p@)) && (delay_secs
                matches Some(d) && is_u64_str(d@)) && (high_delay_threshold_millis matches Some(t)
                && !is_u64_str(t@)) ==> r == Result::<Config, ConfigError>::Err(
                ConfigError::Invalid(ConfigVar::HighDelayThresholdMillis),
            ),
            target_host is Some && (target_port matches Some(p) && is_u16_str(p@)) && (delay_secs
                matches Some(d) && is_u64_str(d@)) && (high_delay_threshold_millis matches Some(t)
                && is_u64_str(t@)) && telegram_token is None ==> r == Result::<
                Config,
                ConfigError,
            >::Err(ConfigError::Missing(ConfigVar::TelegramToken)),
            target_host is Some && (target_port matches Some(p) && is_u16_str(p@)) && (delay_secs
                matches Some(d) && is_u64_str(d@)) && (high_delay_threshold_millis matches Some(t)
                && is_u64_str(t@)) && telegram_token is Some && telegram_group_id is None ==> r
                == Result::<Config, ConfigError>::Err(
                ConfigError::Missing(ConfigVar::TelegramGroupId),
            ),
            target_host is Some && (target_port matches Some(p) && is_u16_str(p@)) && (delay_secs
                matches Some(d) && is_u64_str(d@)) && (high_delay_threshold_millis matches Some(t)
                && is_u64_str(t@)) && telegram_token is Some && (telegram_group_id matches Some(g)
                && !is_i64_str(g@)) ==> r == Result::<Config, ConfigError>::Err(
                ConfigError::Invalid(ConfigVar::TelegramGroupId),
            ),
    {
        let host = match target_host {
            Some(h) => h,
            None => {
                return Err(ConfigError::Missing(ConfigVar::TargetHost));
            },
        };
        let port = match target_port {
            Some(p) => match parse_u16(p.as_str()) {
                Some(n) => n,
                None => {
                    return Err(ConfigError::Invalid(ConfigVar::TargetPort));
                },
            },
            None => {
                return Err(ConfigError::Missing(ConfigVar::TargetPort));
            },
        };
        let delay = match delay_secs {
            Some(d) => match parse_u64(d.as_str()) {
                Some(n) => n,
                None => {
                    return Err(ConfigError::Invalid(ConfigVar::DelaySecs));
                },
            },
            None => {
                return Err(ConfigError::Missing(ConfigVar::DelaySecs));
            },
        };
        let threshold = match high_delay_threshold_millis {
            Some(t) => match parse_u64(t.as_str()) {
                Some(n) => n,
                None => {
                    return Err(ConfigError::Invalid(ConfigVar::HighDelayThresholdMillis));
                },
            },
            None => {
                return Err(ConfigError::Missing(ConfigVar::HighDelayThresholdMillis));
            },
        };
        let token = match telegram_token {
            Some(k) => k,
            None => {
                return Err(ConfigError::Missing(ConfigVar::TelegramToken));
            },
        };
        let group = match telegram_group_id {
            Some(g) => match parse_i64(g.as_str()) {
                Some(n) => n,
                None => {
                    return Err(ConfigError::Invalid(ConfigVar::TelegramGroupId));
                },
            },
            None => {
                return Err(ConfigError::Missing(ConfigVar::TelegramGroupId));
            },
        };
        Ok(
            Config {
                target_host: host,
                target_port: port,
                delay_secs: delay,
                high_delay_threshold_millis: threshold,
                telegram_token: token,
                telegram_group_id: group,
            },
        )
    }
}

} // verus!
