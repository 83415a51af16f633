use reach_monitor::config::Config;
use reach_monitor::config::ConfigError;
use reach_monitor::config::ConfigVar;

fn full_values() -> (
    Option<String>,
    Option<String>,
    Option<String>,
    Option<String>,
    Option<String>,
    Option<String>,
) {
    (
        Some(String::from("example.com")),
        Some(String::from("443")),
        Some(String::from("30")),
        Some(String::from("100")),
        Some(String::from("bot-token")),
        Some(String::from("-1001234567890")),
    )
}

#[test]
fn complete_configuration_loads() {
    let (host, port, delay, threshold, token, group) = full_values();
    let c = Config::from_values(host, port, delay, threshold, token, group).unwrap();
    assert_eq!(c.target_host, "example.com");
    assert_eq!(c.target_port, 443);
    assert_eq!(c.delay_secs, 30);
    assert_eq!(c.high_delay_threshold_millis, 100);
    assert_eq!(c.telegram_token, "bot-token");
    assert_eq!(c.telegram_group_id, -1001234567890);
}

#[test]
fn missing_host_is_reported_first() {
    let (_, port, delay, threshold, token, group) = full_values();
    let r = Config::from_values(None, port, delay, threshold, token, group);
    assert_eq!(r.unwrap_err(), ConfigError::Missing(ConfigVar::TargetHost));
}

#[test]
fn missing_port_is_reported() {
    let (host, _, delay, threshold, token, group) = full_values();
    let r = Config::from_values(host, None, delay, threshold, token, group);
    assert_eq!(r.unwrap_err(), ConfigError::Missing(ConfigVar::TargetPort));
}

#[test]
fn missing_delay_is_reported() {
    let (host, port, _, threshold, token, group) = full_values();
    let r = Config::from_values(host, port, None, threshold, token, group);
    assert_eq!(r.unwrap_err(), ConfigError::Missing(ConfigVar::DelaySecs));
}

#[test]
fn missing_threshold_is_reported() {
    let (host, port, delay, _, token, group) = full_values();
    let r = Config::from_values(host, port, delay, None, token, group);
    assert_eq!(r.unwrap_err(), ConfigError::Missing(ConfigVar::HighDelayThresholdMillis));
}

#[test]
fn missing_token_is_reported() {
    let (host, port, delay, threshold, _, group) = full_values();
    let r = Config::from_values(host, port, delay, threshold, None, group);
    assert_eq!(r.unwrap_err(), ConfigError::Missing(ConfigVar::TelegramToken));
}

#[test]
fn missing_group_id_is_reported() {
    let (host, port, delay, threshold, token, _) = full_values();
    let r = Config::from_values(host, port, delay, threshold, token, None);
    assert_eq!(r.unwrap_err(), ConfigError::Missing(ConfigVar::TelegramGroupId));
}

#[test]
fn port_above_maximum_is_invalid() {
    let (host, _, delay, threshold, token, group) = full_values();
    let r = Config::from_values(host, Some(String::from("65536")), delay, threshold, token, group);
    assert_eq!(r.unwrap_err(), ConfigError::Invalid(ConfigVar::TargetPort));
}

#[test]
fn negative_port_is_invalid() {
    let (host, _, delay, threshold, token, group) = full_values();
    let r = Config::from_values(host, Some(String::from("-1")), delay, threshold, token, group);
    assert_eq!(r.unwrap_err(), ConfigError::Invalid(ConfigVar::TargetPort));
}

#[test]
fn port_maximum_is_accepted() {
    let (host, _, delay, threshold, token, group) = full_values();
    let c = Config::from_values(host, Some(String::from("65535")), delay, threshold, token, group)
        .unwrap();
    assert_eq!(c.target_port, 65535);
}

#[test]
fn non_numeric_delay_is_invalid() {
    let (host, port, _, threshold, token, group) = full_values();
    let r = Config::from_values(host, port, Some(String::from("soon")), threshold, token, group);
    assert_eq!(r.unwrap_err(), ConfigError::Invalid(ConfigVar::DelaySecs));
}

#[test]
fn non_numeric_threshold_is_invalid() {
    let (host, port, delay, _, token, group) = full_values();
    let r = Config::from_values(host, port, delay, Some(String::from("1.5")), token, group);
    assert_eq!(r.unwrap_err(), ConfigError::Invalid(ConfigVar::HighDelayThresholdMillis));
}

#[test]
fn non_numeric_group_id_is_invalid() {
    let (host, port, delay, threshold, token, _) = full_values();
    let r = Config::from_values(host, port, delay, threshold, token, Some(String::from("@chat")));
    assert_eq!(r.unwrap_err(), ConfigError::Invalid(ConfigVar::TelegramGroupId));
}

#[test]
fn missing_values_are_reported_in_reading_order() {
    let r = Config::from_values(None, None, None, None, None, None);
    assert_eq!(r.unwrap_err(), ConfigError::Missing(ConfigVar::TargetHost));
    let r = Config::from_values(Some(String::from("h")), None, None, None, None, None);
    assert_eq!(r.unwrap_err(), ConfigError::Missing(ConfigVar::TargetPort));
}

#[test]
fn variable_names() {
    assert_eq!(ConfigVar::TargetHost.name(), "TARGET_HOST");
    assert_eq!(ConfigVar::TargetPort.name(), "TARGET_PORT");
    assert_eq!(ConfigVar::DelaySecs.name(), "DELAY_SECS");
    assert_eq!(ConfigVar::HighDelayThresholdMillis.name(), "HIGH_DELAY_THRESHOLD_MILLIS");
    assert_eq!(ConfigVar::TelegramToken.name(), "TELEGRAM_TOKEN");
    assert_eq!(ConfigVar::TelegramGroupId.name(), "TELEGRAM_GROUP_ID");
    assert_eq!(ConfigError::Invalid(ConfigVar::TargetPort).var(), ConfigVar::TargetPort);
    assert_eq!(ConfigError::Missing(ConfigVar::TelegramToken).var(), ConfigVar::TelegramToken);
}

#[test]
fn error_messages_name_the_variable() {
    assert_eq!(ConfigError::Missing(ConfigVar::TargetHost).message(), "TARGET_HOST is not set");
    assert_eq!(
        ConfigError::Invalid(ConfigVar::TargetPort).message(),
        "TARGET_PORT is not a valid value"
    );
    assert_eq!(ConfigError::Missing(ConfigVar::DelaySecs).message(), "DELAY_SECS is not set");
    assert_eq!(
        ConfigError::Invalid(ConfigVar::TelegramGroupId).message(),
        "TELEGRAM_GROUP_ID is not a valid value"
    );
}
