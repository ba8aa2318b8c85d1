use circuit_breaker_rs::config::ConfigError;
use circuit_breaker_rs::Config;

#[test]
fn default_config() {
    let c = Config::default();
    assert_eq!(c.failure_threshold, 5);
    assert_eq!(c.recovery_timeout_secs, 60);
    assert_eq!(c.half_open_max_probes, 1);
    assert_eq!(c.success_threshold, 3);
}

#[test]
fn builder_custom() {
    let c = Config::builder()
        .failure_threshold(10)
        .recovery_timeout_secs(120)
        .half_open_max_probes(3)
        .success_threshold(5)
        .build()
        .unwrap();
    assert_eq!(c.failure_threshold, 10);
    assert_eq!(c.recovery_timeout_secs, 120);
    assert_eq!(c.half_open_max_probes, 3);
    assert_eq!(c.success_threshold, 5);
}

#[test]
fn validate_zero_failure_threshold() {
    let c = Config {
        failure_threshold: 0,
        ..Config::default()
    };
    assert!(c.validate().is_err());
}

#[test]
fn validate_zero_recovery_timeout() {
    let c = Config {
        recovery_timeout_secs: 0,
        ..Config::default()
    };
    assert!(c.validate().is_err());
}

#[test]
fn validate_zero_half_open_probes() {
    let c = Config {
        half_open_max_probes: 0,
        ..Config::default()
    };
    assert!(c.validate().is_err());
}

#[test]
fn validate_zero_success_threshold() {
    let c = Config {
        success_threshold: 0,
        ..Config::default()
    };
    assert!(c.validate().is_err());
}

#[test]
fn validate_valid_config() {
    assert!(Config::default().validate().is_ok());
}

#[test]
fn config_error_display() {
    let err = ConfigError::InvalidParameter {
        name: "foo",
        reason: "bar",
    };
    assert_eq!(err.to_string(), "invalid parameter 'foo': bar");
}

fn zero(name: &'static str) -> ConfigError {
    ConfigError::InvalidParameter {
        name,
        reason: "must be greater than 0",
    }
}

#[test]
fn validate_names_each_zero_parameter() {
    let d = Config::default;
    assert_eq!(
        Config { failure_threshold: 0, ..d() }.validate(),
        Err(zero("failure_threshold"))
    );
    assert_eq!(
        Config { recovery_timeout_secs: 0, ..d() }.validate(),
        Err(zero("recovery_timeout_secs"))
    );
    assert_eq!(
        Config { half_open_max_probes: 0, ..d() }.validate(),
        Err(zero("half_open_max_probes"))
    );
    assert_eq!(
        Config { success_threshold: 0, ..d() }.validate(),
        Err(zero("success_threshold"))
    );
}

#[test]
fn validate_reports_first_zero_parameter() {
    let c = Config {
        failure_threshold: 1,
        recovery_timeout_secs: 0,
        half_open_max_probes: 0,
        success_threshold: 0,
    };
    assert_eq!(c.validate(), Err(zero("recovery_timeout_secs")));
}

#[test]
fn build_refuses_invalid_configuration() {
    let r = Config::builder().success_threshold(0).build();
    assert_eq!(r.unwrap_err(), zero("success_threshold"));
    let r = Config::builder().half_open_max_probes(0).failure_threshold(0).build();
    assert_eq!(r.unwrap_err(), zero("failure_threshold"));
}

#[test]
fn builder_starts_from_defaults() {
    let c = Config::builder().failure_threshold(7).build().unwrap();
    assert_eq!(c.failure_threshold, 7);
    assert_eq!(c.recovery_timeout_secs, 60);
    assert_eq!(c.half_open_max_probes, 1);
    assert_eq!(c.success_threshold, 3);
}

#[test]
fn config_error_message_of_validation() {
    let err = Config { half_open_max_probes: 0, ..Config::default() }
        .validate()
        .unwrap_err();
    assert_eq!(
        err.to_string(),
        "invalid parameter 'half_open_max_probes': must be greater than 0"
    );
}

#[test]
fn cloned_builder_builds_the_same_configuration() {
    let b = Config::builder().failure_threshold(9);
    let c1 = b.clone().build().unwrap();
    let c2 = b.build().unwrap();
    assert_eq!(c1.failure_threshold, c2.failure_threshold);
    let c3 = c1.clone();
    assert_eq!(c3.failure_threshold, 9);
    assert_eq!(c3.recovery_timeout_secs, 60);
}
