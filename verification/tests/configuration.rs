//! Building the startup configuration from optional environment text.

use watchpost::config::FatalConfigError;
use watchpost::config::build_config;

#[test]
fn full_configuration_builds() {
    let config = build_config(
        Some(String::from("/data")),
        Some(String::from("false")),
        Some(String::from("https://hooks.example/abc")),
    )
    .unwrap();
    assert_eq!(config.root, "/data");
    assert!(!config.ignore_hidden);
    assert_eq!(config.destination, "https://hooks.example/abc");
}

#[test]
fn ignore_flag_defaults_to_true_when_absent() {
    let config = build_config(
        Some(String::from("/data")),
        None,
        Some(String::from("https://hooks.example/abc")),
    )
    .unwrap();
    assert!(config.ignore_hidden);
}

#[test]
fn malformed_ignore_flag_is_fatal() {
    let built = build_config(
        Some(String::from("/data")),
        Some(String::from("yes")),
        Some(String::from("https://hooks.example/abc")),
    );
    assert_eq!(built.unwrap_err(), FatalConfigError::InvalidIgnoreFlag);
}

#[test]
fn malformed_ignore_flag_is_checked_before_the_root() {
    let built = build_config(None, Some(String::from("maybe")), None);
    assert_eq!(built.unwrap_err(), FatalConfigError::InvalidIgnoreFlag);
}

#[test]
fn missing_root_is_fatal() {
    let built = build_config(None, Some(String::from("true")), Some(String::from("x")));
    assert_eq!(built.unwrap_err(), FatalConfigError::MissingWatchRoot);
}

#[test]
fn missing_destination_is_fatal() {
    let built = build_config(Some(String::from("/data")), None, None);
    assert_eq!(built.unwrap_err(), FatalConfigError::MissingDestination);
}
