use std::fmt;

use tardis_cli::errors::{Error, SystemError, UserInputError};

#[test]
fn user_input_macro_literal() {
    let err = Error::UserInput(UserInputError::InvalidDateFormat("foo".to_string()));
    assert!(matches!(
        err,
        Error::UserInput(UserInputError::InvalidDateFormat(ref s)) if s == "foo"
    ));
}

#[test]
fn user_input_macro_formatted() {
    let err = Error::UserInput(UserInputError::MissingArgument(format!("missing {}", "--format")));
    assert!(matches!(
        err,
        Error::UserInput(UserInputError::MissingArgument(ref s)) if s == "missing --format"
    ));
}

#[test]
fn user_input_macro_empty() {
    let err = Error::UserInput(UserInputError::InvalidNow(String::new()));
    assert!(matches!(
        err,
        Error::UserInput(UserInputError::InvalidNow(ref s)) if s.is_empty()
    ));
}

#[test]
fn system_error_macro_literal() {
    let err = Error::System(SystemError::Config("invalid field".to_string()));
    assert!(matches!(
        err,
        Error::System(SystemError::Config(ref s)) if s == "invalid field"
    ));
}

#[test]
fn system_error_macro_formatted() {
    let err = Error::System(SystemError::Config(format!("failed to read {}", "/tmp/foo")));
    assert!(matches!(
        err,
        Error::System(SystemError::Config(ref s)) if s == "failed to read /tmp/foo"
    ));
}

#[test]
fn system_error_macro_empty() {
    let err = Error::System(SystemError::Config(String::new()));
    assert!(matches!(
        err,
        Error::System(SystemError::Config(ref s)) if s.is_empty()
    ));
}

#[test]
fn conversion_from_fmt_error() {
    let err: Error = fmt::Error.into();
    assert!(matches!(
        err,
        Error::UserInput(UserInputError::UnsupportedFormat(_))
    ));
}

#[test]
fn conversion_from_io_error() {
    let err: Error = std::io::Error::from(std::io::ErrorKind::PermissionDenied).into();
    assert!(matches!(err, Error::System(SystemError::Io(_))));
}

#[test]
fn conversion_from_variant_enums() {
    let user: Error = UserInputError::MissingArgument("x".to_string()).into();
    assert!(matches!(user, Error::UserInput(UserInputError::MissingArgument(_))));
    let system: Error = SystemError::Config("y".to_string()).into();
    assert!(matches!(system, Error::System(SystemError::Config(_))));
}

#[test]
fn exit_codes_follow_error_kind() {
    let user = Error::UserInput(UserInputError::InvalidNow(String::new()));
    let config = Error::System(SystemError::Config(String::new()));
    let io: Error = std::io::Error::from(std::io::ErrorKind::NotFound).into();
    assert_eq!(user.exit_code(), 64);
    assert_eq!(config.exit_code(), 78);
    assert_eq!(io.exit_code(), 74);
    assert!(user.is_user_input());
    assert!(!config.is_user_input());
    assert!(!io.is_user_input());
}

#[test]
fn errors_compare_by_kind_and_message() {
    let a = Error::UserInput(UserInputError::InvalidNow("x".to_string()));
    assert_eq!(a, Error::UserInput(UserInputError::InvalidNow("x".to_string())));
    assert_ne!(a, Error::UserInput(UserInputError::InvalidNow("y".to_string())));
    assert_ne!(a, Error::UserInput(UserInputError::MissingArgument("x".to_string())));
    assert_eq!(Error::from(fmt::Error), Error::from(fmt::Error));
    let denied = || Error::from(std::io::Error::from(std::io::ErrorKind::PermissionDenied));
    assert_eq!(denied(), denied());
    assert_ne!(denied(), Error::from(std::io::Error::from(std::io::ErrorKind::NotFound)));
    assert_ne!(denied(), Error::System(SystemError::Config(String::new())));
}
