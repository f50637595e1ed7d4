use tardis_cli::cli::{zone_from_host, zone_from_id, Cli, Command};
use tardis_cli::config::Config;
use tardis_cli::errors::{Error, SystemError, UserInputError};
use tardis_cli::pipeline::App;

fn args(input: Option<&str>, format: Option<&str>, timezone: Option<&str>, now: Option<&str>) -> Cli {
    Cli {
        input: input.map(|s| s.to_string()),
        format: format.map(|s| s.to_string()),
        timezone: timezone.map(|s| s.to_string()),
        now: now.map(|s| s.to_string()),
    }
}

fn cmd(input: &str, format: Option<&str>, timezone: Option<&str>, now: Option<&str>) -> Command {
    Command::from_cli(args(Some(input), format, timezone, now), None).unwrap()
}

fn cfg(format: &str, timezone: &str) -> Config {
    Config {
        format: format.to_string(),
        timezone: timezone.to_string(),
        formats: None,
    }
}

#[test]
fn command_keeps_all_flags() {
    let c = cmd("next friday", Some("%Y"), Some("UTC"), Some("2025-06-24T12:00:00Z"));
    assert_eq!(c.input, "next friday");
    assert_eq!(c.format.as_deref(), Some("%Y"));
    assert_eq!(c.timezone.as_deref(), Some("UTC"));
    let now = c.now.unwrap();
    assert_eq!(now.seconds, 1750766400);
    assert_eq!(now.nanos, 0);
}

#[test]
fn command_now_with_offset_is_the_same_instant() {
    let c = cmd("today", None, None, Some("2025-06-24T09:00:00-03:00"));
    assert_eq!(c.now.unwrap().seconds, 1750766400);
}

#[test]
fn command_defaults_none_when_only_input() {
    let c = cmd("tomorrow", None, None, None);
    assert_eq!(c.format, None);
    assert_eq!(c.timezone, None);
    assert!(c.now.is_none());
}

#[test]
fn command_argument_wins_over_stdin() {
    let c = Command::from_cli(args(Some("next monday"), None, None, None), Some(Ok("ignored".to_string()))).unwrap();
    assert_eq!(c.input, "next monday");
}

#[test]
fn stdin_empty_in_unit_path_gives_missing_input() {
    let err = Command::from_cli(args(None, None, None, None), Some(Ok(String::new()))).unwrap_err();
    assert!(matches!(err, Error::UserInput(UserInputError::InvalidDateFormat(_))));
}

#[test]
fn piped_input_is_trimmed() {
    let c = Command::from_cli(args(None, None, None, None), Some(Ok("  today \n".to_string()))).unwrap();
    assert_eq!(c.input, "today");
}

#[test]
fn no_input_at_all_is_an_error() {
    let err = Command::from_cli(args(None, None, None, None), None).unwrap_err();
    assert!(matches!(
        err,
        Error::UserInput(UserInputError::InvalidDateFormat(ref m)) if m == "no input provided; pass an argument or pipe data"
    ));
}

#[test]
fn empty_argument_is_an_error() {
    let err = Command::from_cli(args(Some(""), None, None, None), None).unwrap_err();
    assert!(matches!(err, Error::UserInput(UserInputError::InvalidDateFormat(_))));
}

#[test]
fn unreadable_stdin_is_an_error() {
    let err = Command::from_cli(args(None, None, None, None), Some(Err("broken pipe".to_string()))).unwrap_err();
    assert!(matches!(
        err,
        Error::UserInput(UserInputError::InvalidDateFormat(ref m)) if m == "failed to read from stdin: broken pipe"
    ));
}

#[test]
fn malformed_now_is_invalid_now() {
    let err = Command::from_cli(args(Some("today"), None, None, Some("yesterday-ish")), None).unwrap_err();
    assert!(matches!(
        err,
        Error::UserInput(UserInputError::InvalidNow(ref m)) if m.ends_with(" (expect RFC 3339, ex.: 2025-06-24T12:00:00Z)")
    ));
}

#[test]
fn cli_overrides_config_format() {
    let cli = cmd("2025-01-01", Some("%Y"), None, None);
    let cfg = cfg("%F", "UTC");

    let app = App::from_cli(&cli, &cfg).unwrap();

    assert_eq!(app.format, "%Y");
    assert_eq!(app.timezone.name(), "UTC");
}

#[test]
fn empty_format_is_error() {
    let cli = cmd("2025-01-01", Some("   "), None, None);
    let cfg = cfg("%F", "UTC");

    let err = App::from_cli(&cli, &cfg).unwrap_err();

    assert!(matches!(
        err,
        Error::UserInput(UserInputError::MissingArgument { .. })
    ));
}

#[test]
fn cli_overrides_config_timezone() {
    let cli = cmd("2025-01-01", Some("%Y"), Some("Europe/London"), None);
    let cfg = cfg("%Y", "UTC");

    let app = App::from_cli(&cli, &cfg).unwrap();

    assert_eq!(app.timezone.name(), "Europe/London");
}

#[test]
fn invalid_timezone_returns_error() {
    let cli = cmd("2025-01-01", Some("%Y"), Some("Mars/Olympus"), None);
    let cfg = cfg("%Y", "UTC");

    let err = App::from_cli(&cli, &cfg).unwrap_err();

    assert!(matches!(
        err,
        Error::UserInput(UserInputError::UnsupportedTimezone { .. })
    ));
}

#[test]
fn preset_name_kept_in_app() {
    let cli = cmd("2030-12-31", Some("br"), None, None);
    let cfg = Config {
        format: "%F".into(),
        timezone: "UTC".into(),
        formats: Some(vec![("br".to_string(), "%d/%m/%Y".to_string())]),
    };

    let app = App::from_cli(&cli, &cfg).unwrap();
    assert_eq!(app.format, "br");
}

#[test]
fn config_values_apply_when_command_is_silent() {
    let cli = cmd("today", None, None, None);
    let app = App::from_cli(&cli, &cfg("%d", "  Asia/Tokyo ")).unwrap();
    assert_eq!(app.format, "%d");
    assert_eq!(app.timezone.name(), "Asia/Tokyo");
    assert_eq!(app.date, "today");
}

#[test]
fn blank_config_format_is_error() {
    let cli = cmd("today", None, Some("UTC"), None);
    let err = App::from_cli(&cli, &cfg(" \t", "UTC")).unwrap_err();
    assert!(matches!(
        err,
        Error::UserInput(UserInputError::MissingArgument(ref m)) if m == "no output format specified"
    ));
}

#[test]
fn zone_from_id_names_the_bad_id() {
    let err = zone_from_id("Nowhere/Town").unwrap_err();
    assert!(matches!(
        err,
        Error::UserInput(UserInputError::UnsupportedTimezone(ref m)) if m == "invalid timezone ID: Nowhere/Town"
    ));
}

#[test]
fn zone_from_host_failure_is_config_error() {
    let err = zone_from_host(Err("no zone".to_string())).unwrap_err();
    assert!(matches!(
        err,
        Error::System(SystemError::Config(ref m)) if m == "failed to read local timezone: no zone"
    ));
    assert_eq!(zone_from_host(Ok("Europe/Paris".to_string())).unwrap().name(), "Europe/Paris");
}
