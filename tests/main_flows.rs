use tardis_cli::civil::Timestamp;
use tardis_cli::pipeline::{process, App, Preset, Zone};

fn utc() -> Zone {
    Zone::parse("UTC").unwrap()
}

fn app(date: &str, fmt: &str, now: Option<Timestamp>) -> App {
    App::new(date.to_string(), fmt.to_string(), utc(), now)
}

fn now(seconds: i64) -> Option<Timestamp> {
    Some(Timestamp { seconds, nanos: 0 })
}

fn run(app: &App, presets: &[Preset]) -> String {
    process(app, presets).unwrap()
}

#[test]
fn happy_path_basic() {
    let a = app("2025-01-01 12:00", "%Y", now(1735732800));
    let out = run(&a, &[]);
    assert_eq!(out, "2025");
}

#[test]
fn resolves_preset() {
    let a = app("2030-12-31 00:00", "br", now(1924905600));
    let presets = vec![Preset::new("br".to_string(), "%d/%m/%Y".to_string())];
    let out = run(&a, &presets);
    assert_eq!(out, "31/12/2030");
}

#[test]
fn invalid_date_expression() {
    let a = app("$$$", "%Y", now(1735732800));
    let res = process(&a, &[]);
    assert!(res.is_err());
}
