use browser_print::options::{
    drain_step, severity_of, spawn_args, GeckodriverSpawnOptions, LineRead, OutputStream, Severity,
    STARTUP_DELAY_MS,
};
use browser_print::digits::port_text;

#[test]
fn test_print_default_geckodriver_config() {
    let options = GeckodriverSpawnOptions::default();
    let mut table = toml::Table::new();
    table.insert("path".to_string(), toml::Value::String(options.path.clone()));
    table.insert("headless".to_string(), toml::Value::Boolean(options.headless));
    let text = toml::to_string(&table).unwrap();
    println!("{}", text);
}

#[test]
fn default_options_point_at_bundled_server() {
    let options = GeckodriverSpawnOptions::default();
    assert_eq!(options.path, "./dependencies/geckodriver");
    assert!(!options.headless);
}

#[test]
fn port_text_renders_decimal() {
    assert_eq!(port_text(0), "0");
    assert_eq!(port_text(9), "9");
    assert_eq!(port_text(10), "10");
    assert_eq!(port_text(4444), "4444");
    assert_eq!(port_text(6689), "6689");
    assert_eq!(port_text(65535), "65535");
}

#[test]
fn spawn_args_name_the_port() {
    assert_eq!(spawn_args(6689), vec!["--port".to_string(), "6689".to_string()]);
    assert_eq!(spawn_args(0), vec!["--port".to_string(), "0".to_string()]);
}

#[test]
fn startup_delay_is_short() {
    assert_eq!(STARTUP_DELAY_MS, 100);
}

#[test]
fn stderr_is_logged_above_stdout() {
    assert_eq!(severity_of(OutputStream::Stderr), Severity::Warn);
    assert_eq!(severity_of(OutputStream::Stdout), Severity::Debug);
}

#[test]
fn drain_logs_lines_and_stops_quietly() {
    let logged = drain_step(OutputStream::Stderr, LineRead::Line("listening".to_string()));
    assert_eq!(logged, Some((Severity::Warn, "listening".to_string())));
    let logged = drain_step(OutputStream::Stdout, LineRead::Line("ready".to_string()));
    assert_eq!(logged, Some((Severity::Debug, "ready".to_string())));
    assert_eq!(drain_step(OutputStream::Stdout, LineRead::Closed), None);
    assert_eq!(drain_step(OutputStream::Stderr, LineRead::Failed), None);
}
