use project::max_level;
use project::run;
use project::CliArgs;
use project::Config;
use project::Level;
use project::LogLine;

fn line(level: Level, message: &str) -> LogLine {
    LogLine { level, message: String::from(message) }
}

#[test]
fn config_takes_both_fields_from_the_arguments() {
    let args = CliArgs { verbose: true, config: Some(String::from("app.toml")) };
    let config = Config::from_cli_args(args);
    assert!(config.verbose);
    assert_eq!(config.config_path, Some(String::from("app.toml")));
}

#[test]
fn absent_flags_give_false_and_none() {
    let config = Config::from_cli_args(CliArgs { verbose: false, config: None });
    assert!(!config.verbose);
    assert_eq!(config.config_path, None);
}

#[test]
fn max_level_follows_the_verbose_flag() {
    assert_eq!(max_level(true), Level::Debug);
    assert_eq!(max_level(false), Level::Info);
}

#[test]
fn run_without_arguments_prints_the_greeting_line() {
    let config = Config::from_cli_args(CliArgs { verbose: false, config: None });
    let report = run(&config).unwrap();
    assert_eq!(report.output, "Hello, world!");
    assert_eq!(report.printed_text(), "Hello, world!\n");
    assert_eq!(report.log, vec![line(Level::Info, "Starting application")]);
}

#[test]
fn verbose_run_logs_a_debug_line() {
    let config = Config::from_cli_args(CliArgs { verbose: true, config: None });
    let report = run(&config).unwrap();
    assert_eq!(report.output, "Hello, world!");
    assert_eq!(
        report.log,
        vec![
            line(Level::Info, "Starting application"),
            line(Level::Debug, "Verbose logging enabled"),
        ]
    );
    assert!(report.log.iter().any(|l| l.level == Level::Debug));
}

#[test]
fn quiet_run_logs_no_debug_line() {
    let config = Config { verbose: false, config_path: Some(String::from("somepath")) };
    let report = run(&config).unwrap();
    assert!(report.log.iter().all(|l| l.level == Level::Info));
}

#[test]
fn run_with_config_reports_the_path() {
    let config = Config::from_cli_args(CliArgs {
        verbose: false,
        config: Some(String::from("somepath")),
    });
    let report = run(&config).unwrap();
    assert_eq!(report.output, "Hello, world!");
    assert_eq!(
        report.log,
        vec![
            line(Level::Info, "Starting application"),
            line(Level::Info, "Using config file: somepath"),
        ]
    );
}

#[test]
fn run_with_a_missing_config_file_still_succeeds() {
    let config = Config {
        verbose: false,
        config_path: Some(String::from("/no/such/dir/anywhere.toml")),
    };
    let report = run(&config).unwrap();
    assert_eq!(report.printed_text(), "Hello, world!\n");
}

#[test]
fn verbose_run_with_config_logs_three_lines_in_order() {
    let config = Config { verbose: true, config_path: Some(String::from("a b.toml")) };
    let report = run(&config).unwrap();
    assert_eq!(
        report.log,
        vec![
            line(Level::Info, "Starting application"),
            line(Level::Debug, "Verbose logging enabled"),
            line(Level::Info, "Using config file: a b.toml"),
        ]
    );
}

#[test]
fn empty_config_path_is_reported_as_it_is() {
    let config = Config { verbose: false, config_path: Some(String::new()) };
    let report = run(&config).unwrap();
    assert_eq!(report.log.len(), 2);
    assert_eq!(report.log[1].message, "Using config file: ");
}
