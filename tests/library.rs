use ftail::ansi_escape::{GeneratedTextStyling, StyleCode, TextStyling};
use ftail::clock::datetime_at;
use ftail::decimal::decimal_string;
use ftail::drivers::console::ConsoleLogger;
use ftail::drivers::daily_file::{daily_file_path, DailyFileLogger};
use ftail::drivers::formatted_console::FormattedConsoleLogger;
use ftail::drivers::single_file::SingleFileLogger;
use ftail::drivers::stdout::StdOutLogger;
use ftail::drivers::test::TestLogger;
use ftail::formatters::default::{line_at, DefaultFormatter};
use ftail::formatters::readable::ReadableFormatter;
use ftail::formatters::Formatter;
use ftail::error::io_error_message;
use ftail::helpers::{backup_path, exceeds_max_file_size, first_free_backup};
use ftail::{Config, DriverKind, Ftail, FtailError, Level, LevelFilter, Record};

struct Silent;

impl log::Log for Silent {
    fn enabled(&self, _metadata: &log::Metadata) -> bool {
        false
    }

    fn log(&self, _record: &log::Record) {}

    fn flush(&self) {}
}

fn timestamp_shape(s: &str) -> bool {
    let b = s.as_bytes();
    b.len() == 19
        && b.iter().enumerate().all(|(i, c)| match i {
            4 | 7 => *c == b'-',
            10 => *c == b' ',
            13 | 16 => *c == b':',
            _ => c.is_ascii_digit(),
        })
}

#[test]
fn level_names_and_thresholds() {
    assert_eq!(Level::Error.as_str(), "ERROR");
    assert_eq!(Level::Warn.to_string(), "WARN");
    assert_eq!(Level::Trace.as_str(), "TRACE");
    assert!(LevelFilter::Off.admits(Level::Trace));
    assert!(LevelFilter::Warn.admits(Level::Error));
    assert!(LevelFilter::Warn.admits(Level::Warn));
    assert!(!LevelFilter::Warn.admits(Level::Info));
    assert!(LevelFilter::Trace.admits(Level::Trace));
    assert!(!LevelFilter::Error.admits(Level::Debug));
}

#[test]
fn decimal_rendering() {
    assert_eq!(decimal_string(0), "0");
    assert_eq!(decimal_string(7), "7");
    assert_eq!(decimal_string(12345), "12345");
    assert_eq!(decimal_string(u64::MAX), "18446744073709551615");
}

#[test]
fn nested_styles_and_numbers() {
    assert_eq!("INFO".bold().green().to_string(), "\x1b[32m\x1b[1mINFO\x1b[0m\x1b[0m");
    assert_eq!(42u32.black().to_string(), "\x1b[30m42\x1b[0m");
    assert_eq!(String::from("x").style(StyleCode::bg_bright_white).to_string(), "\x1b[107mx\x1b[0m");
    assert_eq!(StyleCode::strikethrough.code(), 9);
}

#[test]
fn default_line_is_exact() {
    let record = Record::new(Level::Error, "foo", "bar");
    assert_eq!(line_at("2024-09-13 17:35:18", &record), "2024-09-13 17:35:18 ERROR foo bar");
    let config = Config::new();
    let formatter = DefaultFormatter::new(&record, &config);
    assert_eq!(formatter.format_at("T"), "T ERROR foo bar");
}

#[test]
fn default_formatter_stamps_the_current_time() {
    let record = Record::new(Level::Info, "foo", "bar");
    let config = Config::default();
    let line = DefaultFormatter::new(&record, &config).format();
    assert!(line.ends_with(" INFO foo bar"));
    let stamp = &line[..line.len() - " INFO foo bar".len()];
    assert!(timestamp_shape(stamp), "unexpected timestamp {:?}", stamp);
}

#[test]
fn error_record_without_timestamp() {
    let record = Record::new(Level::Error, "foo", "bar");
    let config = Config::default();
    let line = DefaultFormatter::new(&record, &config).format();
    assert_eq!(&line[20..], "ERROR foo bar");
}

#[test]
fn timestamps_use_the_configured_zone() {
    // 2024-07-01 00:00:00 UTC, winter in Sydney and summer in Berlin.
    let secs: i64 = 1_719_792_000;
    assert_eq!(datetime_at(secs, 0, "%Z", "Australia/Sydney"), "AEST");
    assert_eq!(datetime_at(secs, 0, "%Y-%m-%d %H:%M:%S", "Australia/Sydney"), "2024-07-01 10:00:00");
    assert_eq!(datetime_at(secs, 0, "%H:%M", "Europe/Berlin"), "02:00");
    assert_eq!(datetime_at(secs, 0, "%H:%M", "UTC"), "00:00");
    assert_eq!(datetime_at(secs, 0, "%H:%M", "Nowhere/Unknown"), "%H:%M");
    let record = Record::new(Level::Debug, "test", "Hello, world!");
    let config = Config::new();
    let stamp = datetime_at(secs, 0, "%Z", "Australia/Sydney");
    assert_eq!(
        DefaultFormatter::new(&record, &config).format_at(&stamp),
        "AEST DEBUG test Hello, world!"
    );
}

#[test]
fn logged_line_uses_the_configured_zone() {
    let record = Record::new(Level::Info, "t", "m");
    let config = Config { datetime_format: "%z".to_string(), timezone: "Asia/Kolkata".to_string(), ..Config::new() };
    assert_eq!(DefaultFormatter::new(&record, &config).format(), "+0530 INFO t m");
}

#[test]
fn unrenderable_pattern_is_shown_as_is() {
    let record = Record::new(Level::Warn, "t", "m");
    let config = Config { datetime_format: "%Q".to_string(), ..Config::new() };
    assert_eq!(DefaultFormatter::new(&record, &config).format(), "%Q WARN t m");
}

#[test]
fn readable_block_is_exact() {
    let config = Config::new();
    let plain = Record::new(Level::Warn, "t", "hello");
    assert_eq!(
        ReadableFormatter::new(&plain, &config).format_at("D"),
        "\x1b[30mD\x1b[0m · \x1b[33m\x1b[1mWARN\x1b[0m\x1b[0m\n\x1b[1mhello\x1b[0m\n"
    );
    let located = Record::new(Level::Trace, "t", "hi").with_location("src/main.rs", 9);
    assert_eq!(
        ReadableFormatter::new(&located, &config).format_at("D"),
        "\x1b[30mD\x1b[0m · \x1b[30m\x1b[1mTRACE\x1b[0m\x1b[0m\n\x1b[1mhi\x1b[0m\n\
         \x1b[30msrc/main.rs\x1b[0m\x1b[30m:\x1b[0m\x1b[30m9\x1b[0m\n"
    );
}

#[test]
fn init_without_drivers_fails() {
    let r = Ftail::new().datetime_format("%H").init();
    assert!(matches!(r, Err(FtailError::NoDriversError)));
}

#[test]
fn init_resolves_each_driver() {
    let ftail = Ftail::new()
        .console(LevelFilter::Debug)
        .single_file("logs/demo.log", true, LevelFilter::Error)
        .max_file_size(2)
        .init()
        .unwrap();
    let drivers = ftail.drivers();
    assert_eq!(drivers.len(), 2);
    assert!(matches!(drivers[0].kind, DriverKind::Console));
    assert_eq!(drivers[0].config.level_filter, LevelFilter::Debug);
    assert_eq!(drivers[1].config.level_filter, LevelFilter::Error);
    assert_eq!(drivers[1].config.max_file_size, Some(2 * 1024 * 1024));
    match &drivers[1].kind {
        DriverKind::SingleFile { path, append } => {
            assert_eq!(path, "logs/demo.log");
            assert!(*append);
        }
        _ => panic!("wrong driver kind"),
    }
}

#[test]
fn routing_follows_filters_and_thresholds() {
    let ftail = Ftail::new()
        .console(LevelFilter::Error)
        .custom(7, LevelFilter::Trace)
        .custom(8, LevelFilter::Off)
        .filter_levels(vec![Level::Error, Level::Debug])
        .filter_targets(vec!["foo", "bar"])
        .init()
        .unwrap();
    assert_eq!(ftail.log(&Record::new(Level::Error, "foo", "m")), vec![0, 1, 2]);
    assert_eq!(ftail.log(&Record::new(Level::Debug, "bar", "m")), vec![1, 2]);
    assert!(ftail.log(&Record::new(Level::Warn, "foo", "m")).is_empty());
    assert!(ftail.log(&Record::new(Level::Error, "baz", "m")).is_empty());
}

#[test]
fn routing_keeps_registration_order() {
    let ftail = Ftail::new().custom(1, LevelFilter::Info).console(LevelFilter::Info).init().unwrap();
    assert_eq!(ftail.log(&Record::new(Level::Info, "x", "y")), vec![0, 1]);
}

#[test]
fn enabled_needs_a_willing_admitting_driver() {
    let ftail = Ftail::new().console(LevelFilter::Error).custom(3, LevelFilter::Trace).init().unwrap();
    let t = "t".to_string();
    assert!(ftail.enabled(Level::Debug, &t, &vec![true, true]));
    assert!(!ftail.enabled(Level::Debug, &t, &vec![true, false]));
    assert!(ftail.enabled(Level::Error, &t, &vec![true, false]));
    assert!(!ftail.enabled(Level::Error, &t, &vec![false, false]));
}

#[test]
fn enabled_applies_global_allow_lists() {
    let ftail = Ftail::new()
        .custom(0, LevelFilter::Off)
        .filter_levels(vec![Level::Error])
        .filter_targets(vec!["foo"])
        .init()
        .unwrap();
    assert!(ftail.enabled(Level::Error, &"foo".to_string(), &vec![true]));
    assert!(!ftail.enabled(Level::Warn, &"foo".to_string(), &vec![true]));
    assert!(!ftail.enabled(Level::Error, &"bar".to_string(), &vec![true]));
}

#[test]
fn global_filters() {
    let ftail = Ftail::new().filter_levels(vec![Level::Error]).filter_targets(vec!["foo"]);
    assert!(ftail.passes(Level::Error, &"foo".to_string()));
    assert!(!ftail.passes(Level::Warn, &"foo".to_string()));
    assert!(!ftail.passes(Level::Error, &"bar".to_string()));
    assert!(Ftail::default().passes(Level::Trace, &"any".to_string()));
}

#[test]
fn backup_names() {
    assert_eq!(backup_path("logs/app.log", 0), "logs/app.log.old");
    assert_eq!(backup_path("logs/app.log", 1), "logs/app.log.old1");
    assert_eq!(backup_path("logs/app.log", 12), "logs/app.log.old12");
}

#[test]
fn first_free_backup_name() {
    assert_eq!(first_free_backup("a.log", &Vec::new()), "a.log.old");
    let taken = vec!["a.log.old".to_string(), "a.log.old1".to_string(), "b.log.old2".to_string()];
    assert_eq!(first_free_backup("a.log", &taken), "a.log.old2");
    let gap = vec!["a.log.old1".to_string()];
    assert_eq!(first_free_backup("a.log", &gap), "a.log.old");
}

#[test]
fn daily_constructors_record_the_day() {
    let logger = DailyFileLogger::new_on("logs", Config::new(), false, "2024-09-13").unwrap();
    assert_eq!(logger.file_path(), "logs/2024-09-13.log");
    let legacy = ftail::drivers::daily::DailyLogger::new_on("d", "2024-09-13");
    assert_eq!(legacy.file_path(), "d/2024-09-13.log");
    let today = chrono::Local::now().format("%Y-%m-%d").to_string();
    let current = DailyFileLogger::new("logs", Config::new(), false).unwrap();
    assert_eq!(current.file_path(), format!("logs/{}.log", today));
}

#[test]
fn rotation_takes_the_next_free_backup() {
    let config = Config { max_file_size: Some(10), ..Config::new() };
    let logger = SingleFileLogger::new("logs/demo.log", config, false).unwrap();
    let plan = logger.log(&Record::new(Level::Info, "t", "m"), 11).unwrap();
    assert!(plan.rotate);
    let existing = vec!["logs/demo.log.old".to_string(), "logs/demo.log.old1".to_string()];
    assert_eq!(logger.free_backup_path(&existing), "logs/demo.log.old2");
}

#[test]
fn rotation_threshold() {
    let config = Config { max_file_size: Some(100), ..Config::new() };
    assert!(!exceeds_max_file_size(&config, 100));
    assert!(exceeds_max_file_size(&config, 101));
    assert!(!exceeds_max_file_size(&Config::new(), u64::MAX));
}

#[test]
fn single_file_plans_rotation() {
    let config = Config { max_file_size: Some(10), level_filter: LevelFilter::Info, ..Config::new() };
    let logger = SingleFileLogger::new("app.log", config, false).unwrap();
    assert_eq!(logger.file_path(), "app.log");
    let existing = vec!["app.log.old".to_string(), "app.log.old1".to_string(), "app.log.old3".to_string()];
    assert_eq!(logger.free_backup_path(&existing), "app.log.old2");
    let record = Record::new(Level::Info, "t", "m");
    let small = logger.log(&record, 10).unwrap();
    assert!(!small.rotate);
    assert!(small.switch_to.is_none());
    assert!(small.line.ends_with(" INFO t m"));
    let large = logger.log(&record, 11).unwrap();
    assert!(large.rotate);
    assert!(logger.log(&Record::new(Level::Debug, "t", "m"), 11).is_none());
}

#[test]
fn read_only_destinations_are_refused() {
    match SingleFileLogger::new("ro.log", Config::new(), true) {
        Err(FtailError::PermissionsError(p)) => assert_eq!(p, "ro.log"),
        _ => panic!("expected a permissions error"),
    }
    match DailyFileLogger::new("ro", Config::new(), true) {
        Err(FtailError::PermissionsError(p)) => assert_eq!(p, "ro"),
        _ => panic!("expected a permissions error"),
    }
}

#[test]
fn daily_rollover_switches_file() {
    let mut logger = DailyFileLogger::new("logs", Config::new(), false).unwrap();
    let first = logger.plan_write("1999-12-31", 0, "a".to_string());
    assert_eq!(first.switch_to.as_deref(), Some("logs/1999-12-31.log"));
    assert!(!first.rotate);
    assert_eq!(first.line, "a");
    assert_eq!(logger.file_path(), "logs/1999-12-31.log");
    let same = logger.plan_write("1999-12-31", 0, "b".to_string());
    assert!(same.switch_to.is_none());
    assert_eq!(same.line, "b");
    let next = logger.plan_write("2000-01-01", 0, "c".to_string());
    assert_eq!(next.switch_to.as_deref(), Some("logs/2000-01-01.log"));
    assert_eq!(logger.free_backup_path(&Vec::new()), "logs/2000-01-01.log.old");
    assert_eq!(daily_file_path("d", "2024-09-13"), "d/2024-09-13.log");
}

#[test]
fn daily_rotation_by_size_without_day_change() {
    let config = Config { max_file_size: Some(5), ..Config::new() };
    let mut logger = DailyFileLogger::new("logs", config, false).unwrap();
    let _ = logger.plan_write("2024-01-01", 0, "x".to_string());
    let plan = logger.plan_write("2024-01-01", 6, "y".to_string());
    assert!(plan.switch_to.is_none());
    assert!(plan.rotate);
}

#[test]
fn console_drivers_render_when_admitted() {
    let console = ConsoleLogger::new(Config { level_filter: LevelFilter::Warn, ..Config::new() });
    assert!(console.log(&Record::new(Level::Info, "t", "m")).is_none());
    assert!(console.log(&Record::new(Level::Error, "t", "m")).unwrap().ends_with(" ERROR t m"));
    let formatted = FormattedConsoleLogger::new(Config::new());
    assert!(formatted.enabled(Level::Trace));
    assert!(formatted.log(&Record::new(Level::Info, "t", "m")).unwrap().contains("\x1b[1mm\x1b[0m\n"));
    let stdout = StdOutLogger {};
    assert!(stdout.log(&Record::new(Level::Debug, "t", "m")).ends_with(" DEBUG t m"));
}

#[test]
fn test_logger_keeps_admitted_lines() {
    let mut logger = TestLogger::new(Config { level_filter: LevelFilter::Info, ..Config::new() });
    logger.log(&Record::new(Level::Debug, "t", "dropped"));
    logger.log(&Record::new(Level::Info, "t", "kept"));
    assert_eq!(logger.buffer.len(), 1);
    assert!(logger.buffer[0].ends_with(" INFO t kept"));
}

#[test]
fn error_messages() {
    assert_eq!(FtailError::NoDriversError.to_string(), "No drivers were added to the logger");
    assert_eq!(
        FtailError::PermissionsError("logs".to_string()).to_string(),
        "The path logs is read-only"
    );
    let io = std::io::Error::new(std::io::ErrorKind::Other, "disk full");
    assert_eq!(FtailError::IoError(io).to_string(), "I/O error: disk full");
    assert_eq!(io_error_message("no space"), "I/O error: no space");
    let _ = log::set_logger(Box::leak(Box::new(Silent)));
    let e = log::set_logger(Box::leak(Box::new(Silent))).unwrap_err();
    assert_eq!(
        FtailError::SetLoggerError(e).to_string(),
        "Error setting logger: attempted to set a logger after the logging system was already initialized"
    );
}

#[test]
fn config_copies_keep_settings() {
    let config = Config {
        targets: Some(vec!["a".to_string()]),
        levels: Some(vec![Level::Warn]),
        ..Config::new()
    };
    let copy = config.resolved(LevelFilter::Debug);
    assert_eq!(copy.level_filter, LevelFilter::Debug);
    assert_eq!(copy.targets, config.targets);
    assert_eq!(copy.levels, config.levels);
    assert_eq!(copy.datetime_format, "%Y-%m-%d %H:%M:%S");
    assert_eq!(copy.timezone, "UTC");
    assert_eq!(config.clone().timezone, config.timezone);
}
