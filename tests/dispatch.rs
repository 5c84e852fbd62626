use ftail::drivers::test::TestLogger;
use ftail::{Config, Ftail, Level, LevelFilter, Record};

fn remove_datetime_from_message(message: String, config: Config) -> String {
    let timezone: chrono_tz::Tz = config.timezone.parse().unwrap();
    let datetime = chrono::Local::now()
        .with_timezone(&timezone)
        .format(&config.datetime_format)
        .to_string();

    if message.is_empty() {
        return message;
    }

    let len = datetime.len() + 1;

    message[len..].to_string()
}

fn get_message_from_logger(config: &Config, level: Level, target: &str, args: &str) -> String {
    let mut ftail = Ftail::new()
        .custom(0, config.level_filter)
        .datetime_format(&config.datetime_format)
        .timezone(&config.timezone);

    if let Some(levels) = config.levels.clone() {
        ftail = ftail.filter_levels(levels);
    }

    if let Some(targets) = &config.targets {
        ftail = ftail.filter_targets(targets.iter().map(|t| t.as_str()).collect());
    }

    let ftail = ftail.init().unwrap();

    let mut logger = TestLogger::new(config.clone());
    let record = Record::new(level, target, args);

    for _ in ftail.log(&record) {
        logger.log(&record);
    }

    logger.buffer.join("\n")
}

#[test]
fn it_can_log_message() {
    let config = Config::default();

    let message = get_message_from_logger(&config, Level::Debug, "test", "Hello, world!");
    let message_without_datetime = remove_datetime_from_message(message, config);

    assert_eq!(message_without_datetime, "DEBUG test Hello, world!");
}

#[test]
fn it_can_log_message_with_custom_datetime_format() {
    let config = Config {
        datetime_format: "%Y-%m-%d %H:%M:%S%.3f".to_string(),
        ..Default::default()
    };

    let message = get_message_from_logger(&config, Level::Debug, "test", "Hello, world!");
    let message_without_datetime = remove_datetime_from_message(message, config);

    assert_eq!(message_without_datetime, "DEBUG test Hello, world!");
}

#[test]
fn it_does_not_log_message_with_lower_level_than_level_filter() {
    let config = Config {
        level_filter: LevelFilter::Error,
        ..Default::default()
    };

    let message = get_message_from_logger(&config, Level::Debug, "test", "Hello, world!");

    assert_eq!(message, "");
}

#[test]
fn it_does_log_message_with_level_specified_in_levels() {
    let config = Config {
        levels: Some(vec![Level::Error]),
        ..Default::default()
    };

    let message = get_message_from_logger(&config, Level::Error, "foo", "bar");
    let message_without_datetime = remove_datetime_from_message(message, config);

    assert_eq!(message_without_datetime, "ERROR foo bar");
}

#[test]
fn it_does_not_log_message_with_level_not_specified_in_levels() {
    let config = Config {
        levels: Some(vec![Level::Error]),
        ..Default::default()
    };

    let message = get_message_from_logger(&config, Level::Warn, "foo", "bar");

    assert_eq!(message, "");
}

#[test]
fn it_does_log_message_with_target_specified_in_targets() {
    let config = Config {
        targets: Some(vec!["foo".to_string()]),
        ..Default::default()
    };

    let message = get_message_from_logger(&config, Level::Error, "foo", "bar");
    let message_without_datetime = remove_datetime_from_message(message, config);

    assert_eq!(message_without_datetime, "ERROR foo bar");
}

#[test]
fn it_does_not_log_message_with_target_not_specified_in_targets() {
    let config = Config {
        targets: Some(vec!["bar".to_string()]),
        ..Default::default()
    };

    let message = get_message_from_logger(&config, Level::Warn, "foo", "bar");

    assert_eq!(message, "");
}
