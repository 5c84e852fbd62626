use crate::config::{Config, ConfigView};
use crate::formatters::readable::{is_block_of, ReadableFormatter};
use crate::formatters::Formatter;
use crate::level::Level;
use crate::record::Record;
use vstd::prelude::*;

verus! {

/// A driver that prints a styled block of lines per record.
pub struct FormattedConsoleLogger {
    config: Config,
}

impl FormattedConsoleLogger {
    pub closed spec fn config(&self) -> ConfigView {
        self.config@
    }

    pub fn new(config: Config) -> (r: FormattedConsoleLogger)
        ensures
            r.config() == config@,
    {
        FormattedConsoleLogger { config }
    }

    /// Whether the driver's threshold admits `level`.
    pub fn enabled(&self, level: Level) -> (r: bool)
        ensures
            r == self.config().level_filter.spec_admits(level),
    {
        self.config.level_filter.admits(level)
    }

    /// The block printed for `record`, where the driver takes it.
    pub fn log(&self, record: &Record) -> (r: Option<String>)
        ensures
            r.is_some() == self.config().level_filter.spec_admits(record.level),
            r.is_some() ==> is_block_of(r.unwrap()@, *record, self.config()),
    {
        if !self.enabled(record.level) {
            return None;
        }
        let formatter = ReadableFormatter::new(record, &self.config);
        Some(formatter.format())
    }
}

} // verus!
