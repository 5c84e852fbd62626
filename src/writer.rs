use crate::clock::{datetime_at, shown_datetime, utc_now};
use crate::config::Config;
use crate::record::Record;
use vstd::prelude::*;

verus! {

/// Reads the parts of a record that formatters print.
pub(crate) struct LogWriter<'a> {
    pub(crate) record: &'a Record,
    pub(crate) config: &'a Config,
}

impl<'a> LogWriter<'a> {
    pub(crate) fn new(record: &'a Record, config: &'a Config) -> (r: LogWriter<'a>)
        ensures
            *r.record == *record,
            *r.config == *config,
    {
        LogWriter { record, config }
    }

    /// The current time, in the configured zone and pattern. Where it cannot be
    /// rendered, the pattern itself is shown.
    pub(crate) fn get_datetime(&self) -> (r: String)
        ensures
            exists|secs: int, nanos: int|
                r@ == #[trigger] shown_datetime(secs, nanos, self.config.datetime_format@, self.config.timezone@),
    {
        let (secs, nanos) = utc_now();
        self.datetime_at(secs, nanos)
    }

    /// The instant `secs` seconds and `nanos` nanoseconds after the epoch, in the
    /// configured zone and pattern.
    pub(crate) fn datetime_at(&self, secs: i64, nanos: u32) -> (r: String)
        ensures
            r@ == shown_datetime(secs as int, nanos as int, self.config.datetime_format@, self.config.timezone@),
    {
        datetime_at(secs, nanos, self.config.datetime_format.as_str(), self.config.timezone.as_str())
    }

    pub(crate) fn get_level(&self) -> (r: String)
        ensures
            r@ == self.record.level.name(),
    {
        self.record.level.to_string()
    }

    pub(crate) fn get_target(&self) -> (r: String)
        ensures
            r@ == self.record.target@,
    {
        self.record.target.clone()
    }

    pub(crate) fn get_args(&self) -> (r: String)
        ensures
            r@ == self.record.args@,
    {
        self.record.args.clone()
    }

    pub(crate) fn get_file(&self) -> (r: Option<String>)
        ensures
            r.is_some() == self.record.file.is_some(),
            r.is_some() ==> r.unwrap()@ == self.record.file.unwrap()@,
    {
        match &self.record.file {
            Some(f) => Some(f.clone()),
            None => None,
        }
    }

    pub(crate) fn get_line(&self) -> (r: Option<u32>)
        ensures
            r == self.record.line,
    {
        self.record.line
    }
}

} // verus!
