use crate::clock::shown_datetime;
use crate::config::{Config, ConfigView};
use crate::formatters::Formatter;
use crate::record::Record;
use crate::writer::LogWriter;
use vstd::prelude::*;

verus! {

/// The one-line form of a record: `<datetime> <LEVEL> <target> <message>`.
pub open spec fn default_line(datetime: Seq<char>, record: Record) -> Seq<char> {
    datetime + " "@ + record.level.name() + " "@ + record.target@ + " "@ + record.args@
}

/// `line` is the line for `record` stamped with some instant, shown in the zone and
/// pattern of `config`.
pub open spec fn is_line_of(line: Seq<char>, record: Record, config: ConfigView) -> bool {
    exists|secs: int, nanos: int|
        line == default_line(#[trigger] shown_datetime(secs, nanos, config.datetime_format, config.timezone), record)
}

/// The line for `record`, stamped with `datetime`.
pub fn line_at(datetime: &str, record: &Record) -> (r: String)
    ensures
        r@ == default_line(datetime@, *record),
{
    let mut s = datetime.to_string();
    s.append(" ");
    s.append(record.level.as_str());
    s.append(" ");
    s.append(record.target.as_str());
    s.append(" ");
    s.append(record.args.as_str());
    s
}

/// Renders a record on one line.
pub struct DefaultFormatter<'a> {
    record: &'a Record,
    config: &'a Config,
}

impl<'a> DefaultFormatter<'a> {
    pub closed spec fn record(&self) -> Record {
        *self.record
    }

    pub closed spec fn config(&self) -> ConfigView {
        self.config@
    }

    pub fn new(record: &'a Record, config: &'a Config) -> (r: DefaultFormatter<'a>)
        ensures
            r.record() == *record,
            r.config() == config@,
    {
        DefaultFormatter { record, config }
    }

    /// The line for the record, stamped with `datetime`.
    pub fn format_at(&self, datetime: &str) -> (r: String)
        ensures
            r@ == default_line(datetime@, self.record()),
    {
        line_at(datetime, self.record)
    }
}

impl<'a> Formatter for DefaultFormatter<'a> {
    /// The line for the record, stamped with the current time in the configured
    /// zone and pattern.
    fn format(&self) -> (r: String)
        ensures
            is_line_of(r@, self.record(), self.config()),
    {
        let datetime = LogWriter::new(self.record, self.config).get_datetime();
        let r = self.format_at(datetime.as_str());
        proof {
            let (secs, nanos) = choose|secs: int, nanos: int|
                datetime@ == #[trigger] shown_datetime(secs, nanos, self.config().datetime_format, self.config().timezone);
            assert(r@ == default_line(
                shown_datetime(secs, nanos, self.config().datetime_format, self.config().timezone),
                self.record(),
            ));
        }
        r
    }
}

} // verus!
