use crate::ansi_escape::{ansi_styled, Style, TextStyling};
use crate::clock::shown_datetime;
use crate::config::{Config, ConfigView};
use crate::decimal::decimal;
use crate::formatters::Formatter;
use crate::level::Level;
use crate::record::Record;
use crate::writer::LogWriter;
use vstd::prelude::*;

verus! {

/// The colour a level is shown in: black, blue, green, yellow or red.
pub open spec fn level_color(level: Level) -> u8 {
    match level {
        Level::Trace => 30,
        Level::Debug => 34,
        Level::Info => 32,
        Level::Warn => 33,
        Level::Error => 31,
    }
}

/// The `file:line` line of a record, in black; empty where either is unknown.
pub open spec fn location_line(record: Record) -> Seq<char> {
    if record.file.is_some() && record.line.is_some() {
        ansi_styled(30, record.file.unwrap()@) + ansi_styled(30, ":"@) + ansi_styled(
            30,
            decimal(record.line.unwrap() as nat),
        ) + "\n"@
    } else {
        Seq::empty()
    }
}

/// The multi-line form of a record: the datetime and the bold, coloured level; the
/// bold message; the source location where it is known.
pub open spec fn readable_block(datetime: Seq<char>, record: Record) -> Seq<char> {
    ansi_styled(30, datetime) + " · "@ + ansi_styled(
        level_color(record.level),
        ansi_styled(1, record.level.name()),
    ) + "\n"@ + ansi_styled(1, record.args@) + "\n"@ + location_line(record)
}

/// `block` is the block for `record` stamped with some instant, shown in the zone
/// and pattern of `config`.
pub open spec fn is_block_of(block: Seq<char>, record: Record, config: ConfigView) -> bool {
    exists|secs: int, nanos: int|
        block == readable_block(#[trigger] shown_datetime(secs, nanos, config.datetime_format, config.timezone), record)
}

/// Renders a record as a styled block of lines.
pub struct ReadableFormatter<'a> {
    record: &'a Record,
    config: &'a Config,
}

fn styled_level(level: Level) -> (r: Style)
    ensures
        r@ == ansi_styled(level_color(level), ansi_styled(1, level.name())),
{
    let name = level.as_str();
    match level {
        Level::Trace => name.bold().black(),
        Level::Debug => name.bold().blue(),
        Level::Info => name.bold().green(),
        Level::Warn => name.bold().yellow(),
        Level::Error => name.bold().red(),
    }
}

impl<'a> ReadableFormatter<'a> {
    pub closed spec fn record(&self) -> Record {
        *self.record
    }

    pub closed spec fn config(&self) -> ConfigView {
        self.config@
    }

    pub fn new(record: &'a Record, config: &'a Config) -> (r: ReadableFormatter<'a>)
        ensures
            r.record() == *record,
            r.config() == config@,
    {
        ReadableFormatter { record, config }
    }

    /// The block for the record, stamped with `datetime`.
    pub fn format_at(&self, datetime: &str) -> (r: String)
        ensures
            r@ == readable_block(datetime@, self.record()),
    {
        let writer = LogWriter::new(self.record, self.config);
        let mut result = datetime.black().to_string();
        result.append(" · ");
        result.append(styled_level(self.record.level).to_string().as_str());
        result.append("\n");
        result.append(writer.get_args().bold().to_string().as_str());
        result.append("\n");
        let ghost head = result@;
        let file = writer.get_file();
        let line = writer.get_line();
        match (file, line) {
            (Some(f), Some(l)) => {
                result.append(f.black().to_string().as_str());
                result.append(":".black().to_string().as_str());
                result.append(l.black().to_string().as_str());
                result.append("\n");
            },
            _ => {
                assert(result@ == head + Seq::<char>::empty());
            },
        }
        result
    }
}

impl<'a> Formatter for ReadableFormatter<'a> {
    /// The block for the record, stamped with the current time in the configured
    /// zone and pattern.
    fn format(&self) -> (r: String)
        ensures
            is_block_of(r@, self.record(), self.config()),
    {
        let datetime = LogWriter::new(self.record, self.config).get_datetime();
        let r = self.format_at(datetime.as_str());
        proof {
            let (secs, nanos) = choose|secs: int, nanos: int|
                datetime@ == #[trigger] shown_datetime(secs, nanos, self.config().datetime_format, self.config().timezone);
            assert(r@ == readable_block(
                shown_datetime(secs, nanos, self.config().datetime_format, self.config().timezone),
                self.record(),
            ));
        }
        r
    }
}

} // verus!
