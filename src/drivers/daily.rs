use crate::clock::today_stamp;
use crate::config::Config;
use crate::drivers::daily_file::{daily_file_path, daily_path};
use crate::formatters::default::{default_line, DefaultFormatter};
use crate::formatters::Formatter;
use crate::level::Level;
use crate::record::Record;
use vstd::prelude::*;

verus! {

/// A driver without configuration that appends every record to the file of the
/// current day.
pub struct DailyLogger {
    dir: String,
    current_date: String,
}

impl DailyLogger {
    pub closed spec fn dir(&self) -> Seq<char> {
        self.dir@
    }

    /// The day of the file being written.
    pub closed spec fn current_date(&self) -> Seq<char> {
        self.current_date@
    }

    /// A driver for the directory `dir`, starting with the file of the day `today`.
    pub fn new_on(dir: &str, today: &str) -> (r: DailyLogger)
        ensures
            r.dir() == dir@,
            r.current_date() == today@,
    {
        DailyLogger { dir: dir.to_string(), current_date: today.to_string() }
    }

    /// A driver for the directory `dir`, starting with today's file.
    pub fn new(dir: &str) -> (r: DailyLogger)
        ensures
            r.dir() == dir@,
    {
        let today = today_stamp();
        DailyLogger::new_on(dir, today.as_str())
    }

    /// The file being written.
    pub fn file_path(&self) -> (r: String)
        ensures
            r@ == daily_path(self.dir(), self.current_date()),
    {
        daily_file_path(self.dir.as_str(), self.current_date.as_str())
    }

    /// Moves on to the file of `today` where the day changed, and says which file to open.
    pub fn rotate_to(&mut self, today: &str) -> (r: Option<String>)
        ensures
            final(self).dir() == old(self).dir(),
            final(self).current_date() == today@,
            r is Some <==> old(self).current_date() != today@,
            r is Some ==> r.unwrap()@ == daily_path(old(self).dir(), today@),
    {
        if self.current_date == today.to_string() {
            return None;
        }
        self.current_date = today.to_string();
        Some(self.file_path())
    }

    /// Moves on to the file of the current day where the day changed, and says which
    /// file to open.
    pub fn rotate_file_if_needed(&mut self) -> (r: Option<String>)
        ensures
            final(self).dir() == old(self).dir(),
            r is Some <==> old(self).current_date() != final(self).current_date(),
            r is Some ==> r.unwrap()@ == daily_path(final(self).dir(), final(self).current_date()),
    {
        let today = today_stamp();
        self.rotate_to(today.as_str())
    }

    /// Every level is taken.
    pub fn enabled(&self, level: Level) -> (r: bool)
        ensures
            r,
    {
        true
    }

    /// The line appended for `record`, with the default settings.
    pub fn log(&self, record: &Record) -> (r: String)
        ensures
            exists|datetime: Seq<char>| r@ == default_line(datetime, *record),
    {
        let config = Config::new();
        DefaultFormatter::new(record, &config).format()
    }
}

} // verus!
