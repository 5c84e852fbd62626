use crate::clock::today_stamp;
use crate::config::{strings_view, Config, ConfigView};
use crate::error::FtailError;
use crate::formatters::default::{is_line_of, DefaultFormatter};
use crate::formatters::Formatter;
use crate::helpers::{backup_name, exceeds_max_file_size, first_free, first_free_backup, rotation_due, WritePlan};
use crate::level::Level;
use crate::record::Record;
use vstd::prelude::*;

verus! {

/// The file of the day `date` in the directory `dir`: `<dir>/<date>.log`.
pub open spec fn daily_path(dir: Seq<char>, date: Seq<char>) -> Seq<char> {
    dir + "/"@ + date + ".log"@
}

/// The file of the day `date` in the directory `dir`.
pub fn daily_file_path(dir: &str, date: &str) -> (r: String)
    ensures
        r@ == daily_path(dir@, date@),
{
    let mut s = dir.to_string();
    s.append("/");
    s.append(date);
    s.append(".log");
    s
}

/// A driver that appends one line per record to the file of the current day,
/// rotating it by size.
pub struct DailyFileLogger {
    dir: String,
    current_date: String,
    config: Config,
}

impl DailyFileLogger {
    pub closed spec fn dir(&self) -> Seq<char> {
        self.dir@
    }

    /// The day of the file being written.
    pub closed spec fn current_date(&self) -> Seq<char> {
        self.current_date@
    }

    pub closed spec fn config(&self) -> ConfigView {
        self.config@
    }

    /// The file being written.
    pub open spec fn active_path(&self) -> Seq<char> {
        daily_path(self.dir(), self.current_date())
    }

    /// A driver for the directory `dir`, starting with the file of the day `today`;
    /// refused where the directory is read-only.
    pub fn new_on(dir: &str, config: Config, read_only: bool, today: &str) -> (r: Result<DailyFileLogger, FtailError>)
        ensures
            r is Err <==> read_only,
            r is Err ==> (r matches Err(FtailError::PermissionsError(p)) && p@ == dir@),
            r is Ok ==> {
                &&& r.unwrap().dir() == dir@
                &&& r.unwrap().config() == config@
                &&& r.unwrap().current_date() == today@
                &&& r.unwrap().active_path() == daily_path(dir@, today@)
            },
    {
        if read_only {
            return Err(FtailError::PermissionsError(dir.to_string()));
        }
        Ok(DailyFileLogger { dir: dir.to_string(), current_date: today.to_string(), config })
    }

    /// A driver for the directory `dir`, starting with today's file; refused where
    /// the directory is read-only.
    pub fn new(dir: &str, config: Config, read_only: bool) -> (r: Result<DailyFileLogger, FtailError>)
        ensures
            r is Err <==> read_only,
            r is Err ==> (r matches Err(FtailError::PermissionsError(p)) && p@ == dir@),
            r is Ok ==> r.unwrap().dir() == dir@ && r.unwrap().config() == config@,
    {
        let today = today_stamp();
        DailyFileLogger::new_on(dir, config, read_only, today.as_str())
    }

    /// The file being written.
    pub fn file_path(&self) -> (r: String)
        ensures
            r@ == self.active_path(),
    {
        daily_file_path(self.dir.as_str(), self.current_date.as_str())
    }

    /// The name the file being written takes when it is rotated, the files
    /// `existing` being there already: the first backup name that is free.
    pub fn free_backup_path(&self, existing: &Vec<String>) -> (r: String)
        ensures
            exists|n: nat| #[trigger] first_free(self.active_path(), strings_view(*existing), n) && r@ == backup_name(
                self.active_path(),
                n,
            ),
    {
        let path = self.file_path();
        first_free_backup(path.as_str(), existing)
    }

    /// Whether the driver's threshold admits `level`.
    pub fn enabled(&self, level: Level) -> (r: bool)
        ensures
            r == self.config().level_filter.spec_admits(level),
    {
        self.config.level_filter.admits(level)
    }

    /// Moves on to the file of `today` where the day changed, and says which file to open.
    pub fn rotate_daily_file(&mut self, today: &str) -> (r: Option<String>)
        ensures
            final(self).dir() == old(self).dir(),
            final(self).config() == old(self).config(),
            final(self).current_date() == today@,
            r is Some <==> old(self).current_date() != today@,
            r is Some ==> r.unwrap()@ == daily_path(old(self).dir(), today@),
    {
        if self.current_date == today.to_string() {
            return None;
        }
        self.current_date = today.to_string();
        Some(self.file_path())
    }

    /// What to do with `line` on the day `today`, the file being written being
    /// `file_size` bytes long: where the day changed, open today's file and write
    /// there; else rotate the file first where it exceeds the maximum size. The line
    /// is written once either way.
    pub fn plan_write(&mut self, today: &str, file_size: u64, line: String) -> (r: WritePlan)
        ensures
            final(self).dir() == old(self).dir(),
            final(self).config() == old(self).config(),
            final(self).current_date() == today@,
            final(self).active_path() == daily_path(old(self).dir(), today@),
            r.switch_to is Some <==> old(self).current_date() != today@,
            r.switch_to is Some ==> r.switch_to.unwrap()@ == daily_path(old(self).dir(), today@),
            r.rotate == (r.switch_to is None && rotation_due(old(self).config().max_file_size, file_size)),
            r.line@ == line@,
    {
        let switch_to = self.rotate_daily_file(today);
        let rotate = switch_to.is_none() && exceeds_max_file_size(&self.config, file_size);
        WritePlan { switch_to, rotate, line }
    }

    /// What to do for `record`, the file being written being `file_size` bytes long:
    /// nothing where the driver does not take it; else as `plan_write` says for the
    /// record's line on the current day.
    pub fn log(&mut self, record: &Record, file_size: u64) -> (r: Option<WritePlan>)
        ensures
            r.is_some() == old(self).config().level_filter.spec_admits(record.level),
            final(self).dir() == old(self).dir(),
            final(self).config() == old(self).config(),
            r is None ==> final(self).current_date() == old(self).current_date(),
            r is Some ==> {
                &&& r.unwrap().switch_to is Some <==> old(self).current_date() != final(self).current_date()
                &&& r.unwrap().switch_to is Some ==> r.unwrap().switch_to.unwrap()@ == final(self).active_path()
                &&& r.unwrap().rotate == (r.unwrap().switch_to is None && rotation_due(
                    old(self).config().max_file_size,
                    file_size,
                ))
                &&& is_line_of(r.unwrap().line@, *record, old(self).config())
            },
    {
        if !self.enabled(record.level) {
            return None;
        }
        let line = DefaultFormatter::new(record, &self.config).format();
        let today = today_stamp();
        Some(self.plan_write(today.as_str(), file_size, line))
    }
}

} // verus!
