use crate::config::{strings_view, Config, ConfigView};
use crate::error::FtailError;
use crate::formatters::default::{is_line_of, DefaultFormatter};
use crate::formatters::Formatter;
use crate::helpers::{backup_name, exceeds_max_file_size, first_free, first_free_backup, rotation_due, WritePlan};
use crate::level::Level;
use crate::record::Record;
use vstd::prelude::*;

verus! {

/// A driver that appends one line per record to a file at a fixed path, rotating
/// it by size.
pub struct SingleFileLogger {
    file_path: String,
    config: Config,
}

impl SingleFileLogger {
    pub closed spec fn path(&self) -> Seq<char> {
        self.file_path@
    }

    pub closed spec fn config(&self) -> ConfigView {
        self.config@
    }

    /// A driver for the file at `path`; refused where that file is read-only.
    pub fn new(path: &str, config: Config, read_only: bool) -> (r: Result<SingleFileLogger, FtailError>)
        ensures
            r is Err <==> read_only,
            r is Err ==> (r matches Err(FtailError::PermissionsError(p)) && p@ == path@),
            r is Ok ==> r.unwrap().path() == path@ && r.unwrap().config() == config@,
    {
        if read_only {
            return Err(FtailError::PermissionsError(path.to_string()));
        }
        Ok(SingleFileLogger { file_path: path.to_string(), config })
    }

    /// The file written to.
    pub fn file_path(&self) -> (r: &str)
        ensures
            r@ == self.path(),
    {
        self.file_path.as_str()
    }

    /// The name the file takes when it is rotated, the files `existing` being there
    /// already: the first backup name that is free.
    pub fn free_backup_path(&self, existing: &Vec<String>) -> (r: String)
        ensures
            exists|n: nat| #[trigger] first_free(self.path(), strings_view(*existing), n) && r@ == backup_name(self.path(), n),
    {
        let path = self.file_path.as_str();
        assert(path@ == self.path());
        first_free_backup(path, existing)
    }

    /// Whether the driver's threshold admits `level`.
    pub fn enabled(&self, level: Level) -> (r: bool)
        ensures
            r == self.config().level_filter.spec_admits(level),
    {
        self.config.level_filter.admits(level)
    }

    /// What to do for `record`, the file being `file_size` bytes long: nothing where
    /// the driver does not take it; else rotate the file first where it exceeds the
    /// maximum size, and append the record's line.
    pub fn log(&self, record: &Record, file_size: u64) -> (r: Option<WritePlan>)
        ensures
            r.is_some() == self.config().level_filter.spec_admits(record.level),
            r.is_some() ==> {
                &&& r.unwrap().switch_to.is_none()
                &&& r.unwrap().rotate == rotation_due(self.config().max_file_size, file_size)
                &&& is_line_of(r.unwrap().line@, *record, self.config())
            },
    {
        if !self.enabled(record.level) {
            return None;
        }
        let rotate = exceeds_max_file_size(&self.config, file_size);
        let line = DefaultFormatter::new(record, &self.config).format();
        Some(WritePlan { switch_to: None, rotate, line })
    }
}

} // verus!
