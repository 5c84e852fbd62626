use crate::clock::local_now;
use crate::formatters::default::{default_line, line_at};
use crate::level::Level;
use crate::record::Record;
use vstd::prelude::*;

verus! {

/// A driver without configuration that appends every record to one file, stamped
/// with the local time.
pub struct SingleLogger {
    path: String,
    append: bool,
}

impl SingleLogger {
    pub closed spec fn path(&self) -> Seq<char> {
        self.path@
    }

    pub closed spec fn appends(&self) -> bool {
        self.append
    }

    pub fn new(path: &str, append: bool) -> (r: SingleLogger)
        ensures
            r.path() == path@,
            r.appends() == append,
    {
        SingleLogger { path: path.to_string(), append }
    }

    /// The file written to.
    pub fn file_path(&self) -> (r: &str)
        ensures
            r@ == self.path(),
    {
        self.path.as_str()
    }

    /// Whether an existing file is appended to rather than truncated when opened.
    pub fn append(&self) -> (r: bool)
        ensures
            r == self.appends(),
    {
        self.append
    }

    /// Every level is taken.
    pub fn enabled(&self, level: Level) -> (r: bool)
        ensures
            r,
    {
        true
    }

    /// The line appended for `record`.
    pub fn log(&self, record: &Record) -> (r: String)
        ensures
            exists|datetime: Seq<char>| r@ == default_line(datetime, *record),
    {
        let now = local_now("%Y-%m-%d %H:%M:%S");
        let r = line_at(now.as_str(), record);
        assert(r@ == default_line(now@, *record));
        r
    }
}

} // verus!
