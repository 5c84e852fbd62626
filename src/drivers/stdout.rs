use crate::clock::local_now;
use crate::formatters::default::{default_line, line_at};
use crate::level::Level;
use crate::record::Record;
use vstd::prelude::*;

verus! {

/// A driver without configuration that prints every record on one line, stamped
/// with the local time.
pub struct StdOutLogger {}

impl StdOutLogger {
    /// Every level is taken.
    pub fn enabled(&self, level: Level) -> (r: bool)
        ensures
            r,
    {
        true
    }

    /// The line printed for `record`.
    pub fn log(&self, record: &Record) -> (r: String)
        ensures
            exists|datetime: Seq<char>| r@ == default_line(datetime, *record),
    {
        let now = local_now("%Y-%m-%d %H:%M:%S");
        let r = line_at(now.as_str(), record);
        assert(r@ == default_line(now@, *record));
        r
    }
}

} // verus!
