use crate::level::Level;
use vstd::prelude::*;

verus! {

/// One log event: its level, its target, its rendered message and, when known,
/// where in the source it was emitted.
#[derive(Clone, Debug)]
pub struct Record {
    pub level: Level,
    pub target: String,
    pub args: String,
    pub file: Option<String>,
    pub line: Option<u32>,
}

impl Record {
    /// A record without a source location.
    pub fn new(level: Level, target: &str, args: &str) -> (r: Record)
        ensures
            r.level == level,
            r.target@ == target@,
            r.args@ == args@,
            r.file.is_none(),
            r.line.is_none(),
    {
        Record { level, target: target.to_string(), args: args.to_string(), file: None, line: None }
    }

    /// The same record, emitted at `file:line`.
    pub fn with_location(self, file: &str, line: u32) -> (r: Record)
        ensures
            r.level == self.level,
            r.target@ == self.target@,
            r.args@ == self.args@,
            r.file.is_some() && r.file.unwrap()@ == file@,
            r.line == Some(line),
    {
        Record { file: Some(file.to_string()), line: Some(line), ..self }
    }
}

} // verus!
