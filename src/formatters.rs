use vstd::prelude::*;

pub mod default;
pub mod readable;

verus! {

/// Renders a record as text.
pub trait Formatter {
    fn format(&self) -> String;
}

} // verus!
