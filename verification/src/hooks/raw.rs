//! The raw hook: prints the payload, verbatim, to standard output.

use vstd::prelude::*;

use crate::hooks::Action;

verus! {

/// Settings for the raw hook: it has none.
#[derive(Debug, PartialEq)]
pub struct RawConf {}

impl RawConf {
    /// Builds the runtime hook.
    pub fn convert(&self) -> (r: Raw) {
        Raw {  }
    }
}

/// Prints the payload directly to standard output, with a line terminator.
#[derive(Debug, PartialEq)]
pub struct Raw {}

impl Raw {
    /// The action one run performs: the payload, as one printed line.
    pub fn plan(&self, data: &str) -> (a: Action)
        ensures
            a matches Action::PrintLine { text } && text@ == data@,
    {
        Action::PrintLine { text: data.to_owned() }
    }
}

} // verus!
