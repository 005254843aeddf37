//! The file hook: writes the raw payload verbatim to a configured output
//! file, overwriting whatever is there.

use vstd::prelude::*;

use crate::hooks::{expand_tilde, Action};

verus! {

/// Settings for the file hook, as read from the document.
#[derive(Debug, PartialEq)]
pub struct FileConf {
    pub outfile: String,
}

impl FileConf {
    /// Builds the runtime hook.
    pub fn convert(&self) -> (f: File)
        ensures
            self.outfile@.len() == 0 || self.outfile@[0] != '~' ==> f.spec_outfile()
                == self.outfile@,
    {
        File::new(self.outfile.as_str())
    }
}

/// Writes the payload to `outfile`. The configured path may use the `~`
/// home-directory shorthand, which is expanded at construction.
#[derive(Debug, PartialEq)]
pub struct File {
    outfile: String,
}

impl File {
    /// The output path, after home-directory expansion.
    pub closed spec fn spec_outfile(&self) -> Seq<char> {
        self.outfile@
    }

    /// Creates a new file hook; a path that does not use the `~` shorthand
    /// is kept exactly as configured.
    pub fn new(outfile: &str) -> (f: File)
        ensures
            outfile@.len() == 0 || outfile@[0] != '~' ==> f.spec_outfile() == outfile@,
    {
        File { outfile: expand_tilde(outfile) }
    }

    /// The action one run performs: the payload, verbatim, to the output
    /// path.
    pub fn plan(&self, data: &str) -> (a: Action)
        ensures
            a matches Action::WriteFile { path, contents } && path@ == self.spec_outfile()
                && contents@ == data@,
    {
        Action::WriteFile { path: self.outfile.clone(), contents: data.to_owned() }
    }
}

} // verus!
