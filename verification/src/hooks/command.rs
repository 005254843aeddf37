//! The command hook: fires off a shell command whenever new data arrives,
//! optionally piping the payload into the command's standard input.

use vstd::prelude::*;

use crate::hooks::Action;

verus! {

/// Settings for the command hook, as read from the document.
#[derive(Debug, PartialEq)]
pub struct CommandConf {
    pub command: String,
    pub pipe_data: Option<bool>,
}

impl CommandConf {
    /// Builds the runtime hook; an absent `pipe_data` means no piping.
    pub fn convert(&self) -> (c: Command)
        ensures
            c.spec_command() == self.command@,
            c.spec_pipe() == (match self.pipe_data {
                Some(x) => x,
                None => false,
            }),
    {
        let p = match self.pipe_data {
            None => false,
            Some(x) => x,
        };
        Command::new(self.command.as_str(), p)
    }
}

/// Runs a configured shell command once per detected change; with `pipe_data`
/// set, the payload is piped into the command's standard input.
#[derive(Debug, PartialEq)]
pub struct Command {
    command: String,
    pipe_data: bool,
}

impl Command {
    /// The configured command line.
    pub closed spec fn spec_command(&self) -> Seq<char> {
        self.command@
    }

    /// Whether the payload is piped into the command.
    pub closed spec fn spec_pipe(&self) -> bool {
        self.pipe_data
    }

    /// Creates a new command hook.
    pub fn new(cmd: &str, pipe_data: bool) -> (c: Command)
        ensures
            c.spec_command() == cmd@,
            c.spec_pipe() == pipe_data,
    {
        Command { command: cmd.to_owned(), pipe_data }
    }

    /// The configured command line, for error reports.
    pub fn command_string(&self) -> (s: String)
        ensures
            s@ == self.spec_command(),
    {
        self.command.clone()
    }

    /// The action one run performs: the command through the shell, with the
    /// payload on its standard input exactly when `pipe_data` is set.
    pub fn plan(&self, data: &str) -> (a: Action)
        ensures
            a matches Action::RunCommand { command, stdin } && command@ == self.spec_command() && (
            self.spec_pipe() ==> (stdin matches Some(s) && s@ == data@)) && (!self.spec_pipe()
                ==> stdin is None),
    {
        let stdin = if self.pipe_data {
            Some(data.to_owned())
        } else {
            None
        };
        Action::RunCommand { command: self.command.clone(), stdin }
    }
}

} // verus!
