//! Hooks: the ordered actions run against a new payload.
//!
//! A hook is immutable once constructed and holds only its settings. Running
//! a hook is split in two verified halves around the side effect itself:
//! [`Hook::plan`] turns the payload into the [`Action`] to perform — writing
//! a file, printing, rendering a template, running a command — and
//! [`Hook::interpret`] turns the reported [`Outcome`] into the hook's
//! verdict. Performing the action is input/output and happens outside this
//! library.

pub mod command;
pub mod file;
pub mod raw;
pub mod template;

use vstd::prelude::*;

use crate::errors::HookError;
use crate::hooks::command::Command;
use crate::hooks::file::File;
use crate::hooks::raw::Raw;
use crate::hooks::template::Template;

verus! {

/// The side effect one hook run asks its caller to perform.
#[derive(Debug, PartialEq)]
pub enum Action {
    /// Write `contents` to the file at `path`, replacing whatever is there.
    WriteFile { path: String, contents: String },
    /// Print `text` to standard output, followed by a line terminator.
    PrintLine { text: String },
    /// Render `template` against `data` and write the output to `out_file`,
    /// or to standard output (without a trailing line terminator) when no
    /// file is configured.
    Render { template: String, data: serde_yaml::Value, out_file: Option<String> },
    /// Run `command` through the shell, discarding its standard output; when
    /// `stdin` is given, write it to the child's standard input and close
    /// that input before waiting for the child.
    RunCommand { command: String, stdin: Option<String> },
}

/// What performing an action came to.
#[derive(Debug, PartialEq)]
pub enum Outcome {
    /// The action completed.
    Done,
    /// An output file could not be created or written.
    IoError { message: String },
    /// The template engine rejected the render.
    RenderError { message: String },
    /// The child process could not be spawned or written to.
    SpawnError { message: String },
    /// The child process exited; `code` is its exit code when it has one.
    Exited { success: bool, code: Option<i32> },
}

/// Relies on shellexpand's `tilde`: an input that does not start with `~` is
/// returned unchanged; one that does gets the home directory substituted for
/// the tilde prefix.
#[verifier::external_body]
pub(crate) fn expand_tilde(path: &str) -> (r: String)
    ensures
        path@.len() == 0 || path@[0] != '~' ==> r@ == path@,
{
    shellexpand::tilde(path).into_owned()
}

/// The closed set of hook variants.
#[derive(Debug, PartialEq)]
pub enum Hook {
    Template(Template),
    File(File),
    Raw(Raw),
    Command(Command),
}

/// Whether `a` is the action one run of hook `h` performs on payload `data`.
pub open spec fn action_matches_hook(a: Action, h: Hook, data: Seq<char>) -> bool {
    match h {
        Hook::Command(c) => a matches Action::RunCommand { command, stdin } && command@
            == c.spec_command() && (c.spec_pipe() ==> (stdin matches Some(s) && s@ == data)) && (
        !c.spec_pipe() ==> stdin is None),
        Hook::File(f) => a matches Action::WriteFile { path, contents } && path@
            == f.spec_outfile() && contents@ == data,
        Hook::Raw(_) => a matches Action::PrintLine { text } && text@ == data,
        Hook::Template(t) => a matches Action::Render { template, data: _, out_file } && template@
            == t.spec_tpl() && (t.spec_out_file() is None <==> out_file is None) && (match t.spec_out_file() {
            Some(o) => (o.len() == 0 || o[0] != '~') ==> (out_file matches Some(x) && x@ == o),
            None => true,
        }),
    }
}

/// Whether an outcome counts as success: a completed action, or a child
/// process that exited successfully.
pub open spec fn outcome_ok(o: Outcome) -> bool {
    o is Done || o matches Outcome::Exited { success: true, .. }
}

/// Whether `r` is the verdict hook `h` gives outcome `o`: success exactly
/// for a successful outcome, and each failure mapped to the hook error that
/// names it.
pub open spec fn verdict_matches(h: Hook, o: Outcome, r: Result<(), HookError>) -> bool {
    &&& (outcome_ok(o) <==> r is Ok)
    &&& (o matches Outcome::Exited { success: false, code } ==> (r matches Err(e) && e matches
        HookError::CommandFailed { command, status } && status == code && (h matches Hook::Command(
        c,
    ) ==> command@ == c.spec_command())))
    &&& (o matches Outcome::IoError { message } ==> (r matches Err(e) && e matches HookError::Io {
        message: m,
    } && m@ == message@))
    &&& (o matches Outcome::SpawnError { message } ==> (r matches Err(e) && e matches
        HookError::Io { message: m } && m@ == message@))
    &&& (o matches Outcome::RenderError { message } ==> (r matches Err(e) && e matches
        HookError::RenderFailure { message: m } && m@ == message@))
}

impl Hook {
    /// The action one run of this hook performs on `data`. Only the template
    /// hook can refuse, and it refuses exactly the payloads that are
    /// malformed for its declared format — a fatal hook error, not a skip.
    pub fn plan(&self, data: &str) -> (r: Result<Action, HookError>)
        ensures
            r matches Ok(a) ==> action_matches_hook(a, *self, data@),
            r is Ok <==> (self matches Hook::Template(t)
                ==> crate::hooks::template::payload_parses(t.spec_source_type(), data@)),
            r matches Err(e) ==> self matches Hook::Template(t) && e matches
                HookError::DeserializeFailure { format } && format@ == crate::hooks::template::source_name(
                t.spec_source_type(),
            ),
    {
        match self {
            Hook::Template(t) => t.plan(data),
            Hook::File(f) => Ok(f.plan(data)),
            Hook::Raw(rw) => Ok(rw.plan(data)),
            Hook::Command(c) => Ok(c.plan(data)),
        }
    }

    /// The hook's verdict on the reported outcome: success exactly for a
    /// completed action or a child process that exited successfully; every
    /// failure is mapped to the hook error that names it.
    pub fn interpret(&self, outcome: Outcome) -> (r: Result<(), HookError>)
        ensures
            verdict_matches(*self, outcome, r),
    {
        match outcome {
            Outcome::Done => Ok(()),
            Outcome::Exited { success: true, code: _ } => Ok(()),
            Outcome::Exited { success: false, code } => {
                let command = match self {
                    Hook::Command(c) => c.command_string(),
                    _ => String::new(),
                };
                Err(HookError::CommandFailed { command, status: code })
            },
            Outcome::IoError { message } => Err(HookError::Io { message }),
            Outcome::SpawnError { message } => Err(HookError::Io { message }),
            Outcome::RenderError { message } => Err(HookError::RenderFailure { message }),
        }
    }
}

} // verus!
