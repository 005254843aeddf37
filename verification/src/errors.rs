//! Error taxonomy: configuration errors are always fatal and reported before
//! any network access; provider errors distinguish remote-fetch failure from
//! persistence failure; hook errors abort the remaining pipeline.

use vstd::prelude::*;

verus! {

/// A configuration document that cannot be turned into a provider and hooks.
#[derive(Debug)]
pub enum ConfigError {
    /// The document text is malformed; the payload is the 1-based number of
    /// the first offending line.
    Syntax { line: usize },
    /// No provider section is present.
    MissingProvider,
    /// More than one provider section is present.
    AmbiguousProvider,
    /// The single provider section names no known provider type.
    UnknownProvider { name: String },
    /// A recognized provider section does not deserialize into its settings
    /// record; the whole load is aborted.
    InvalidSection { section: String, cause: String },
}

/// Failure of a provider: either the remote source or the durable cache.
#[derive(Debug)]
pub enum ProviderError {
    /// The remote source could not be contacted, or returned malformed data.
    Unavailable,
    /// The durable store could not be opened or initialized; fatal.
    StoreInit,
    /// The durable store could not be read.
    CacheUnavailable,
}

/// Failure of a single hook; aborts the hooks that follow it.
#[derive(Debug)]
pub enum HookError {
    /// An output file or child process could not be used.
    Io { message: String },
    /// The template engine rejected the template or its data.
    RenderFailure { message: String },
    /// The payload is malformed for the declared source format.
    DeserializeFailure { format: String },
    /// A command exited with a non-zero status; `status` is its exit code
    /// when one is available.
    CommandFailed { command: String, status: Option<i32> },
}

impl ConfigError {
    /// The process exit status a fatal configuration error maps to.
    pub fn exit_code(&self) -> (c: i32)
        ensures
            c == 78,
    {
        78
    }

    /// Human-readable description, for the top-level handler to print.
    pub fn message(&self) -> String {
        match self {
            ConfigError::Syntax { line: _ } => String::from_str(
                "Could not parse configuration document",
            ),
            ConfigError::MissingProvider => String::from_str(
                "Error, configuration must include a backend provider",
            ),
            ConfigError::AmbiguousProvider => String::from_str(
                "Error, configuration must include only one backend provider",
            ),
            ConfigError::UnknownProvider { name: _ } => String::from_str(
                "Error, no valid providers found",
            ),
            ConfigError::InvalidSection { section, cause: _ } => {
                let mut m = String::from_str("Could not parse config section: ");
                m.append(section.as_str());
                m
            },
        }
    }
}

impl ProviderError {
    /// The process exit status a provider failure maps to: a service that is
    /// unavailable is distinguished from a broken local cache.
    pub fn exit_code(&self) -> (c: i32)
        ensures
            self is Unavailable ==> c == 69,
            !(self is Unavailable) ==> c == 70,
    {
        match self {
            ProviderError::Unavailable => 69,
            ProviderError::StoreInit => 70,
            ProviderError::CacheUnavailable => 70,
        }
    }

    /// Human-readable description, for the top-level handler to print.
    pub fn message(&self) -> String {
        match self {
            ProviderError::Unavailable => String::from_str(
                "An error occurred when trying to fetch from the remote source",
            ),
            ProviderError::StoreInit => String::from_str(
                "Error, unable to open or initialize the local cache",
            ),
            ProviderError::CacheUnavailable => String::from_str(
                "Error, unable to query the local cache",
            ),
        }
    }
}

impl HookError {
    /// The process exit status a hook failure maps to: input/output trouble
    /// is distinguished from a failing command or template.
    pub fn exit_code(&self) -> (c: i32)
        ensures
            self is Io ==> c == 72,
            !(self is Io) ==> c == 70,
    {
        match self {
            HookError::Io { message: _ } => 72,
            HookError::RenderFailure { message: _ } => 70,
            HookError::DeserializeFailure { format: _ } => 70,
            HookError::CommandFailed { command: _, status: _ } => 70,
        }
    }

    /// Human-readable description, for the top-level handler to print.
    pub fn message(&self) -> String {
        match self {
            HookError::Io { message } => {
                let mut m = String::from_str("Could not write output: ");
                m.append(message.as_str());
                m
            },
            HookError::RenderFailure { message } => {
                let mut m = String::from_str("Could not render template: ");
                m.append(message.as_str());
                m
            },
            HookError::DeserializeFailure { format } => {
                let mut m = String::from_str("Could not deserialize payload as ");
                m.append(format.as_str());
                m
            },
            HookError::CommandFailed { command, status: _ } => {
                let mut m = String::from_str("Failed to execute cmd: ");
                m.append(command.as_str());
                m
            },
        }
    }
}

} // verus!
