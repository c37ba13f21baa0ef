//! The library's error taxonomy.
//!
//! Every fallible operation at the terminal boundary reports one of these
//! kinds.  A failed command or plugin operation carries its own sub-kind.

use vstd::prelude::*;

verus! {

#[verifier::external_type_specification]
#[verifier::external_body]
pub struct ExIoError(std::io::Error);

/// What went wrong in the command engine.
#[derive(Debug)]
pub enum CommandError {
    /// No handler is registered under this name.
    NotFound(String),
    /// The arguments do not fit the command.
    InvalidArgs(String),
    /// The handler ran and failed.
    ExecutionFailed(String),
    /// The command line ended inside a quoted argument.
    UnclosedQuote,
    /// The command line held no token at all.
    Empty,
}

/// What went wrong in the plugin system.
#[derive(Debug)]
pub enum PluginError {
    LoadFailed(String),
    CapabilityDenied(String),
    Timeout,
    ExecutionFailed(String),
}

/// The single error type of the library.
#[derive(Debug)]
pub enum Error {
    /// Reading or writing the terminal failed.
    Io(std::io::Error),
    /// A terminal mode transition or size query failed.
    Backend(String),
    /// Building the output byte stream failed.
    Render(String),
    /// The backend could not parse an event.
    Event(String),
    /// The command engine failed.
    Command(CommandError),
    /// The plugin system failed.
    Plugin(PluginError),
    /// The reactive store was misused.
    State(String),
    /// Reserved for future constraint violations.
    Layout(String),
}

impl From<CommandError> for Error {
    fn from(e: CommandError) -> (r: Error) {
        Error::Command(e)
    }
}

impl vstd::std_specs::convert::FromSpecImpl<CommandError> for Error {
    open spec fn obeys_from_spec() -> bool {
        true
    }

    open spec fn from_spec(e: CommandError) -> Error {
        Error::Command(e)
    }
}

impl From<PluginError> for Error {
    fn from(e: PluginError) -> (r: Error) {
        Error::Plugin(e)
    }
}

impl vstd::std_specs::convert::FromSpecImpl<PluginError> for Error {
    open spec fn obeys_from_spec() -> bool {
        true
    }

    open spec fn from_spec(e: PluginError) -> Error {
        Error::Plugin(e)
    }
}

impl From<std::io::Error> for Error {
    fn from(e: std::io::Error) -> (r: Error) {
        Error::Io(e)
    }
}

impl vstd::std_specs::convert::FromSpecImpl<std::io::Error> for Error {
    open spec fn obeys_from_spec() -> bool {
        true
    }

    open spec fn from_spec(e: std::io::Error) -> Error {
        Error::Io(e)
    }
}

} // verus!
