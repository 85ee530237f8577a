//! What the host is given to launch the language server.

use crate::acquire::QuickMarkExtension;
use crate::error::{spec_message, AcquireError};
use vstd::prelude::*;

verus! {

/// A process for the host to start: the executable, its arguments and the
/// environment variables to set.
#[derive(Clone, Debug, PartialEq, Eq)]
pub struct Command {
    pub command: String,
    pub args: Vec<String>,
    pub env: Vec<(String, String)>,
}

impl Command {
    /// Whether this starts `path` with no arguments and no variables set.
    pub open spec fn starts_bare(&self, path: Seq<char>) -> bool {
        &&& self.command@ == path
        &&& self.args@.len() == 0
        &&& self.env@.len() == 0
    }
}

impl QuickMarkExtension {
    /// Turns the outcome of an acquisition into what the host is given: the
    /// binary, started without arguments or variables, or the error's text.
    pub fn language_server_command(outcome: Result<String, AcquireError>) -> (launch: Result<
        Command,
        String,
    >)
        ensures
            match outcome {
                Ok(path) => launch matches Ok(command) && command.starts_bare(path@),
                Err(error) => launch matches Err(text) && text@ == spec_message(error@),
            },
    {
        match outcome {
            Ok(path) => Ok(Command { command: path, args: Vec::new(), env: Vec::new() }),
            Err(error) => Err(error.message()),
        }
    }
}

} // verus!
