//! The command line that starts the language server.

use crate::model::ResolveErrorView;
use crate::resolver::ResolveError;
use vstd::prelude::*;
use vstd::string::StringExecFns;

verus! {

/// A program to run, with its arguments and the environment variables to set.
#[derive(Debug, PartialEq, Eq)]
pub struct ServerCommand {
    pub command: String,
    pub args: Vec<String>,
    pub env: Vec<(String, String)>,
}

/// The text that the host shows for a failed resolution.
pub open spec fn message_of(error: ResolveErrorView) -> Seq<char> {
    match error {
        ResolveErrorView::NetworkFailure(reason) => reason,
        ResolveErrorView::AssetMismatch(name) => "no asset found matching "@ + name,
        ResolveErrorView::FilesystemFailure(reason) => reason,
        ResolveErrorView::OutOfSequence => "unexpected answer from the host"@,
    }
}

impl ResolveError {
    /// The text that the host shows for this failure.
    pub fn message(&self) -> (text: String)
        ensures
            text@ == message_of(self@),
    {
        match self {
            ResolveError::NetworkFailure(reason) => reason.clone(),
            ResolveError::AssetMismatch(name) => {
                let mut text = String::from_str("no asset found matching ");
                text.append(name.as_str());
                text
            },
            ResolveError::FilesystemFailure(reason) => reason.clone(),
            ResolveError::OutOfSequence => String::from_str("unexpected answer from the host"),
        }
    }
}

/// The command for a resolved binary: the binary itself, with no argument
/// and no environment variable. A failed resolution gives its message.
pub fn language_server_command(outcome: Result<String, ResolveError>) -> (command: Result<
    ServerCommand,
    String,
>)
    ensures
        match outcome {
            Ok(path) => command matches Ok(c) && c.command@ == path@ && c.args@.len() == 0
                && c.env@.len() == 0,
            Err(error) => command matches Err(text) && text@ == message_of(error@),
        },
{
    match outcome {
        Ok(path) => Ok(ServerCommand { command: path, args: Vec::new(), env: Vec::new() }),
        Err(error) => Err(error.message()),
    }
}

} // verus!
