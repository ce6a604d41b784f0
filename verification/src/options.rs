//! The initialization options handed to the language server.

use vstd::prelude::*;
use vstd::string::StringExecFns;

verus! {

/// A JSON value of `serde_json`. Nothing is claimed of what it holds: the
/// library only carries the host's settings through.
#[verifier::external_type_specification]
#[verifier::external_body]
pub struct ExJsonValue(serde_json::Value);

/// The settings that the language server understands.
#[derive(Debug, PartialEq, Eq)]
pub struct ServerOptions {
    /// Directories that hold addons.
    pub addons: Vec<String>,
    /// The Python interpreter to run.
    pub python: String,
    /// Directories whose diagnostics are reported.
    pub tracked_folders: Vec<String>,
    /// Directories of additional stubs.
    pub stubs: Vec<String>,
    /// Whether the bundled typeshed is left out.
    pub no_typeshed: bool,
}

impl ServerOptions {
    /// Whether these are the settings used where the host provides none: no
    /// addons, `python3`, no tracked folders, no stubs, typeshed in use.
    pub open spec fn is_default(&self) -> bool {
        &&& self.addons@.len() == 0
        &&& self.python@ == "python3"@
        &&& self.tracked_folders@.len() == 0
        &&& self.stubs@.len() == 0
        &&& !self.no_typeshed
    }
}

impl Default for ServerOptions {
    fn default() -> (options: ServerOptions)
        ensures
            options.is_default(),
    {
        ServerOptions {
            addons: Vec::new(),
            python: String::from_str("python3"),
            tracked_folders: Vec::new(),
            stubs: Vec::new(),
            no_typeshed: false,
        }
    }
}

/// What is handed to the language server at start-up.
#[derive(Debug, PartialEq)]
pub enum InitializationOptions {
    /// The settings that the host holds for the worktree, as they are.
    Host(serde_json::Value),
    /// The default settings.
    Defaults(ServerOptions),
}

/// The host's settings where it has any, and the defaults where it has none.
pub fn language_server_initialization_options(host: Option<serde_json::Value>) -> (options:
    InitializationOptions)
    ensures
        match host {
            Some(value) => options == InitializationOptions::Host(value),
            None => options matches InitializationOptions::Defaults(defaults)
                && defaults.is_default(),
        },
{
    match host {
        Some(value) => InitializationOptions::Host(value),
        None => InitializationOptions::Defaults(ServerOptions::default()),
    }
}

} // verus!
