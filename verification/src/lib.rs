//! Locates the Odoo language server for an editor host: on the worktree's
//! `PATH`, in a previously installed copy, or in the latest published release.

pub mod command;
pub mod laws;
pub mod model;
pub mod naming;
pub mod options;
pub mod release;
pub mod resolver;
