//! Bootstrap decisions for a server launcher that resolves a pack manifest,
//! keeps two downloaded artifacts cached on disk, runs an installer and then
//! replaces itself with the server process at normal exit.
//!
//! Everything here is pure: callers perform the I/O (HTTP, files, process
//! control) and hand the results back as plain values. A `session::Session`
//! says which step comes next; `hook::ExitHook` holds the launch that
//! replaces the process at exit.

pub mod text;

pub mod launch;
pub mod hook;
pub mod cache;
pub mod manifest;
pub mod session;
