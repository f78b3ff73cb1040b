//! Verified core of a desktop database-management shell.
//!
//! The shell launches an out-of-process backend, discovers the port the
//! backend bound by scanning its standard output for a handshake line,
//! publishes that port for the rest of the shell to read, and terminates the
//! backend on shutdown. This crate holds the logic of that supervision
//! sequence — handshake parsing, the output scan, and the supervisor state
//! machine — together with the small pure decisions the shell makes (which
//! directory entries are migration files, how a menu event is dispatched).
//! Process spawning, threads, dialogs and the rest of the windowing layer
//! live outside the library and drive it with plain values.

pub mod files;
pub mod handshake;
pub mod menu;
pub mod supervisor;
pub mod text;
