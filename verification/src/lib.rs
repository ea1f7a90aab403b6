//! A verified core for a global-hotkey launcher.
//!
//! The library owns the decisions of the launcher: which key combinations
//! are configured, how candidate entries are validated and bound to the
//! identifiers issued by the operating system's hotkey subsystem, and how a
//! press notification is resolved to the shell command that should be
//! spawned.  The operating-system work itself — permission prompts, hotkey
//! registration, event delivery and process spawning — happens outside the
//! library, which is handed plain values (booleans, identifiers, outcomes)
//! and returns the next action to take.

pub mod config;
pub mod dispatch;
pub mod errors;
pub mod hotkey;
pub mod permission;
pub mod registrar;
pub mod table;
