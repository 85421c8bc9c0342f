//! Command lines for the `ln` and `unlink` utilities.
//!
//! The library turns a typed description of a linking request into the exact
//! argument vector of one child process, and turns what the operating system
//! reports about that process into the caller's result. Launching the process
//! is left to the caller.

pub mod args;
pub mod command;
pub mod laws;
pub mod options;
pub mod outcome;

pub use command::{force_symlink, ln, unlink, Invocation};
pub use options::{BackupControl, LinkOptions, LnOptions};
pub use outcome::{exit_result, ExecutionResult, LaunchFailure, NO_EXIT_CODE};
