//! Verbose-mode switch and timestamped diagnostic lines for the `siren`
//! command-line tool.
//!
//! - [`logging`]: the verbose switch and the lines it lets through.
//! - [`cli`]: the options the tool is started with.

pub mod cli;
pub mod logging;
