//! A command-surface adapter for the DUB build tool: it maps a typed request
//! (a subcommand and its options) onto the exact token sequence that `dub`
//! expects, decides which executable to invoke, and classifies the outcome of
//! the child process. Everything here is a pure function of plain values; the
//! program around this library spawns the processes and reads the
//! environment.

pub mod dispatch;
pub mod encode;
pub mod error;
pub mod invocation;
pub mod laws;
pub mod options;
pub mod request;
pub mod resolve;
