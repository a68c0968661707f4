//! Resolution of the settings of one invocation.
//!
//! An invocation supplies some settings on the command line; a stored
//! configuration profile holds a default for others. This library says,
//! setting by setting, which of the two a run goes by, and proves that the
//! executable code follows that statement.
//!
//! - [`cli`]: the option surface, and the two decisions made while raw
//!   tokens are read: whether a path argument is accepted, and whether an
//!   exclude token is a literal entry or a pattern.
//! - [`config`]: the configuration profile.
//! - [`resolve`]: the resolution itself.
//! - [`laws`]: what holds of every resolution.
//! - [`path`]: filesystem paths, carried as opaque values.
//! - [`text`]: comparison of text.
//!
//! The library reads no arguments and touches no disk: whoever calls it
//! hands it typed values and the answers of the filesystem probes.

pub mod cli;
pub mod config;
pub mod laws;
pub mod path;
pub mod resolve;
pub mod text;
