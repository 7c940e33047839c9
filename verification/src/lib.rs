//! Logging, system and filesystem helpers.
//!
//! - [`log`]: configuration of the logger, the non-blocking writer and the
//!   rules by which the log file is rotated.
//! - [`sys`]: system uptime.
//! - [`fs`]: size strings and well-known paths.
//! - [`version`]: crate metadata.
//! - [`text`]: numbers as decimal text.

pub mod fs;
pub mod log;
pub mod sys;
pub mod text;
pub mod version;

pub use log::log_init::LogConfig;
