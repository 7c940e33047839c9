//! Filesystem helpers: size strings and well-known paths.

pub mod filesize;
pub mod path;
