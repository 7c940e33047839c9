//! System-level helpers.

pub mod uptime;
