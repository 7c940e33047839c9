//! The logger: its configuration, the non-blocking writer that carries
//! records from the threads that log to the thread that writes, and the rules
//! by which the log file is rotated.

pub mod log_init;
pub mod rotation;
pub mod settings;
pub mod writer;
