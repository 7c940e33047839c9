[package]
name = "alumy"
version = "0.1.0"
edition = "2021"
publish = false

[dependencies]
anyhow = "1"
crossbeam = "0.8"
libc = "0.2"
rolling-file = "*"
time = { version = "0.3", features = ["macros", "formatting", "local-offset"] }
tracing = "0.1"
tracing-subscriber = { version = "0.3", features = ["env-filter", "local-time"] }
