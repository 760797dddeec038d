[package]
name = "service"
version = "0.1.0"
edition = "2021"
publish = false

[dependencies]
log = "0.4"
widestring = "1"
tokio = { version = "1", default-features = false, features = ["rt", "rt-multi-thread", "sync", "fs", "io-util"] }
simple_logger = { version = "*", default-features = false }
lazy_static = "1"
winapi = { version = "0.3", features = ["winsvc", "winnt", "winuser", "winerror", "errhandlingapi", "minwindef"] }
eventlog = "*"
