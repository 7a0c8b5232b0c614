[package]
name = "file_explorer"
version = "0.1.0"
edition = "2021"
publish = false

[dependencies]
chrono = { version = "0.4", default-features = false, features = ["std"] }
dirs = "5"
sysinfo = "0.29"
winapi = { version = "0.3", features = ["fileapi"] }
