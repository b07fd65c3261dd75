[package]
name = "recursive_file_watcher"
version = "0.1.0"
edition = "2021"
publish = false

[dependencies]
notify = "6.1.1"

[dev-dependencies]
tempfile = "3"
