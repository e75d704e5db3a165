[package]
name = "stall_detector"
version = "0.1.0"
edition = "2021"
publish = false

[dependencies]
backtrace = "0.3"
crossbeam = "0.8"
enclose = "1"
log = "0.4"
nix = { version = "0.27", features = ["time"] }
