[package]
name = "task"
version = "0.1.0"
edition = "2021"
publish = false

[dependencies]
crossbeam-utils = { version = "0.8", default-features = false }
log = "0.4"
spin = "0.9"
static_assertions = "1.1"
x86_64 = { version = "0.14", default-features = false, features = ["instructions"] }
