[package]
name = "process_supervisor"
version = "0.1.0"
edition = "2021"
publish = false

[dependencies]
serde_json = "1"
log = "0.4"
libc = "0.2"
