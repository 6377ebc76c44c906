[package]
name = "statsdump"
version = "0.3.0"
edition = "2021"
publish = false

[dependencies]
clap = "2"
libc = "0.2"
proc-mounts = "0.2"
procfs = "0.7"

[dev-dependencies]
csv = "1"
