[package]
name = "ssh_core"
version = "0.1.0"
edition = "2021"
publish = false

[dependencies]
russh = "=0.45.0"
russh-keys = "=0.45.0"
tokio = { version = "=1.53.2", features = ["rt-multi-thread", "time", "sync", "macros"] }
async-trait = "=0.1.92"
