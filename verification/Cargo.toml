[package]
name = "jobctl"
version = "0.1.0"
edition = "2021"
publish = false

[dependencies]
base64 = "0.22"
clap = { version = "4", features = ["derive"] }
libc = "0.2"
serde_json = "1"
sysinfo = "*"
tracing = "0.1"
tracing-subscriber = "0.3"
