[package]
name = "hrtime"
version = "0.1.0"
edition = "2021"
publish = false

[dependencies]
cfg-if = "1"
libc = "0.2"
pin-project-lite = "0.2"
tokio = { version = "=1.40.0", features = ["net", "rt", "sync"] }
tokio-util = "0.7"
windows = { version = "0.58", features = ["Win32_Foundation", "Win32_Security", "Win32_System_Threading"] }
