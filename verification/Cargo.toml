[package]
name = "jlink_config"
version = "0.1.0"
edition = "2021"
publish = false

[dependencies]
dirs = "*"
log = "0.4"
serde = { version = "1", features = ["derive"] }
tokio = { version = "1", features = ["time", "rt", "macros"] }
which = "*"
winreg = "*"
