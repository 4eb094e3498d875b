[package]
name = "emu_runner"
version = "0.1.0"
edition = "2021"
publish = false

[dependencies]
anyhow = "1"
futures-timer = "3"
tokio = { version = "1", features = ["macros", "rt", "sync"] }
