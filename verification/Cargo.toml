[package]
name = "r2"
version = "0.1.0"
edition = "2021"
publish = false

[dependencies]
anyhow = "*"
clap = { version = "*", features = ["derive"] }
notify = "*"
notify-debouncer-full = "*"
tokio = { version = "*", features = ["macros", "rt-multi-thread", "process", "signal", "sync"] }
