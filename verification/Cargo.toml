[package]
name = "ai_terminal"
version = "0.1.0"
edition = "2021"
publish = false

[dependencies]
anyhow = "*"
chrono = "*"
portable-pty = "*"
strip-ansi-escapes = "*"
tokio = { version = "*", features = ["rt-multi-thread", "sync", "macros", "time"] }
uuid = { version = "*", features = ["v4"] }
