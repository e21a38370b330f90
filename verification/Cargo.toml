[package]
name = "print_bot"
version = "0.1.0"
edition = "2021"
publish = false

[dependencies]
axum = "*"
log = "*"
serde = { version = "*", features = ["derive"] }
tokio = { version = "*", features = ["macros", "rt-multi-thread", "signal", "sync", "time", "net"] }
