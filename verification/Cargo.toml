[package]
name = "deskshow"
version = "0.1.0"
edition = "2021"
publish = false

[dependencies]
clap = { version = "4", features = ["derive"] }
rdev = "0.5"
tokio = { version = "1", features = ["macros", "rt-multi-thread", "time", "signal"] }
