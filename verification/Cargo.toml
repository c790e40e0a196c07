[package]
name = "runcc"
version = "0.1.0"
edition = "2021"
publish = false

[dependencies]
tokio = { version = "1", features = ["io-util", "macros", "process", "rt-multi-thread", "signal", "sync"] }
clap = { version = "4", features = ["derive"] }
