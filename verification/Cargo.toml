[package]
name = "windmill"
version = "0.1.0"
edition = "2021"
publish = false

[dependencies]
clap = { version = "4", features = ["derive"] }
tokio = { version = "1", features = ["macros", "rt-multi-thread", "sync", "signal", "time", "process"] }
tokio-retry = "0.3"
cxx = "1"
