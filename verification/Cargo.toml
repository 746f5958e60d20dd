[package]
name = "launchpad"
version = "0.1.0"
edition = "2021"
publish = false

[dependencies]
clap = { version = "=4.6.7", features = ["derive"] }
color-eyre = "=0.6.5"
libseat = "=0.2.4"
tokio = { version = "=1.54.1", features = ["macros", "process", "rt-multi-thread", "sync"] }
tracing = "=0.1.44"
tracing-subscriber = "=0.3.23"
zbus = { version = "=5.19.0", default-features = false, features = ["tokio"] }
