[package]
name = "muchsyncrs-protocol"
version = "0.1.0"
edition = "2021"
publish = false

[dependencies]
camino = { version = "=1.2.6", features = ["serde1"] }
clap = { version = "=4.6.7", features = ["derive"] }
clap-verbosity-flag = { version = "=3.0.4", default-features = false, features = ["tracing"] }
dashmap = "=6.2.1"
derive_more = { version = "=1.0.0", features = ["from", "try_into"] }
futures = "=0.3.34"
human-panic = "=2.0.8"
miette = { version = "=7.6.0", features = ["fancy"] }
serde = { version = "=1.0.229", features = ["derive"] }
serde_json = { version = "=1.0.154", features = ["preserve_order"] }
thiserror = "=2.0.21"
time = "=0.3.55"
tokio = { version = "=1.54.1", features = ["rt", "macros", "io-util", "io-std", "sync", "fs"] }
tokio-util = "=0.7.20"
toml = "=0.8.23"
tower = { version = "=0.5.3", features = ["util", "make"] }
tower-service = "=0.3.3"
tracing = "=0.1.44"
tracing-subscriber = { version = "=0.3.23", features = ["env-filter"] }
uuid = { version = "=1.29.0", features = ["v4"] }
xdg = "=2.5.2"
