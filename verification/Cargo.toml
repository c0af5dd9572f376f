[package]
name = "tuigreet"
version = "0.1.0"
edition = "2021"
publish = false

[dependencies]
chrono = { version = "=0.4.45", features = ["unstable-locales"] }
dirs = "=7.0.0"
greetd_ipc = { version = "=0.10.3", features = ["tokio-codec"] }
notify = "=8.2.1"
ratatui = "=0.30.2"
serde = { version = "=1.0.229", features = ["derive"] }
tokio = { version = "=1.54.1", features = ["macros", "rt-multi-thread", "sync", "time", "net", "io-util", "signal"] }
toml = "=1.1.8"
tracing = "=0.1.44"
