[package]
name = "olg_server"
version = "0.1.0"
edition = "2021"
publish = false

[dependencies]
actix-web = "*"
anyhow = "*"
clap = { version = "*", features = ["cargo"] }
deadpool-postgres = "*"
serde = { version = "*", features = ["derive"] }
tokio = { version = "*", features = ["fs", "macros", "net", "rt-multi-thread", "signal", "time"] }
tokio-postgres = "*"
toml = "*"
tracing = "*"
tracing-log = "*"
tracing-subscriber = { version = "*", features = ["env-filter", "fmt"] }
