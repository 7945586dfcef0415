[package]
name = "etl_updater"
version = "0.1.0"
edition = "2021"
publish = false

[dependencies]
anyhow = "1"
clap = "3.1"
futures = "0.3"
hyper = { version = "0.14", features = ["full"] }
prost = "0.9"
serde = { version = "1", features = ["derive"] }
serenity = "0.10"
tokio = { version = "1", features = ["full"] }
toml = "0.5"
tonic = "0.6"
tower = "0.4"
tracing = "0.1"
