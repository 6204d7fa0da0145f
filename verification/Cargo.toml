[package]
name = "traffic_maker"
version = "0.1.0"
edition = "2021"
publish = false

[dependencies]
rand = "0.8"
hex = "0.4"
parse_duration = "2"
chrono = "0.4"
futures = "0.3"
parity-scale-codec = "3"
log = "0.4"
serde = { version = "1", features = ["derive"] }
serde_json = "1"
toml = "0.5"
tokio = { version = "1", features = ["rt-multi-thread", "macros", "time", "sync"] }
actix-web = "4"
actix-cors = "0.6"
anyhow = "1"
