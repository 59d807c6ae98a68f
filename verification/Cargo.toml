[package]
name = "jf"
version = "0.1.0"
edition = "2021"
publish = false

[dependencies]
async-trait = "=0.1.92"
chrono = "=0.4.45"
clap = { version = "=4.6.7", features = ["derive"] }
clap_complete = "4"
futures = "=0.3.34"
glob = "=0.3.4"
notify = "=6.1.1"
serde = { version = "=1.0.229", features = ["derive"] }
tokio = { version = "=1.54.1", features = ["full"] }
tokio-stream = "=0.1.19"
toml = "=0.8.23"
