[package]
name = "my_im"
version = "0.1.0"
edition = "2021"
publish = false

[dependencies]
tonic = "0.12"
uuid = { version = "1", features = ["v4"] }
rdkafka = "0.36"
tokio = { version = "1", features = ["full"] }
tower = { version = "0.4", features = ["balance", "discover", "load", "limit"] }
http = "1"
futures-util = { version = "0.3", features = ["sink"] }
tokio-tungstenite = "0.21"
warp = "0.3"
reqwest = { version = "0.12", default-features = false }
bb8 = "0.8"
bb8-redis = "0.15"
serde_json = "1"
log = "0.4"
pretty_env_logger = "0.5"
chrono = "0.4"
