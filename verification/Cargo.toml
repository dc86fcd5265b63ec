[package]
name = "nitrogen"
version = "0.1.0"
edition = "2021"
publish = false

[dependencies]
anyhow = "=1.0.104"
async-trait = "=0.1.92"
chrono = "=0.4.45"
fern = "=0.6.2"
flume = "=0.11.1"
futures-lite = "=2.6.1"
log = "=0.4.35"
md-5 = "=0.10.6"
num-bigint = "=0.4.8"
reqwest = { version = "=0.11.27", default-features = false, features = ["json"] }
rsa = "=0.9.10"
serde = { version = "=1.0.229", features = ["derive"] }
serde_json = "=1.0.154"
sha1 = "=0.10.7"
tokio = { version = "=1.54.1", features = ["full"] }
toml = "=0.5.11"
uuid = "=1.29.0"
