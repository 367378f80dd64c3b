[package]
name = "harness"
version = "0.1.0"
edition = "2021"
publish = false

[dependencies]
anyhow = "=1.0.104"
async-trait = "=0.1.92"
futures = "=0.3.34"
hex = "=0.4.3"
prost = "0.13"
reqwest = { version = "=0.12.28", default-features = false, features = ["json", "rustls-tls"] }
rustls = { version = "=0.23.46", default-features = false, features = ["ring", "std"] }
serde = { version = "=1.0.229", features = ["derive"] }
serde_json = "=1.0.154"
sysinfo = "=0.40.1"
tari_common = "=5.6.0"
tari_common_types = "=5.6.0"
tari_transaction_components = "=5.6.0"
tari_utilities = "0.10"
tokio = { version = "=1.54.1", features = ["macros", "rt-multi-thread", "process", "time", "net", "sync"] }
toml = "0.8"
tonic = "0.13"
