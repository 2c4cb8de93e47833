[package]
name = "asic_rs"
version = "0.1.0"
edition = "2021"
publish = false

[dependencies]
anyhow = "=1.0.104"
url = "=2.5.8"
secrecy = "=0.10.3"
semver = "=1.0.28"
serde = { version = "=1.0.229", features = ["derive"] }
serde_json = "=1.0.154"
tokio = { version = "=1.54.1", features = ["net", "io-util", "time", "rt", "rt-multi-thread", "macros", "sync"] }
reqwest = { version = "=0.13.5", default-features = false, features = ["json"] }
diqwest = "=3.2.0"
measurements = "=0.11.1"
macaddr = "=1.0.1"
strum = { version = "=0.27.2", features = ["derive"] }
futures = "=0.3.34"
tracing = "=0.1.44"
async-trait = "=0.1.92"
