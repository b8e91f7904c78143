[package]
name = "rpl"
version = "0.1.0"
edition = "2021"
publish = false

[dependencies]
anyhow = "=1.0.104"
async-trait = "=0.1.92"
backoff = { version = "=0.3.0", features = ["tokio"] }
chrono = "=0.4.45"
clap = "=2.34.0"
derive_builder = "=0.10.2"
derive-getters = "=0.2.1"
directories = "=3.0.2"
fern = { version = "=0.6.2", features = ["colored"] }
fs2 = "=0.4.3"
humansize = "=1.1.1"
indicatif = "=0.17.11"
lava_torrent = "=0.11.1"
log = "=0.4.34"
parse-size = "=1.1.0"
regex = "=1.13.1"
reqwest = { version = "=0.11.27", features = ["json", "multipart"] }
serde = { version = "=1.0.229", features = ["derive"] }
serde_json = "=1.0.154"
serde_urlencoded = "=0.7.1"
shellexpand = "=2.1.2"
thiserror = "=1.0.69"
tokio = { version = "=1.54.1", features = ["rt", "macros", "time"] }
toml = "=0.5.11"
url = "=2.5.8"
