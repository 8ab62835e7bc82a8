[package]
name = "isoterm"
version = "0.1.0"
edition = "2021"
publish = false

[dependencies]
anyhow = "*"
clap = { version = "*", features = ["derive"] }
console = "*"
flate2 = "*"
futures = "*"
futures-util = "*"
indicatif = "*"
pathdiff = "*"
reqwest = { version = "*", default-features = false, features = ["rustls-tls", "json", "stream"] }
serde_json = "*"
shellexpand = "*"
tar = "*"
tempfile = "*"
thiserror = "*"
tokio = { version = "*", features = ["macros", "rt-multi-thread", "time"] }
tokio-retry = "*"
tracing = "*"
tracing-subscriber = { version = "*", features = ["env-filter"] }
which = "*"
xz2 = { version = "*", features = ["static"] }
zip = { version = "*", default-features = false, features = ["deflate"] }
