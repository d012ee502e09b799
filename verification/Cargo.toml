[package]
name = "updater"
version = "0.1.0"
edition = "2021"
publish = false

[dependencies]
semver = "1"
minisign = "*"
serde_json = "1"
libmount = "*"
os-release = "*"
serde = { version = "1", features = ["derive"] }
toml = "*"
reqwest = { version = "0.12", default-features = false, features = ["blocking", "rustls-tls"] }
