[package]
name = "telescope_core"
version = "0.1.0"
edition = "2021"
publish = false

[dependencies]
rcgen = "*"
nanoid = "*"
reqwest = { version = "*", default-features = false }
hudsucker = { version = "*", features = ["rcgen-ca", "rustls-client"] }
hyper = "*"
http-body-util = "*"
tokio = { version = "*", features = ["full"] }
toml = "*"
serde = { version = "*", features = ["derive"] }
log = "*"
