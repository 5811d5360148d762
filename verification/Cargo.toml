[package]
name = "pulpcalc"
version = "0.1.0"
edition = "2021"
publish = false

[dependencies]
regex = "*"
clap = { version = "*", features = ["derive"] }
tokio = { version = "*", features = ["full"] }
futures = "*"
rand = "*"
serde = { version = "*", features = ["derive"] }
serde_json = "*"
toml = "*"
uuid = { version = "*", features = ["v4"] }
neo4rs = "*"
reqwest = { version = "*", default-features = false, features = ["json", "rustls-tls"] }
eyre = "*"
thiserror = "*"
