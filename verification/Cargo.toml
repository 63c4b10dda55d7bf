[package]
name = "brust"
version = "0.1.0"
edition = "2021"
publish = false

[dependencies]
serde_json = "*"
regex = "*"
uuid = "*"
toml = "*"
serde = { version = "*", features = ["derive"] }
tokio = { version = "*", features = ["full"] }
log = "*"
fern = "*"
clap = "*"
anyhow = "*"
dialoguer = "*"
